//! Errors that builtins hand back to the guest.

use vstd::prelude::*;

verus! {

/// Why a builtin call failed. Each of these traps the guest.
#[derive(Debug, PartialEq, Eq)]
pub enum BuiltinError {
    /// The builtin is declared but has no implementation.
    NotImplemented,
    /// No builtin is registered under the name.
    UnknownBuiltin,
    /// The call did not carry as many arguments as the builtin takes.
    InvalidArguments,
    /// The argument at this position does not have the type the builtin takes.
    ArgumentType(usize),
    /// A pattern, a version or another textual argument could not be parsed.
    Parse,
    /// A time zone name is not known.
    UnknownTimezone,
    /// The result does not fit the range the builtin can return.
    OutOfRange,
    /// `rand.intn` was given a negative bound.
    NegativeBound,
    /// A value held in the evaluation cache does not have the expected shape.
    CacheMismatch,
    /// The builtin runs on the host side and cannot be called here.
    HostOnly,
    /// A template was given delimiters that are not single characters.
    Delimiters,
}

} // verus!
