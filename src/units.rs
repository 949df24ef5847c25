//! Builtins to parse and convert units.

use vstd::prelude::*;
use vstd::utf8::encode_utf8;
use crate::error::BuiltinError;

verus! {

/// A quantity given in whole units, or in thousandths of a unit.
#[derive(Debug, PartialEq, Eq)]
pub enum UsizeOrMilli {
    /// A whole number of units.
    Usize(u64),
    /// A number of thousandths of a unit.
    Milli(u64),
}

/// The number of units that a size such as `"10G"` or `"5Ki"` stands for, with
/// the decimal meaning of the prefixes K, M, G, T, P and E.
pub uninterp spec fn decimal_size(b: Seq<u8>) -> Option<u64>;

/// Relies on `parse_size::Config::new().with_decimal().parse_size`: the size
/// that the bytes stand for, or `None` where they do not parse.
#[verifier::external_body]
fn parse_decimal_size(b: &[u8]) -> (r: Option<u64>)
    ensures
        r == decimal_size(b@),
{
    parse_size::Config::new().with_decimal().parse_size(b).ok()
}

/// Converts strings like "10G", "5K", "4M", "1500m" and the like into a
/// number. A trailing lowercase `m` means thousandths; otherwise the
/// standard metric decimal and binary SI units apply (K, M, G, T, P, E are
/// decimal, Ki, Mi, Gi, Ti, Pi, Ei binary).
pub fn parse(x: String) -> (r: Result<UsizeOrMilli, BuiltinError>)
    ensures
        ({
            let bytes = encode_utf8(x@);
            if bytes.len() > 0 && bytes.last() == 109u8 {
                match decimal_size(bytes.drop_last()) {
                    Some(v) => r == Ok::<UsizeOrMilli, BuiltinError>(UsizeOrMilli::Milli(v)),
                    None => r == Err::<UsizeOrMilli, BuiltinError>(BuiltinError::Parse),
                }
            } else {
                match decimal_size(bytes) {
                    Some(v) => r == Ok::<UsizeOrMilli, BuiltinError>(UsizeOrMilli::Usize(v)),
                    None => r == Err::<UsizeOrMilli, BuiltinError>(BuiltinError::Parse),
                }
            }
        }),
{
    let bytes = x.as_str().as_bytes();
    let n = bytes.len();
    if n > 0 && bytes[n - 1] == 109u8 {
        let init = vstd::slice::slice_subrange(bytes, 0, n - 1);
        assert(init@ =~= encode_utf8(x@).drop_last());
        match parse_decimal_size(init) {
            Some(v) => Ok(UsizeOrMilli::Milli(v)),
            None => Err(BuiltinError::Parse),
        }
    } else {
        match parse_decimal_size(bytes) {
            Some(v) => Ok(UsizeOrMilli::Usize(v)),
            None => Err(BuiltinError::Parse),
        }
    }
}

/// Converts strings like "10GB", "5K", "4mb" into an integer number of bytes.
/// KB, MB, GB and TB are decimal units and KiB, MiB, GiB and TiB binary ones;
/// the bytes symbol is optional.
pub fn parse_bytes(x: String) -> (r: Result<u64, BuiltinError>)
    ensures
        decimal_size(encode_utf8(x@)) matches Some(v) ==> r == Ok::<u64, BuiltinError>(v),
        decimal_size(encode_utf8(x@)) is None ==> r == Err::<u64, BuiltinError>(BuiltinError::Parse),
{
    match parse_decimal_size(x.as_str().as_bytes()) {
        Some(v) => Ok(v),
        None => Err(BuiltinError::Parse),
    }
}

} // verus!
