//! Builtins of no particular family.

use vstd::prelude::*;
use crate::error::BuiltinError;
use crate::json::Json;

verus! {

/// Returns a list of all the indexes of a substring contained inside a
/// string. Not implemented.
pub fn indexof_n(string: String, search: String) -> (r: Result<Vec<u32>, BuiltinError>)
    ensures
        r == Err::<Vec<u32>, BuiltinError>(BuiltinError::NotImplemented),
{
    Err(BuiltinError::NotImplemented)
}

/// Returns every path reachable from the given roots of a graph. Not
/// implemented.
pub fn reachable_paths(graph: Json, initial: Json) -> (r: Result<Json, BuiltinError>)
    ensures
        r == Err::<Json, BuiltinError>(BuiltinError::NotImplemented),
{
    Err(BuiltinError::NotImplemented)
}

/// Parses a Rego module into its syntax tree. Not implemented.
pub fn parse_module(filename: String, module: String) -> (r: Result<Json, BuiltinError>)
    ensures
        r == Err::<Json, BuiltinError>(BuiltinError::NotImplemented),
{
    Err(BuiltinError::NotImplemented)
}

/// Emits `note` in the query explanation. The host keeps no explanation, so
/// this does nothing and returns `true`.
pub fn trace(note: String) -> (r: Result<bool, BuiltinError>)
    ensures
        r == Ok::<bool, BuiltinError>(true),
{
    Ok(true)
}

} // verus!
