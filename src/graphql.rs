//! Builtins related to GraphQL schema and query parsing and validation. They
//! are declared and have no implementation: each returns
//! [`BuiltinError::NotImplemented`].

use vstd::prelude::*;
use crate::error::BuiltinError;
use crate::json::Json;

verus! {

/// Checks that a GraphQL query is valid against a given schema.
pub fn is_valid(query: String, schema: String) -> (r: Result<bool, BuiltinError>)
    ensures
        r == Err::<bool, BuiltinError>(BuiltinError::NotImplemented),
{
    Err(BuiltinError::NotImplemented)
}

/// Returns AST objects for a given GraphQL query and schema after
/// validating the query against the schema.
pub fn parse(query: String, schema: String) -> (r: Result<(Json, Json), BuiltinError>)
    ensures
        r == Err::<(Json, Json), BuiltinError>(BuiltinError::NotImplemented),
{
    Err(BuiltinError::NotImplemented)
}

/// Returns a boolean indicating success or failure alongside the parsed
/// ASTs for a given GraphQL query and schema.
pub fn parse_and_verify(query: String, schema: String) -> (r: Result<(bool, Json, Json), BuiltinError>)
    ensures
        r == Err::<(bool, Json, Json), BuiltinError>(BuiltinError::NotImplemented),
{
    Err(BuiltinError::NotImplemented)
}

/// Returns an AST object for a GraphQL query.
pub fn parse_query(query: String) -> (r: Result<Json, BuiltinError>)
    ensures
        r == Err::<Json, BuiltinError>(BuiltinError::NotImplemented),
{
    Err(BuiltinError::NotImplemented)
}

/// Returns an AST object for a GraphQL schema.
pub fn parse_schema(schema: String) -> (r: Result<Json, BuiltinError>)
    ensures
        r == Err::<Json, BuiltinError>(BuiltinError::NotImplemented),
{
    Err(BuiltinError::NotImplemented)
}

} // verus!
