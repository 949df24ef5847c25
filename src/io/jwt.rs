//! Builtins related to JWT encoding, decoding and verification. They are
//! declared and have no implementation: each returns
//! [`BuiltinError::NotImplemented`].

use vstd::prelude::*;
use crate::error::BuiltinError;
use crate::json::Json;

verus! {

/// Decodes a JSON Web Token and outputs it as an object.
pub fn decode(jwt: String) -> (r: Result<(Json, Json, String), BuiltinError>)
    ensures
        r == Err::<(Json, Json, String), BuiltinError>(BuiltinError::NotImplemented),
{
    Err(BuiltinError::NotImplemented)
}

/// Verifies a JWT signature under parameterized constraints and decodes
/// the claims if it is valid.
pub fn decode_verify(jwt: String, constraints: Vec<(String, Json)>) -> (r: Result<(bool, Json, Json), BuiltinError>)
    ensures
        r == Err::<(bool, Json, Json), BuiltinError>(BuiltinError::NotImplemented),
{
    Err(BuiltinError::NotImplemented)
}

/// Encodes and optionally signs a JSON Web Token. Inputs are taken as
/// objects, not encoded strings (see `io.jwt.encode_sign_raw`).
pub fn encode_sign(headers: Json, payload: Json, key: Json) -> (r: Result<(bool, Json, Json), BuiltinError>)
    ensures
        r == Err::<(bool, Json, Json), BuiltinError>(BuiltinError::NotImplemented),
{
    Err(BuiltinError::NotImplemented)
}

/// Encodes and optionally signs a JSON Web Token.
pub fn encode_sign_raw(headers: String, payload: String, key: String) -> (r: Result<String, BuiltinError>)
    ensures
        r == Err::<String, BuiltinError>(BuiltinError::NotImplemented),
{
    Err(BuiltinError::NotImplemented)
}

/// Verifies if a ES256 JWT signature is valid.
pub fn verify_es256(jwt: String, certificate: String) -> (r: Result<bool, BuiltinError>)
    ensures
        r == Err::<bool, BuiltinError>(BuiltinError::NotImplemented),
{
    Err(BuiltinError::NotImplemented)
}

/// Verifies if a ES384 JWT signature is valid.
pub fn verify_es384(jwt: String, certificate: String) -> (r: Result<bool, BuiltinError>)
    ensures
        r == Err::<bool, BuiltinError>(BuiltinError::NotImplemented),
{
    Err(BuiltinError::NotImplemented)
}

/// Verifies if a ES512 JWT signature is valid.
pub fn verify_es512(jwt: String, certificate: String) -> (r: Result<bool, BuiltinError>)
    ensures
        r == Err::<bool, BuiltinError>(BuiltinError::NotImplemented),
{
    Err(BuiltinError::NotImplemented)
}

/// Verifies if a HS256 (secret) JWT signature is valid.
pub fn verify_hs256(jwt: String, secret: String) -> (r: Result<bool, BuiltinError>)
    ensures
        r == Err::<bool, BuiltinError>(BuiltinError::NotImplemented),
{
    Err(BuiltinError::NotImplemented)
}

/// Verifies if a HS384 (secret) JWT signature is valid.
pub fn verify_hs384(jwt: String, secret: String) -> (r: Result<bool, BuiltinError>)
    ensures
        r == Err::<bool, BuiltinError>(BuiltinError::NotImplemented),
{
    Err(BuiltinError::NotImplemented)
}

/// Verifies if a HS512 (secret) JWT signature is valid.
pub fn verify_hs512(jwt: String, secret: String) -> (r: Result<bool, BuiltinError>)
    ensures
        r == Err::<bool, BuiltinError>(BuiltinError::NotImplemented),
{
    Err(BuiltinError::NotImplemented)
}

/// Verifies if a PS256 JWT signature is valid.
pub fn verify_ps256(jwt: String, certificate: String) -> (r: Result<bool, BuiltinError>)
    ensures
        r == Err::<bool, BuiltinError>(BuiltinError::NotImplemented),
{
    Err(BuiltinError::NotImplemented)
}

/// Verifies if a PS384 JWT signature is valid.
pub fn verify_ps384(jwt: String, certificate: String) -> (r: Result<bool, BuiltinError>)
    ensures
        r == Err::<bool, BuiltinError>(BuiltinError::NotImplemented),
{
    Err(BuiltinError::NotImplemented)
}

/// Verifies if a PS512 JWT signature is valid.
pub fn verify_ps512(jwt: String, certificate: String) -> (r: Result<bool, BuiltinError>)
    ensures
        r == Err::<bool, BuiltinError>(BuiltinError::NotImplemented),
{
    Err(BuiltinError::NotImplemented)
}

/// Verifies if a RS256 JWT signature is valid.
pub fn verify_rs256(jwt: String, certificate: String) -> (r: Result<bool, BuiltinError>)
    ensures
        r == Err::<bool, BuiltinError>(BuiltinError::NotImplemented),
{
    Err(BuiltinError::NotImplemented)
}

/// Verifies if a RS384 JWT signature is valid.
pub fn verify_rs384(jwt: String, certificate: String) -> (r: Result<bool, BuiltinError>)
    ensures
        r == Err::<bool, BuiltinError>(BuiltinError::NotImplemented),
{
    Err(BuiltinError::NotImplemented)
}

/// Verifies if a RS512 JWT signature is valid.
pub fn verify_rs512(jwt: String, certificate: String) -> (r: Result<bool, BuiltinError>)
    ensures
        r == Err::<bool, BuiltinError>(BuiltinError::NotImplemented),
{
    Err(BuiltinError::NotImplemented)
}

} // verus!
