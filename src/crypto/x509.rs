//! Builtins related to X509 certificates, keys and certificate requests. They
//! are declared and have no implementation: each returns
//! [`BuiltinError::NotImplemented`].

use vstd::prelude::*;
use crate::error::BuiltinError;
use crate::json::Json;

verus! {

/// Returns one or more certificates from the given string containing PEM or
/// base64 encoded DER certificates after verifying the supplied certificates
/// form a complete certificate chain back to a trusted root.
pub fn parse_and_verify_certificates(certs: String) -> (r: Result<(bool, Vec<Json>), BuiltinError>)
    ensures
        r == Err::<(bool, Vec<Json>), BuiltinError>(BuiltinError::NotImplemented),
{
    Err(BuiltinError::NotImplemented)
}

/// Returns a PKCS #10 certificate signing request from the given PEM-encoded
/// PKCS#10 certificate signing request.
pub fn parse_certificate_request(csr: String) -> (r: Result<Json, BuiltinError>)
    ensures
        r == Err::<Json, BuiltinError>(BuiltinError::NotImplemented),
{
    Err(BuiltinError::NotImplemented)
}

/// Returns one or more certificates from the given base64 encoded string
/// containing DER encoded certificates that have been concatenated.
pub fn parse_certificates(certs: String) -> (r: Result<Vec<Json>, BuiltinError>)
    ensures
        r == Err::<Vec<Json>, BuiltinError>(BuiltinError::NotImplemented),
{
    Err(BuiltinError::NotImplemented)
}

/// Returns a JWK for signing a JWT from the given PEM-encoded RSA private key.
pub fn parse_rsa_private_key(pem: String) -> (r: Result<Json, BuiltinError>)
    ensures
        r == Err::<Json, BuiltinError>(BuiltinError::NotImplemented),
{
    Err(BuiltinError::NotImplemented)
}

} // verus!
