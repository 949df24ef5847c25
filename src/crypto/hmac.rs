//! Builtins computing HMAC signatures.

use vstd::prelude::*;
use hmac::Mac;
use crate::crypto::{hex_encode, hex_text};
use crate::error::BuiltinError;

verus! {

/// The HMAC-MD5 of the UTF-8 text of `x` under the key `key`.
pub uninterp spec fn hmac_md5_of(x: Seq<char>, key: Seq<char>) -> Seq<u8>;

/// The HMAC-SHA1 of the UTF-8 text of `x` under the key `key`.
pub uninterp spec fn hmac_sha1_of(x: Seq<char>, key: Seq<char>) -> Seq<u8>;

/// The HMAC-SHA256 of the UTF-8 text of `x` under the key `key`.
pub uninterp spec fn hmac_sha256_of(x: Seq<char>, key: Seq<char>) -> Seq<u8>;

/// The HMAC-SHA512 of the UTF-8 text of `x` under the key `key`.
pub uninterp spec fn hmac_sha512_of(x: Seq<char>, key: Seq<char>) -> Seq<u8>;

/// Relies on `hmac::Hmac<md5::Md5>`: `new_from_slice` takes keys of any
/// length, and `finalize` gives the 16-byte code.
#[verifier::external_body]
fn hmac_md5_bytes(x: &str, key: &str) -> (r: Vec<u8>)
    ensures
        r@ == hmac_md5_of(x@, key@),
        r@.len() == 16,
{
    let mut mac = hmac::Hmac::<md5::Md5>::new_from_slice(key.as_bytes()).unwrap();
    mac.update(x.as_bytes());
    mac.finalize().into_bytes().to_vec()
}

/// Relies on `hmac::Hmac<sha1::Sha1>`: `new_from_slice` takes keys of any
/// length, and `finalize` gives the 20-byte code.
#[verifier::external_body]
fn hmac_sha1_bytes(x: &str, key: &str) -> (r: Vec<u8>)
    ensures
        r@ == hmac_sha1_of(x@, key@),
        r@.len() == 20,
{
    let mut mac = hmac::Hmac::<sha1::Sha1>::new_from_slice(key.as_bytes()).unwrap();
    mac.update(x.as_bytes());
    mac.finalize().into_bytes().to_vec()
}

/// Relies on `hmac::Hmac<sha2::Sha256>`: `new_from_slice` takes keys of any
/// length, and `finalize` gives the 32-byte code.
#[verifier::external_body]
fn hmac_sha256_bytes(x: &str, key: &str) -> (r: Vec<u8>)
    ensures
        r@ == hmac_sha256_of(x@, key@),
        r@.len() == 32,
{
    let mut mac = hmac::Hmac::<sha2::Sha256>::new_from_slice(key.as_bytes()).unwrap();
    mac.update(x.as_bytes());
    mac.finalize().into_bytes().to_vec()
}

/// Relies on `hmac::Hmac<sha2::Sha512>`: `new_from_slice` takes keys of any
/// length, and `finalize` gives the 64-byte code.
#[verifier::external_body]
fn hmac_sha512_bytes(x: &str, key: &str) -> (r: Vec<u8>)
    ensures
        r@ == hmac_sha512_of(x@, key@),
        r@.len() == 64,
{
    let mut mac = hmac::Hmac::<sha2::Sha512>::new_from_slice(key.as_bytes()).unwrap();
    mac.update(x.as_bytes());
    mac.finalize().into_bytes().to_vec()
}

/// Returns a string representing the MD5 HMAC of the input message using the
/// input key.
pub fn md5(x: String, key: String) -> (r: Result<String, BuiltinError>)
    ensures
        r is Ok,
        r.unwrap()@ == hex_text(hmac_md5_of(x@, key@)),
        r.unwrap()@.len() == 32,
{
    let d = hmac_md5_bytes(x.as_str(), key.as_str());
    let h = hex_encode(d.as_slice());
    proof {
        crate::crypto::lemma_hex_len(d@);
    }
    Ok(h)
}

/// Returns a string representing the SHA1 HMAC of the input message using
/// the input key.
pub fn sha1(x: String, key: String) -> (r: Result<String, BuiltinError>)
    ensures
        r is Ok,
        r.unwrap()@ == hex_text(hmac_sha1_of(x@, key@)),
        r.unwrap()@.len() == 40,
{
    let d = hmac_sha1_bytes(x.as_str(), key.as_str());
    let h = hex_encode(d.as_slice());
    proof {
        crate::crypto::lemma_hex_len(d@);
    }
    Ok(h)
}

/// Returns a string representing the SHA256 HMAC of the input message using
/// the input key.
pub fn sha256(x: String, key: String) -> (r: Result<String, BuiltinError>)
    ensures
        r is Ok,
        r.unwrap()@ == hex_text(hmac_sha256_of(x@, key@)),
        r.unwrap()@.len() == 64,
{
    let d = hmac_sha256_bytes(x.as_str(), key.as_str());
    let h = hex_encode(d.as_slice());
    proof {
        crate::crypto::lemma_hex_len(d@);
    }
    Ok(h)
}

/// Returns a string representing the SHA512 HMAC of the input message using
/// the input key.
pub fn sha512(x: String, key: String) -> (r: Result<String, BuiltinError>)
    ensures
        r is Ok,
        r.unwrap()@ == hex_text(hmac_sha512_of(x@, key@)),
        r.unwrap()@.len() == 128,
{
    let d = hmac_sha512_bytes(x.as_str(), key.as_str());
    let h = hex_encode(d.as_slice());
    proof {
        crate::crypto::lemma_hex_len(d@);
    }
    Ok(h)
}

} // verus!
