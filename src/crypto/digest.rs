//! Builtins computing message digests.

use vstd::prelude::*;
use sha2::Digest;
use crate::crypto::{hex_encode, hex_text};

verus! {

/// The MD5 digest of the UTF-8 text of `s`.
pub uninterp spec fn md5_digest(s: Seq<char>) -> Seq<u8>;

/// The SHA-1 digest of the UTF-8 text of `s`.
pub uninterp spec fn sha1_digest(s: Seq<char>) -> Seq<u8>;

/// The SHA-256 digest of the UTF-8 text of `s`.
pub uninterp spec fn sha256_digest(s: Seq<char>) -> Seq<u8>;

/// Relies on `md5::Md5` through `Digest::digest`: the 16-byte digest of the
/// string's bytes.
#[verifier::external_body]
fn md5_bytes(x: &str) -> (r: Vec<u8>)
    ensures
        r@ == md5_digest(x@),
        r@.len() == 16,
{
    md5::Md5::digest(x.as_bytes()).to_vec()
}

/// Relies on `sha1::Sha1` through `Digest::digest`: the 20-byte digest of the
/// string's bytes.
#[verifier::external_body]
fn sha1_bytes(x: &str) -> (r: Vec<u8>)
    ensures
        r@ == sha1_digest(x@),
        r@.len() == 20,
{
    sha1::Sha1::digest(x.as_bytes()).to_vec()
}

/// Relies on `sha2::Sha256` through `Digest::digest`: the 32-byte digest of
/// the string's bytes.
#[verifier::external_body]
fn sha256_bytes(x: &str) -> (r: Vec<u8>)
    ensures
        r@ == sha256_digest(x@),
        r@.len() == 32,
{
    sha2::Sha256::digest(x.as_bytes()).to_vec()
}

/// Returns a string representing the input string hashed with the MD5
/// function.
pub fn md5(x: String) -> (r: String)
    ensures
        r@ == hex_text(md5_digest(x@)),
        r@.len() == 32,
{
    let d = md5_bytes(x.as_str());
    let r = hex_encode(d.as_slice());
    proof {
        crate::crypto::lemma_hex_len(d@);
    }
    r
}

/// Returns a string representing the input string hashed with the SHA1
/// function.
pub fn sha1(x: String) -> (r: String)
    ensures
        r@ == hex_text(sha1_digest(x@)),
        r@.len() == 40,
{
    let d = sha1_bytes(x.as_str());
    let r = hex_encode(d.as_slice());
    proof {
        crate::crypto::lemma_hex_len(d@);
    }
    r
}

/// Returns a string representing the input string hashed with the SHA256
/// function.
pub fn sha256(x: String) -> (r: String)
    ensures
        r@ == hex_text(sha256_digest(x@)),
        r@.len() == 64,
{
    let d = sha256_bytes(x.as_str());
    let r = hex_encode(d.as_slice());
    proof {
        crate::crypto::lemma_hex_len(d@);
    }
    r
}

} // verus!
