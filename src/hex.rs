//! Builtins that encode text to hexadecimal and back.

use vstd::prelude::*;
use vstd::utf8::{decode_utf8, encode_utf8, valid_utf8};
use crate::crypto::{hex_encode, hex_text};
use crate::error::BuiltinError;

verus! {

/// The bytes that a hexadecimal text stands for, where it is one.
pub uninterp spec fn hex_bytes(s: Seq<char>) -> Option<Seq<u8>>;

/// Relies on `hex::decode`: two hexadecimal digits per byte, of either case;
/// `None` where the text has an odd length or another character.
#[verifier::external_body]
fn hex_decode(s: &str) -> (r: Option<Vec<u8>>)
    ensures
        r matches Some(b) ==> hex_bytes(s@) == Some(b@),
        r is None ==> hex_bytes(s@) is None,
{
    hex::decode(s).ok()
}

/// Relies on `String::from_utf8`: the text that the bytes encode, which
/// fails exactly where they are not UTF-8.
#[verifier::external_body]
fn utf8_string(b: Vec<u8>) -> (r: Option<String>)
    ensures
        r is Some <==> valid_utf8(b@),
        r matches Some(s) ==> s@ == decode_utf8(b@),
{
    String::from_utf8(b).ok()
}

/// Serializes the input string using hex-encoding.
pub fn encode(x: String) -> (r: String)
    ensures
        r@ == hex_text(encode_utf8(x@)),
{
    hex_encode(x.as_str().as_bytes())
}

/// Deserializes the hex-encoded input string.
pub fn decode(x: String) -> (r: Result<String, BuiltinError>)
    ensures
        match hex_bytes(x@) {
            Some(b) => if valid_utf8(b) {
                r is Ok && r.unwrap()@ == decode_utf8(b)
            } else {
                r == Err::<String, BuiltinError>(BuiltinError::Parse)
            },
            None => r == Err::<String, BuiltinError>(BuiltinError::Parse),
        },
{
    match hex_decode(x.as_str()) {
        Some(b) => match utf8_string(b) {
            Some(s) => Ok(s),
            None => Err(BuiltinError::Parse),
        },
        None => Err(BuiltinError::Parse),
    }
}

} // verus!
