//! Builtins related to base64 encoding.

use vstd::prelude::*;
use base64::Engine;

verus! {

/// The URL-safe base64 text of the UTF-8 bytes of `s`, without padding.
pub uninterp spec fn base64url_of(s: Seq<char>) -> Seq<char>;

/// Relies on `base64`'s `URL_SAFE_NO_PAD` engine: the URL-safe alphabet and
/// no padding; the empty input encodes to the empty text.
#[verifier::external_body]
fn encode_url_safe_no_pad(x: &str) -> (r: String)
    ensures
        r@ == base64url_of(x@),
        x@.len() == 0 ==> r@.len() == 0,
{
    base64::engine::general_purpose::URL_SAFE_NO_PAD.encode(x)
}

/// Serializes the input string into base64url encoding without padding.
pub fn encode_no_pad(x: String) -> (r: String)
    ensures
        r@ == base64url_of(x@),
{
    encode_url_safe_no_pad(x.as_str())
}

} // verus!
