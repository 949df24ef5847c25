//! Builtins that parse YAML documents.

use vstd::prelude::*;

verus! {

/// The text is a valid YAML document.
pub uninterp spec fn yaml_valid(s: Seq<char>) -> bool;

/// Relies on `serde_yaml::from_str` into a `serde_yaml::Value`: whether the
/// text parses as a document.
#[verifier::external_body]
fn parses_as_yaml(x: &str) -> (r: bool)
    ensures
        r == yaml_valid(x@),
{
    serde_yaml::from_str::<serde_yaml::Value>(x).is_ok()
}

/// Verifies the input string is a valid YAML document.
pub fn is_valid(x: String) -> (r: bool)
    ensures
        r == yaml_valid(x@),
{
    parses_as_yaml(x.as_str())
}

} // verus!
