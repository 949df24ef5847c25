//! Builtins related to semver version validation and comparison.

use vstd::prelude::*;
use crate::error::BuiltinError;

verus! {

/// The text is a valid SemVer version.
pub uninterp spec fn semver_valid(s: Seq<char>) -> bool;

/// How the version `a` orders against the version `b`: -1, 0 or 1.
pub uninterp spec fn semver_order(a: Seq<char>, b: Seq<char>) -> i8;

/// Relies on `semver::Version::parse`: whether the text parses as a version.
#[verifier::external_body]
fn parses_as_version(s: &str) -> (r: bool)
    ensures
        r == semver_valid(s@),
{
    ::semver::Version::parse(s).is_ok()
}

/// Relies on `semver::Version::parse` and `Ord for semver::Version`: the
/// precedence of two valid versions, as -1, 0 or 1. The order is total, so a
/// version equals itself and swapping the versions negates the result.
#[verifier::external_body]
fn version_order(a: &str, b: &str) -> (r: i8)
    requires
        semver_valid(a@),
        semver_valid(b@),
    ensures
        r == semver_order(a@, b@),
        -1 <= r <= 1,
        r == -semver_order(b@, a@),
        a@ == b@ ==> r == 0,
{
    let a = ::semver::Version::parse(a).unwrap();
    let b = ::semver::Version::parse(b).unwrap();
    match a.cmp(&b) {
        std::cmp::Ordering::Less => -1,
        std::cmp::Ordering::Equal => 0,
        std::cmp::Ordering::Greater => 1,
    }
}

/// Compares valid SemVer formatted version strings.
pub fn compare(a: String, b: String) -> (r: Result<i8, BuiltinError>)
    ensures
        semver_valid(a@) && semver_valid(b@) ==> r == Ok::<i8, BuiltinError>(semver_order(a@, b@)),
        r matches Ok(c) ==> -1 <= c <= 1 && c == -semver_order(b@, a@) && (a@ == b@ ==> c == 0),
        !(semver_valid(a@) && semver_valid(b@)) ==> r == Err::<i8, BuiltinError>(BuiltinError::Parse),
{
    if !parses_as_version(a.as_str()) || !parses_as_version(b.as_str()) {
        return Err(BuiltinError::Parse);
    }
    Ok(version_order(a.as_str(), b.as_str()))
}

/// Validates that the input is a valid SemVer string.
pub fn is_valid(vsn: String) -> (r: bool)
    ensures
        r == semver_valid(vsn@),
{
    parses_as_version(vsn.as_str())
}

} // verus!
