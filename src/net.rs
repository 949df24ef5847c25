//! Builtins related to network operations and IP handling. They are
//! declared and have no implementation: each returns
//! [`BuiltinError::NotImplemented`].

use vstd::prelude::*;
use crate::error::BuiltinError;
use crate::json::Json;

verus! {

/// Checks if collections of cidrs or ips are contained within another
/// collection of cidrs and returns matches.
pub fn cidr_contains_matches(cidrs: Json, cidrs_or_ips: Json) -> (r: Result<Json, BuiltinError>)
    ensures
        r == Err::<Json, BuiltinError>(BuiltinError::NotImplemented),
{
    Err(BuiltinError::NotImplemented)
}

/// Expands CIDR to set of hosts (e.g., `net.cidr_expand("192.168.0.0/30")`
/// generates 4 hosts).
pub fn cidr_expand(cidr: String) -> (r: Result<Vec<String>, BuiltinError>)
    ensures
        r == Err::<Vec<String>, BuiltinError>(BuiltinError::NotImplemented),
{
    Err(BuiltinError::NotImplemented)
}

/// Merges IP addresses and subnets into the smallest possible list of CIDRs.
pub fn cidr_merge(addrs: Json) -> (r: Result<Vec<String>, BuiltinError>)
    ensures
        r == Err::<Vec<String>, BuiltinError>(BuiltinError::NotImplemented),
{
    Err(BuiltinError::NotImplemented)
}

/// Returns the set of IP addresses (both v4 and v6) that the passed-in `name`
/// resolves to.
pub fn lookup_ip_addr(name: String) -> (r: Result<Vec<String>, BuiltinError>)
    ensures
        r == Err::<Vec<String>, BuiltinError>(BuiltinError::NotImplemented),
{
    Err(BuiltinError::NotImplemented)
}

} // verus!
