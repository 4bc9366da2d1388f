//! Paths under which the service is mounted.

use vstd::prelude::*;
use vstd::string::StringExecFns;

verus! {

/// Prefix shared by every endpoint of the service.
pub const API_PREFIX: &'static str = "/api/v1";

/// The full path of an endpoint: the prefix followed by the endpoint's own
/// path, neither of them altered.
pub fn path(endpoint: &str) -> (full: String)
    ensures
        full@ == API_PREFIX@ + endpoint@,
{
    let mut full = API_PREFIX.to_owned();
    full.append(endpoint);
    full
}

} // verus!
