//! The version compatibility gate: a document may declare the minimum
//! launcher version it needs, and resolution refuses to proceed when the
//! running version is lower.

use vstd::prelude::*;

verus! {

/// Whether the version written `a` is ordered strictly below the version
/// written `b`; `None` when either is not a valid version string.
pub uninterp spec fn semver_lt(a: Seq<char>, b: Seq<char>) -> Option<bool>;

/// Relies on `semver::Version::parse` and the total order of
/// `semver::Version`: both strings are parsed as semantic versions and
/// compared, an outcome that depends on the two strings alone.
#[verifier::external_body]
pub(crate) fn version_less_than(a: &str, b: &str) -> (r: Option<bool>)
    ensures
        r == semver_lt(a@, b@),
{
    match (semver::Version::parse(a), semver::Version::parse(b)) {
        (Ok(x), Ok(y)) => Some(x < y),
        _ => None,
    }
}

} // verus!
