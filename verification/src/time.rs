//! Instants. The crate carries every instant as an epoch second; the one
//! thing it cannot compute itself — reading a textual timestamp — is
//! delegated to the chrono crate and named, not restated.

use vstd::prelude::*;

verus! {

/// The epoch second a well-formed timestamp string denotes, or nothing for
/// any other string. The result depends on the characters alone; nothing
/// further is assumed about it.
pub uninterp spec fn rfc3339_seconds(s: Seq<char>) -> Option<i64>;

/// Relies on chrono's `DateTime::parse_from_rfc3339` to read the timestamp
/// and on `DateTime::timestamp` to turn it into an epoch second; both are
/// pure functions of the string.
#[verifier::external_body]
pub(crate) fn parse_rfc3339_seconds(s: &str) -> (r: Option<i64>)
    ensures
        r == rfc3339_seconds(s@),
{
    match chrono::DateTime::parse_from_rfc3339(s) {
        Ok(t) => Some(t.timestamp()),
        Err(_) => None,
    }
}

} // verus!
