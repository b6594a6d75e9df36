//! The one place the library reads the system clock.

use vstd::prelude::*;

verus! {

/// Relies on chrono's Utc::now: the current time in whole seconds since
/// the Unix epoch; nothing is promised of the value.
#[verifier::external_body]
pub fn now_seconds() -> i64 {
    chrono::Utc::now().timestamp()
}

/// Relies on chrono's Utc::now and to_rfc3339: the current time written
/// in RFC 3339 form, which is never empty; nothing else is promised of
/// the value.
#[verifier::external_body]
pub fn now_rfc3339() -> (r: String)
    ensures
        r@.len() > 0,
{
    chrono::Utc::now().to_rfc3339()
}

} // verus!
