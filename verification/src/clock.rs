//! The clock and the source of fresh identifiers.
//!
//! Two calls of any of these may differ, and the functions that use them are
//! verified for every value that may come back. The calls unwind where the
//! machine fails them: a system clock that stands before 1970, a system that
//! gives no random bytes.

use vstd::prelude::*;
use chrono::Datelike;

verus! {

/// `chrono::Utc::now`, rendered by `DateTime::to_rfc3339`: the current time
/// in UTC as an RFC 3339 timestamp.
#[verifier::external_body]
pub(crate) fn now_rfc3339() -> (stamp: String) {
    chrono::Utc::now().to_rfc3339()
}

/// `chrono::Utc::now`, read by `Datelike::year`, `month` and `day`: the
/// current date in UTC. The month is counted from 1 to 12 and the day of the
/// month from 1 to 31; which year, month and day it is, is not promised.
#[verifier::external_body]
pub(crate) fn today_utc() -> (date: (i32, u32, u32))
    ensures
        1 <= date.1 <= 12,
        1 <= date.2 <= 31,
{
    let now = chrono::Utc::now();
    (now.year(), now.month(), now.day())
}

/// `uuid::Uuid::new_v4`, rendered by its `Display`: a random identifier.
#[verifier::external_body]
pub(crate) fn fresh_uuid() -> (id: String) {
    uuid::Uuid::new_v4().to_string()
}

} // verus!
