//! The current time and fresh run identifiers.
use vstd::prelude::*;
use chrono::{Datelike, Timelike};
use crate::model::UtcTime;

verus! {

/// The current moment from the system clock (`chrono::Utc::now`), taken apart
/// into its calendar fields, each within the range chrono documents for it.
#[verifier::external_body]
pub(crate) fn now_utc() -> (r: UtcTime)
    ensures
        r.wf(),
{
    let t = chrono::Utc::now();
    UtcTime {
        year: t.year(),
        month: t.month(),
        day: t.day(),
        hour: t.hour(),
        minute: t.minute(),
        second: t.second(),
        nanosecond: t.nanosecond(),
        weekday: t.weekday().num_days_from_sunday(),
    }
}

/// A fresh random identifier (`uuid::Uuid::new_v4`), as its 128-bit value: the
/// version field holds 4 and the variant field the RFC 4122 pattern `10`.
#[verifier::external_body]
pub(crate) fn new_run_id() -> (r: u128)
    ensures
        (r >> 76u128) & 0xfu128 == 4u128,
        (r >> 62u128) & 0x3u128 == 2u128,
{
    uuid::Uuid::new_v4().as_u128()
}

} // verus!
