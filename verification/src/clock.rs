//! Reading the current UTC wall-clock time through chrono.

use crate::timestamp::Timestamp;
use chrono::Datelike;
use chrono::Timelike;
use vstd::prelude::*;

verus! {

/// Relies on std::time::SystemTime::now and duration_since, on
/// chrono::DateTime::from_timestamp, and on the chrono::Datelike /
/// chrono::Timelike accessors year, month, day, hour, minute and second.
/// `None` comes from a clock before the Unix epoch or beyond chrono's
/// representable range; otherwise month ranges over 1 to 12, day over 1 to
/// 31, hour over 0 to 23, minute and second over 0 to 59, and the year
/// carries no documented bound.
#[verifier::external_body]
fn now_parts() -> (r: Option<(i32, u32, u32, u32, u32, u32)>)
    ensures
        r matches Some(p) ==> {
            &&& 1 <= p.1 <= 12
            &&& 1 <= p.2 <= 31
            &&& p.3 <= 23
            &&& p.4 <= 59
            &&& p.5 <= 59
        },
{
    let since_epoch = match std::time::SystemTime::now().duration_since(std::time::UNIX_EPOCH) {
        Ok(d) => d,
        Err(_) => return None,
    };
    let secs = since_epoch.as_secs() as i64;
    let now = match chrono::DateTime::from_timestamp(secs, since_epoch.subsec_nanos()) {
        Some(dt) => dt,
        None => return None,
    };
    Some((now.year(), now.month(), now.day(), now.hour(), now.minute(), now.second()))
}

/// Captures the current UTC time as a timestamp. The clock decides the
/// value, so only well-formedness is promised; `None` arises from a clock
/// that cannot be read as a four-digit-year UTC time.
pub fn now_timestamp() -> (r: Option<Timestamp>)
    ensures
        r matches Some(t) ==> t.wf(),
{
    match now_parts() {
        Some((year, month, day, hour, minute, second)) => Timestamp::from_parts(
            year,
            month,
            day,
            hour,
            minute,
            second,
        ),
        None => None,
    }
}

} // verus!
