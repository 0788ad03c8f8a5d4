//! A UTC wall-clock reading held as plain field values.

use chrono::Datelike;
use chrono::Timelike;
use vstd::prelude::*;

verus! {

/// A calendar time in UTC, broken into plain numeric fields.
#[derive(Clone, Copy, Debug)]
pub struct Timestamp {
    pub hour: u32,
    pub minute: u32,
    pub second: u32,
    pub day: u32,
    pub month: u32,
    pub year: i32,
}

impl Timestamp {
    /// Field ranges of a calendar time.
    pub open spec fn wf(self) -> bool {
        &&& self.hour < 24
        &&& self.minute < 60
        &&& self.second < 60
        &&& 1 <= self.day <= 31
        &&& 1 <= self.month <= 12
    }
}

/// Relies on std's `SystemTime::now` and `duration_since` for the seconds
/// since the Unix epoch, and on chrono's `DateTime::from_timestamp` with its
/// `Timelike`/`Datelike` accessors to split them into calendar fields:
/// `hour` ranges over 0..=23, `minute` and `second` over 0..=59, `day` over
/// 1..=31 and `month` over 1..=12. A clock set before the epoch or beyond
/// chrono's representable range falls back to the epoch reading, so the call
/// returns on every machine state. Nothing more is promised of a clock
/// reading.
#[verifier::external_body]
pub fn now_utc() -> (t: Timestamp)
    ensures
        t.wf(),
{
    let secs = match std::time::SystemTime::now().duration_since(std::time::UNIX_EPOCH) {
        Ok(d) => d.as_secs() as i64,
        Err(_) => 0,
    };
    let now = chrono::DateTime::from_timestamp(secs, 0).unwrap_or(
        chrono::DateTime::<chrono::Utc>::UNIX_EPOCH,
    );
    Timestamp {
        hour: now.hour(),
        minute: now.minute(),
        second: now.second(),
        day: now.day(),
        month: now.month(),
        year: now.year(),
    }
}

} // verus!
