//! The local time of day.
use vstd::prelude::*;
use crate::time_model::WallTime;

verus! {

/// Relies on chrono's `From<SystemTime> for DateTime<Local>`, applied to
/// `SystemTime::now()`, with `Timelike::hour`, `minute` and `second`: the
/// local time of day, whose hour is below 24 and whose minute and second are
/// below 60 (a leap second reads as second 59). The conversion also takes a
/// system time before 1970, where `Local::now` would panic.
#[verifier::external_body]
pub(crate) fn local_time_of_day() -> (r: WallTime)
    ensures
        r.wf(),
{
    let now = chrono::DateTime::<chrono::Local>::from(std::time::SystemTime::now());
    WallTime {
        hour: chrono::Timelike::hour(&now) as u64,
        minute: chrono::Timelike::minute(&now) as u64,
        second: chrono::Timelike::second(&now) as u64,
    }
}

} // verus!
