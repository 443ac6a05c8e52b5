//! Wall-clock snapshots delivered to the clock on every tick.

use vstd::prelude::*;

verus! {

/// A wall-clock time of day: hour, minute, second. An immutable snapshot,
/// replaced wholesale on every tick.
#[derive(Clone, Copy, Debug, PartialEq, Eq, Structural)]
pub struct ClockTime {
    pub hour: u8,
    pub minute: u8,
    pub second: u8,
}

impl ClockTime {
    /// Hours run 0..24 on a 24-hour clock; minutes and seconds run 0..60.
    pub open spec fn wf(self) -> bool {
        self.hour < 24 && self.minute < 60 && self.second < 60
    }

    /// Runtime check of well-formedness, for callers whose times come from
    /// outside the core.
    pub fn is_wf(&self) -> (b: bool)
        ensures
            b == self.wf(),
    {
        self.hour < 24 && self.minute < 60 && self.second < 60
    }
}

/// Relies on chrono's `Local::now` and the `Timelike` accessors of
/// `NaiveTime`: `hour` returns 0 to 23, `minute` and `second` return 0 to 59
/// (never 60, even across a leap second). The value read from the platform
/// clock differs from call to call; only well-formedness holds of every
/// outcome.
#[verifier::external_body]
pub(crate) fn current_clock_time() -> (t: ClockTime)
    ensures
        t.wf(),
{
    let now = chrono::Local::now().naive_local().time();
    ClockTime {
        hour: chrono::Timelike::hour(&now) as u8,
        minute: chrono::Timelike::minute(&now) as u8,
        second: chrono::Timelike::second(&now) as u8,
    }
}

} // verus!
