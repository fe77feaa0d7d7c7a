use vstd::prelude::*;
use chrono::Timelike;
use crate::render::{TimeOfDay, clock_commands, time_commands};
use crate::segment::DigitOrientation;

verus! {

/// Nanoseconds in one second.
pub const NANOS_PER_SECOND: u32 = 1_000_000_000;

/// A reading of the local wall clock.
#[derive(Clone, Copy, Debug, PartialEq, Eq, Structural)]
pub struct LocalTime {
    pub time: TimeOfDay,
    /// Nanoseconds since the whole second; 1e9 and above during a leap
    /// second.
    pub nanosecond: u32,
}

impl LocalTime {
    /// A valid time of day, and a sub-second part below two seconds.
    pub open spec fn wf(&self) -> bool {
        self.time.wf() && self.nanosecond < 2 * NANOS_PER_SECOND
    }
}

/// Relies on chrono::Local::now and chrono's Timelike getters on the
/// result: the hour is below 24, minute and second below 60, and the
/// nanosecond below 2_000_000_000 (a leap second reads 1e9 and up).
#[verifier::external_body]
fn read_local_clock() -> (r: LocalTime)
    ensures
        r.wf(),
{
    let now = chrono::Local::now();
    LocalTime {
        time: TimeOfDay { hour: now.hour() as u8, minute: now.minute() as u8, second: now.second() as u8 },
        nanosecond: now.nanosecond(),
    }
}

/// The current local time of day.
pub fn current_time() -> (r: TimeOfDay)
    ensures
        r.wf(),
{
    read_local_clock().time
}

/// How long to wait, in nanoseconds, from a clock reading with the given
/// sub-second part until the next whole second begins.
pub fn nanos_to_next_second(nanosecond: u32) -> (r: u32)
    ensures
        r == NANOS_PER_SECOND - nanosecond % NANOS_PER_SECOND,
        0 < r <= NANOS_PER_SECOND,
{
    NANOS_PER_SECOND - nanosecond % NANOS_PER_SECOND
}

/// How long to wait, in nanoseconds, from now until the next whole second
/// of the local clock.
pub fn wait_for_next_second() -> (r: u32)
    ensures
        0 < r <= NANOS_PER_SECOND,
{
    nanos_to_next_second(read_local_clock().nanosecond)
}

/// The commands that show the current local time on a module mounted
/// with `orientation`.
pub fn disp_time(orientation: DigitOrientation) -> (r: Vec<(u8, u8)>)
    ensures
        exists|t: TimeOfDay| t.wf() && r@ == clock_commands(t, orientation),
{
    let now = current_time();
    time_commands(&now, orientation)
}

} // verus!
