use vstd::prelude::*;

verus! {

/// Nominal frame period in nanoseconds: a sixtieth of a second, truncated.
pub const FRAME_NANOS: u64 = 1_000_000_000 / 60;

/// What the clock does after a frame: how long to sleep, and whether the frame
/// took longer than its period.
#[derive(Debug, Clone, Copy, PartialEq, Eq, Structural)]
pub struct Pacing {
    pub sleep_nanos: u64,
    pub overrun: bool,
}

/// Paces a frame that took `elapsed_nanos` against a period of `period_nanos`:
/// the sleep is what is left of the period, and zero once the period is used up.
pub fn pace(period_nanos: u64, elapsed_nanos: u64) -> (p: Pacing)
    ensures
        p.sleep_nanos == if elapsed_nanos >= period_nanos {
            0
        } else {
            period_nanos - elapsed_nanos
        },
        p.overrun == (elapsed_nanos > period_nanos),
{
    let sleep_nanos = if elapsed_nanos >= period_nanos {
        0
    } else {
        period_nanos - elapsed_nanos
    };
    Pacing { sleep_nanos, overrun: elapsed_nanos > period_nanos }
}

} // verus!
