use vstd::prelude::*;

verus! {

/// Nanoseconds in one second.
pub const NANOS_PER_SECOND: u64 = 1_000_000_000;

/// Nanoseconds between two frames, and between two timer ticks (60 Hz).
pub const FRAME_NANOS: u64 = 16_666_667;

/// Instructions per second when none is configured.
pub const DEFAULT_FREQUENCY: u32 = 700;

/// What the cycle scheduler does after one executed cycle.
#[derive(Debug, Clone, Copy, PartialEq, Eq, Structural)]
pub struct CyclePlan {
    /// Whether to present the framebuffer now.
    pub present: bool,
    /// How long to sleep before the next cycle.
    pub sleep_nanos: u64,
}

/// The time budget of one cycle at `frequency` instructions per second.
pub fn cycle_budget_nanos(frequency: u32) -> (r: u64)
    requires
        frequency > 0,
    ensures
        r == NANOS_PER_SECOND as int / frequency as int,
{
    NANOS_PER_SECOND / frequency as u64
}

/// Decides what follows a cycle that took `cycle_nanos` of a budget of
/// `budget_nanos`, `since_present_nanos` after the last presentation: the
/// frame is presented once a 60 Hz period has passed, and the scheduler
/// sleeps for what is left of the budget, if anything.
pub fn plan_cycle(budget_nanos: u64, cycle_nanos: u64, since_present_nanos: u64) -> (r: CyclePlan)
    ensures
        r.present == (since_present_nanos >= FRAME_NANOS),
        r.sleep_nanos == if cycle_nanos < budget_nanos {
            budget_nanos - cycle_nanos
        } else {
            0
        },
{
    let sleep_nanos = if cycle_nanos < budget_nanos {
        budget_nanos - cycle_nanos
    } else {
        0
    };
    CyclePlan { present: since_present_nanos >= FRAME_NANOS, sleep_nanos }
}

/// Number of whole 60 Hz timer ticks in `elapsed_nanos`, and the time left
/// over that counts toward the next one.
pub fn ticks_due(elapsed_nanos: u64) -> (r: (u64, u64))
    ensures
        r.0 == elapsed_nanos / FRAME_NANOS,
        r.1 == elapsed_nanos % FRAME_NANOS,
        r.0 * FRAME_NANOS + r.1 == elapsed_nanos,
{
    let ticks = elapsed_nanos / FRAME_NANOS;
    let rest = elapsed_nanos % FRAME_NANOS;
    proof {
        vstd::arithmetic::div_mod::lemma_fundamental_div_mod(
            elapsed_nanos as int,
            FRAME_NANOS as int,
        );
    }
    (ticks, rest)
}

} // verus!
