//! Trigger arithmetic for the scheduler: a pass runs once per minute at a
//! fixed sub-minute offset.

use vstd::prelude::*;

verus! {

/// Seconds past the start of each minute at which a pass is triggered.
pub const TRIGGER_OFFSET_SECS: u64 = 30;

/// The next trigger instant, given the current wall-clock time in seconds:
/// truncate to the start of the next whole minute, then advance the second
/// field to the fixed offset. The result is always strictly in the future,
/// even when `now` itself lies exactly on a trigger instant.
pub fn next_trigger_secs(now: u64) -> (r: u64)
    requires
        now + 120 <= u64::MAX,
    ensures
        r == (now / 60) * 60 + 60 + TRIGGER_OFFSET_SECS,
        r % 60 == TRIGGER_OFFSET_SECS,
        r / 60 == now / 60 + 1,
        now < r <= now + 120,
{
    let base = now / 60 * 60;
    proof {
        assert(now / 60 * 60 <= now < now / 60 * 60 + 60) by (nonlinear_arith);
        assert((now / 60 * 60 + 90) % 60 == 30) by (nonlinear_arith);
        assert((now / 60 * 60 + 90) / 60 == now / 60 + 1) by (nonlinear_arith);
    }
    base + 60 + TRIGGER_OFFSET_SECS
}

} // verus!
