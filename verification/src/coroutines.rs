//! The decision kernel of the cooperative-task extension: tasks suspend with
//! a "wait N milliseconds" instruction and a scheduler polls them once per
//! tick, resuming those whose wait has elapsed. Only the scheduling decisions
//! live here; running the suspended tasks themselves is host-side work.

use vstd::prelude::*;

verus! {

/// What a suspended task yields when polled: an instruction to wait the given
/// number of milliseconds before the next resumption.
pub enum CoroAction {
    Wait(u64),
}

/// The wake-up time a yielded action fixes: the current time plus the wait
/// converted to nanoseconds, stuck at the top of the range instead of
/// wrapping.
pub open spec fn spec_next_wake(now: u64, action: CoroAction) -> u64 {
    match action {
        CoroAction::Wait(ms) => {
            if now + ms * 1000000 <= u64::MAX {
                (now + ms * 1000000) as u64
            } else {
                u64::MAX
            }
        },
    }
}

/// Whether a suspended task is due at `now`: its wake-up time has passed.
pub fn should_resume(wait_until: u64, now: u64) -> (r: bool)
    ensures
        r == (wait_until <= now),
{
    wait_until <= now
}

/// Computes the wake-up time fixed by a yielded action.
pub fn next_wake(now: u64, action: &CoroAction) -> (r: u64)
    ensures
        r == spec_next_wake(now, *action),
{
    match action {
        CoroAction::Wait(ms) => {
            match ms.checked_mul(1000000) {
                Some(ns) => now.saturating_add(ns),
                None => {
                    proof {
                        assert(now + *ms * 1000000 > u64::MAX);
                    }
                    u64::MAX
                },
            }
        },
    }
}

} // verus!
