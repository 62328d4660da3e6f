//! The task randomizer: periodic resampling of the available-task count.
//!
//! The authority feeds in an externally supplied entropy value (such as a
//! block height); the count is resampled uniformly — as uniformly as the
//! entropy source allows — inside the configured band by a modulo-range
//! construction.  A cooldown keeps refreshes at least ten time units apart.

use vstd::prelude::*;
use crate::state::ErrorCode;
use crate::state::Identity;
use crate::state::ProgramState;

verus! {

/// The resampled task count: the bottom of the band plus the entropy value
/// reduced modulo the band width.  With a single-point band the width is one
/// and the result is the band itself.
pub open spec fn spec_randomized_tasks(min_tasks: u8, max_tasks: u8, entropy: u64) -> int {
    min_tasks + (entropy as int) % (max_tasks - min_tasks + 1)
}

/// Draws a new available-task count from the band `[min_tasks, max_tasks]`
/// using the supplied entropy.
pub fn randomize_available_tasks(min_tasks: u8, max_tasks: u8, entropy: u64) -> (r: u8)
    requires
        min_tasks <= max_tasks,
    ensures
        r == spec_randomized_tasks(min_tasks, max_tasks, entropy),
        min_tasks <= r <= max_tasks,
{
    let range: u64 = (max_tasks - min_tasks) as u64 + 1;
    let offset: u64 = entropy % range;
    min_tasks + (offset as u8)
}

/// Everything one call of [`randomize_tasks`] does, as a relation between
/// the state before (`s0`) and after (`s1`) and the result `r`.  The
/// authority gate comes first, then the refresh cooldown; a failure of
/// either leaves the state untouched.  On success both the available-task
/// count and the refresh timestamp change together.
pub open spec fn refresh_transition(
    s0: ProgramState,
    caller: Identity,
    now: i64,
    entropy: u64,
    s1: ProgramState,
    r: Result<(), ErrorCode>,
) -> bool {
    if caller != s0.authority {
        r == Err::<(), ErrorCode>(ErrorCode::Unauthorized) && s1 == s0
    } else if now - s0.tasks_last_updated < 10 {
        r == Err::<(), ErrorCode>(ErrorCode::CooldownRngTasks) && s1 == s0
    } else {
        &&& r == Ok::<(), ErrorCode>(())
        &&& s1 == (ProgramState {
            available_tasks: spec_randomized_tasks(s0.min_tasks, s0.max_tasks, entropy) as u8,
            tasks_last_updated: now,
            ..s0
        })
    }
}

/// Resamples the available-task count.  Only the authority may call this,
/// and at most once every ten time units; on success the count is drawn
/// from the configured band and the refresh timestamp is set to `now`.
pub fn randomize_tasks(state: &mut ProgramState, caller: Identity, now: i64, entropy: u64) -> (r:
    Result<(), ErrorCode>)
    requires
        old(state).wf(),
        now >= 0,
    ensures
        final(state).wf(),
        refresh_transition(*old(state), caller, now, entropy, *final(state), r),
{
    if state.authority != caller {
        return Err(ErrorCode::Unauthorized);
    }

    if now - state.tasks_last_updated < 10 {
        return Err(ErrorCode::CooldownRngTasks);
    }

    state.tasks_last_updated = now;
    state.available_tasks = randomize_available_tasks(state.min_tasks, state.max_tasks, entropy);
    Ok(())
}

} // verus!
