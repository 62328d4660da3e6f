//! The claim pipeline: one user claim from validation to commit.
//!
//! A claim runs through its gates in a fixed order — authority, activity
//! resolution, task availability, per-user cooldown — then computes the
//! reward (base tier, supply/demand scaling, repetition penalty) and checks
//! it against the remaining balance.  Only when everything has passed does
//! any state change: the balance drops by the reward, the user's totals,
//! timestamps and history are updated, and the amount is handed back for the
//! host to transfer.  On any error both records are left exactly as they
//! were.

use vstd::prelude::*;
use crate::activity::ActivityType;
use crate::activity::get_base_reward;
use crate::history::User;
use crate::history::spec_rotated;
use crate::history::spec_streak_count;
use crate::history::update_repetition_count;
use crate::laws::lemma_base_reward_tiers;
use crate::laws::lemma_scale_bounds;
use crate::reward::apply_farming_penalty;
use crate::reward::calculate_dynamic_reward;
use crate::reward::spec_penalized;
use crate::reward::spec_scale;
use crate::state::ErrorCode;
use crate::state::Identity;
use crate::state::ProgramState;
use crate::state::is_task_available;

verus! {

/// The reward one claim of `activity` pays out, before the balance check:
/// the activity's base tier, scaled by supply and demand, then cut by the
/// repetition penalty the claim earns against the user's history.
pub open spec fn spec_claim_amount(
    state: ProgramState,
    user: User,
    activity: ActivityType,
    claimant_estimate: u64,
) -> int {
    spec_penalized(
        spec_scale(activity.spec_base_reward(), state.available_tasks, claimant_estimate),
        spec_streak_count(user.history.counts@, user.history.activities@, activity),
    )
}

/// Everything one call of [`claim_reward`] does, as a relation between the
/// records before (`s0`, `u0`) and after (`s1`, `u1`) and the result `r`.
/// The gates are tried in order and the first failure wins; every failure
/// leaves both records untouched.  On success the balance drops by exactly
/// the returned amount, the user's total grows by it, and both history
/// buffers rotate the claim in.
pub open spec fn claim_transition(
    s0: ProgramState,
    u0: User,
    caller: Identity,
    activity_code: u8,
    now: i64,
    claimant_estimate: u64,
    s1: ProgramState,
    u1: User,
    r: Result<u64, ErrorCode>,
) -> bool {
    if caller != s0.authority {
        r == Err::<u64, ErrorCode>(ErrorCode::Unauthorized) && s1 == s0 && u1 == u0
    } else {
        match ActivityType::spec_from_u8(activity_code) {
            None => r == Err::<u64, ErrorCode>(ErrorCode::InvalidActivity) && s1 == s0 && u1
                == u0,
            Some(activity) => if activity.spec_rank() > s0.available_tasks {
                r == Err::<u64, ErrorCode>(ErrorCode::TaskUnavailable) && s1 == s0 && u1 == u0
            } else if u0.last_claimed_at != 0 && now - u0.last_claimed_at < 5 {
                r == Err::<u64, ErrorCode>(ErrorCode::CooldownActive) && s1 == s0 && u1 == u0
            } else {
                let amount = spec_claim_amount(s0, u0, activity, claimant_estimate);
                if amount > s0.current_balance {
                    r == Err::<u64, ErrorCode>(ErrorCode::InsufficientBalance) && s1 == s0 && u1
                        == u0
                } else {
                    &&& r == Ok::<u64, ErrorCode>(amount as u64)
                    &&& s1 == (ProgramState {
                        current_balance: (s0.current_balance - amount) as u64,
                        ..s0
                    })
                    &&& u1.reward_total == u0.reward_total + amount
                    &&& u1.last_activity == Some(activity)
                    &&& u1.last_claimed_at == now
                    &&& u1.history.counts@ == spec_rotated(
                        u0.history.counts@,
                        spec_streak_count(u0.history.counts@, u0.history.activities@, activity),
                    )
                    &&& u1.history.activities@ == spec_rotated(
                        u0.history.activities@,
                        Some(activity),
                    )
                }
            },
        }
    }
}

/// Processes one claim of the activity encoded by `activity_code`, made at
/// time `now` by the user whose record is `user`, with `caller` claiming to
/// be the program authority.  On success the returned amount has already
/// been deducted from the program balance and credited to the user's total;
/// the host must move that many base units to the user.  On any error
/// nothing has changed.
///
/// The claimant estimate is the external demand signal handed to the reward
/// scaler.
pub fn claim_reward(
    state: &mut ProgramState,
    user: &mut User,
    caller: Identity,
    activity_code: u8,
    now: i64,
    claimant_estimate: u64,
) -> (r: Result<u64, ErrorCode>)
    requires
        old(state).wf(),
        old(user).wf(),
        now >= 0,
        old(user).reward_total + old(state).current_balance <= u64::MAX,
    ensures
        final(state).wf(),
        final(user).wf(),
        claim_transition(
            *old(state),
            *old(user),
            caller,
            activity_code,
            now,
            claimant_estimate,
            *final(state),
            *final(user),
            r,
        ),
{
    if state.authority != caller {
        return Err(ErrorCode::Unauthorized);
    }

    let activity = match ActivityType::from_u8(activity_code) {
        Some(a) => a,
        None => { return Err(ErrorCode::InvalidActivity) },
    };

    if !is_task_available(activity, state) {
        return Err(ErrorCode::TaskUnavailable);
    }

    if user.last_claimed_at != 0 && now - user.last_claimed_at < 5 {
        return Err(ErrorCode::CooldownActive);
    }

    let base_reward = get_base_reward(activity);
    proof {
        lemma_base_reward_tiers(activity);
        lemma_scale_bounds(activity.spec_base_reward(), state.available_tasks, claimant_estimate);
    }
    let adjusted_reward = calculate_dynamic_reward(
        base_reward,
        state.available_tasks,
        claimant_estimate,
    );
    let (new_history, repetition_count) = update_repetition_count(&user.history, activity);
    let final_reward = apply_farming_penalty(adjusted_reward, repetition_count);

    if final_reward > state.current_balance {
        return Err(ErrorCode::InsufficientBalance);
    }

    state.current_balance = state.current_balance - final_reward;
    user.reward_total = user.reward_total + final_reward;
    user.last_activity = Some(activity);
    user.last_claimed_at = now;
    user.history = new_history;
    Ok(final_reward)
}

} // verus!
