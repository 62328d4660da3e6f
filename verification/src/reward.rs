//! Demand-adjusted reward scaling and the anti-farming penalty.
//!
//! The scaler compares the open task-slot count against an externally
//! supplied estimate of active claimants: with more slots than claimants the
//! base reward grows by a fifth, with more claimants than slots it shrinks by
//! a tenth, and at parity it passes through unchanged.  All adjustments
//! truncate toward zero.
//!
//! The penalty multiplies the adjusted reward by `1 - 0.5 × streak`, clamped
//! to the interval from zero to one: a first repetition halves the reward, a
//! second or later one zeroes it.  The clamp is deliberate — an unclamped
//! multiplier would go negative for longer streaks.

use vstd::prelude::*;

verus! {

/// The scaling policy: `floor(base × 6/5)` when task slots outnumber the
/// claimant estimate, `floor(base × 9/10)` when claimants outnumber slots,
/// and `base` unchanged at parity.
pub open spec fn spec_scale(base_reward: int, available_tasks: u8, claimant_estimate: u64) -> int {
    if available_tasks > claimant_estimate {
        (6 * base_reward) / 5
    } else if claimant_estimate > available_tasks {
        (9 * base_reward) / 10
    } else {
        base_reward
    }
}

/// The adjusted reward after the clamped penalty: unchanged for a fresh
/// claim, halved (rounding down) for a first repetition, zero from the
/// second repetition on.
pub open spec fn spec_penalized(adjusted: int, repetition_count: u8) -> int {
    if repetition_count == 0 {
        adjusted
    } else if repetition_count == 1 {
        adjusted / 2
    } else {
        0
    }
}

/// Scales a base reward by the supply/demand policy.  The claimant estimate
/// is an external signal the host configures; it is compared against the
/// open task-slot count.
pub fn calculate_dynamic_reward(
    base_reward: u64,
    available_tasks: u8,
    claimant_estimate: u64,
) -> (r: u64)
    requires
        spec_scale(base_reward as int, available_tasks, claimant_estimate) <= u64::MAX,
    ensures
        r == spec_scale(base_reward as int, available_tasks, claimant_estimate),
{
    let available: u64 = available_tasks as u64;
    if available > claimant_estimate {
        let increased: u128 = (base_reward as u128 * 6) / 5;
        increased as u64
    } else if claimant_estimate > available {
        let decreased: u128 = (base_reward as u128 * 9) / 10;
        proof {
            assert((9 * (base_reward as int)) / 10 <= base_reward as int) by (nonlinear_arith);
        }
        decreased as u64
    } else {
        base_reward
    }
}

/// Applies the clamped anti-farming penalty to an adjusted reward.
pub fn apply_farming_penalty(adjusted: u64, repetition_count: u8) -> (r: u64)
    ensures
        r == spec_penalized(adjusted as int, repetition_count),
{
    if repetition_count == 0 {
        adjusted
    } else if repetition_count == 1 {
        adjusted / 2
    } else {
        0
    }
}

} // verus!
