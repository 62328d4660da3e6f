//! The library-wide laws, each stated over the same spec functions the
//! operation contracts use and proved once and for all.

use vstd::prelude::*;
use vstd::arithmetic::div_mod::lemma_div_is_ordered;
use vstd::arithmetic::div_mod::lemma_div_nonincreasing;
use vstd::arithmetic::div_mod::lemma_div_pos_is_pos;
use vstd::arithmetic::div_mod::lemma_mod_division_less_than_divisor;
use crate::activity::ActivityType;
use crate::activity::BASE_REWARD_MULTIPLIER;
use crate::claim::claim_transition;
use crate::history::HISTORY_DEPTH;
use crate::history::User;
use crate::history::spec_rotated;
use crate::history::spec_streak_count;
use crate::reward::spec_penalized;
use crate::reward::spec_scale;
use crate::state::ErrorCode;
use crate::state::Identity;
use crate::state::ProgramState;
use crate::tasks::refresh_transition;
use crate::tasks::spec_randomized_tasks;

verus! {

/// Every activity's base reward is one of exactly three tier values, and the
/// tier is fixed by the availability rank: the first six catalog entries pay
/// the low tier, the next six the middle tier, the last six the high tier.
pub proof fn lemma_base_reward_tiers(activity: ActivityType)
    ensures
        activity.spec_base_reward() == 10 * BASE_REWARD_MULTIPLIER || activity.spec_base_reward()
            == 50 * BASE_REWARD_MULTIPLIER || activity.spec_base_reward() == 100
            * BASE_REWARD_MULTIPLIER,
        activity.spec_rank() < 18,
        activity.spec_base_reward() == 10 * BASE_REWARD_MULTIPLIER <==> activity.spec_rank() < 6,
        activity.spec_base_reward() == 50 * BASE_REWARD_MULTIPLIER <==> 6 <= activity.spec_rank()
            < 12,
        activity.spec_base_reward() == 100 * BASE_REWARD_MULTIPLIER <==> 12 <= activity.spec_rank()
            < 18,
{
}

/// The scaled reward of any catalog-sized base stays within the largest
/// tier increased by a fifth, and never goes negative.
pub proof fn lemma_scale_bounds(base_reward: int, available_tasks: u8, claimant_estimate: u64)
    requires
        0 <= base_reward <= 100_000_000,
    ensures
        0 <= spec_scale(base_reward, available_tasks, claimant_estimate) <= 120_000_000,
{
    if available_tasks > claimant_estimate {
        lemma_div_pos_is_pos(6 * base_reward, 5);
        lemma_div_is_ordered(6 * base_reward, 600_000_000, 5);
    } else if claimant_estimate > available_tasks {
        lemma_div_pos_is_pos(9 * base_reward, 10);
        lemma_div_is_ordered(9 * base_reward, 900_000_000, 10);
    }
}

/// The penalty only ever shrinks a reward: the penalized amount stays
/// between zero and the adjusted reward it started from.
pub proof fn lemma_penalized_bounds(adjusted: int, repetition_count: u8)
    requires
        adjusted >= 0,
    ensures
        0 <= spec_penalized(adjusted, repetition_count) <= adjusted,
{
    if repetition_count == 1 {
        lemma_div_pos_is_pos(adjusted, 2);
        lemma_div_nonincreasing(adjusted, 2);
    }
}

/// The paired buffers after `n` consecutive claims of the same activity,
/// starting from the given buffers.
pub open spec fn spec_record_n(
    counts: Seq<u8>,
    activities: Seq<Option<ActivityType>>,
    activity: ActivityType,
    n: nat,
) -> (Seq<u8>, Seq<Option<ActivityType>>)
    decreases n,
{
    if n == 0 {
        (counts, activities)
    } else {
        let prev = spec_record_n(counts, activities, activity, (n - 1) as nat);
        (
            spec_rotated(prev.0, spec_streak_count(prev.0, prev.1, activity)),
            spec_rotated(prev.1, Some(activity)),
        )
    }
}

/// Recording keeps the buffer depth, and from the first claim on the last
/// slot holds the recorded activity.
proof fn lemma_record_n_shape(
    counts: Seq<u8>,
    activities: Seq<Option<ActivityType>>,
    activity: ActivityType,
    n: nat,
)
    requires
        counts.len() == HISTORY_DEPTH,
        activities.len() == HISTORY_DEPTH,
    ensures
        spec_record_n(counts, activities, activity, n).0.len() == HISTORY_DEPTH,
        spec_record_n(counts, activities, activity, n).1.len() == HISTORY_DEPTH,
        n >= 1 ==> spec_record_n(counts, activities, activity, n).1[HISTORY_DEPTH - 1] == Some(
            activity,
        ),
    decreases n,
{
    if n > 0 {
        lemma_record_n_shape(counts, activities, activity, (n - 1) as nat);
    }
}

/// A run of `n` identical consecutive claims (`n` at most the buffer depth)
/// earns the streak counts `0, 1, …, n - 1`: after the run, the newest slot
/// holds `n - 1`.  The run may start from any buffers whose most recent
/// claim is a different activity (or none at all).
pub proof fn lemma_repetition_streak(
    counts: Seq<u8>,
    activities: Seq<Option<ActivityType>>,
    activity: ActivityType,
    n: int,
)
    requires
        counts.len() == HISTORY_DEPTH,
        activities.len() == HISTORY_DEPTH,
        activities[HISTORY_DEPTH - 1] != Some(activity),
        1 <= n <= HISTORY_DEPTH,
    ensures
        spec_record_n(counts, activities, activity, n as nat).0[HISTORY_DEPTH - 1] == n - 1,
    decreases n,
{
    let stepped = spec_record_n(counts, activities, activity, n as nat);
    let prev = spec_record_n(counts, activities, activity, (n - 1) as nat);
    assert(stepped.0 == spec_rotated(prev.0, spec_streak_count(prev.0, prev.1, activity)));
    if n == 1 {
        assert(prev == (counts, activities));
        assert(spec_streak_count(counts, activities, activity) == 0);
        assert(stepped.0[HISTORY_DEPTH - 1] == 0);
    } else {
        lemma_repetition_streak(counts, activities, activity, n - 1);
        lemma_record_n_shape(counts, activities, activity, (n - 1) as nat);
        assert(prev.0[HISTORY_DEPTH - 1] == n - 2);
        assert(prev.1[HISTORY_DEPTH - 1] == Some(activity));
        assert(spec_streak_count(prev.0, prev.1, activity) == n - 1);
        assert(stepped.0[HISTORY_DEPTH - 1] == n - 1);
    }
}

/// A claim of a different activity resets the streak: it earns count zero
/// and overwrites the newest slot with the new activity.
pub proof fn lemma_repetition_reset(
    counts: Seq<u8>,
    activities: Seq<Option<ActivityType>>,
    activity: ActivityType,
)
    requires
        counts.len() == HISTORY_DEPTH,
        activities.len() == HISTORY_DEPTH,
        activities[HISTORY_DEPTH - 1] != Some(activity),
    ensures
        spec_streak_count(counts, activities, activity) == 0,
        spec_rotated(activities, Some(activity))[HISTORY_DEPTH - 1] == Some(activity),
{
}

/// Two claims by the same user less than five time units apart always leave
/// the second one rejected with `CooldownActive`, whatever activity it names
/// and whatever reward it would have earned — provided the gates tried
/// before the cooldown (authority, resolution, availability) pass, and the
/// first claim did not happen at time zero, which the record cannot tell
/// from "never claimed".
pub proof fn lemma_cooldown_idempotent(
    s0: ProgramState,
    u0: User,
    caller1: Identity,
    code1: u8,
    now1: i64,
    est1: u64,
    s1: ProgramState,
    u1: User,
    amount: u64,
    caller2: Identity,
    code2: u8,
    now2: i64,
    est2: u64,
    s2: ProgramState,
    u2: User,
    r2: Result<u64, ErrorCode>,
)
    requires
        claim_transition(s0, u0, caller1, code1, now1, est1, s1, u1, Ok(amount)),
        now1 != 0,
        now2 - now1 < 5,
        caller2 == s1.authority,
        ActivityType::spec_from_u8(code2) matches Some(a) && a.spec_rank()
            <= s1.available_tasks,
        claim_transition(s1, u1, caller2, code2, now2, est2, s2, u2, r2),
    ensures
        r2 == Err::<u64, ErrorCode>(ErrorCode::CooldownActive),
        s2 == s1,
        u2 == u1,
{
    assert(u1.last_claimed_at == now1);
}

/// Balance conservation: a successful claim moves exactly the returned
/// amount — the new balance is the old one minus the amount, the amount
/// never exceeds the old balance, and the user's lifetime total grows by
/// the same amount.
pub proof fn lemma_balance_conservation(
    s0: ProgramState,
    u0: User,
    caller: Identity,
    code: u8,
    now: i64,
    est: u64,
    s1: ProgramState,
    u1: User,
    amount: u64,
)
    requires
        claim_transition(s0, u0, caller, code, now, est, s1, u1, Ok(amount)),
    ensures
        s1.current_balance == s0.current_balance - amount,
        amount <= s0.current_balance,
        u1.reward_total == u0.reward_total + amount,
{
    match ActivityType::spec_from_u8(code) {
        Some(activity) => {
            lemma_base_reward_tiers(activity);
            lemma_scale_bounds(activity.spec_base_reward(), s0.available_tasks, est);
            lemma_penalized_bounds(
                spec_scale(activity.spec_base_reward(), s0.available_tasks, est),
                spec_streak_count(u0.history.counts@, u0.history.activities@, activity),
            );
        },
        None => {
            assert(false);
        },
    }
}

/// No partial commit: every rejected claim leaves both the program state and
/// the user record exactly as they were.
pub proof fn lemma_no_partial_commit(
    s0: ProgramState,
    u0: User,
    caller: Identity,
    code: u8,
    now: i64,
    est: u64,
    s1: ProgramState,
    u1: User,
    e: ErrorCode,
)
    requires
        claim_transition(s0, u0, caller, code, now, est, s1, u1, Err(e)),
    ensures
        s1 == s0,
        u1 == u0,
{
}

/// For every well-formed band and any entropy value, the resampled task
/// count lies inside the band.
pub proof fn lemma_randomizer_range(min_tasks: u8, max_tasks: u8, entropy: u64)
    requires
        min_tasks <= max_tasks,
    ensures
        min_tasks <= spec_randomized_tasks(min_tasks, max_tasks, entropy) <= max_tasks,
{
    lemma_mod_division_less_than_divisor(entropy as int, max_tasks - min_tasks + 1);
}

/// Two refreshes less than ten time units apart always leave the second one
/// rejected with `CooldownRngTasks`, the available-task count and the
/// refresh timestamp unchanged.
pub proof fn lemma_refresh_cooldown(
    s0: ProgramState,
    caller1: Identity,
    now1: i64,
    entropy1: u64,
    s1: ProgramState,
    caller2: Identity,
    now2: i64,
    entropy2: u64,
    s2: ProgramState,
    r2: Result<(), ErrorCode>,
)
    requires
        refresh_transition(s0, caller1, now1, entropy1, s1, Ok(())),
        now2 - now1 < 10,
        caller2 == s1.authority,
        refresh_transition(s1, caller2, now2, entropy2, s2, r2),
    ensures
        r2 == Err::<(), ErrorCode>(ErrorCode::CooldownRngTasks),
        s2 == s1,
{
    assert(s1.tasks_last_updated == now1);
}

} // verus!
