//! Per-user claim records and the repetition tracker.
//!
//! Each user carries two parallel ring buffers of fixed depth: the activities
//! of the most recent claims and, for each, how many immediately preceding
//! claims were for the identical activity.  On every claim both buffers
//! rotate left by one — the oldest entry falls out and the newest lands at
//! the fixed last index — so the most recent claim is always found at the
//! same place.  The streak count written there drives the anti-farming
//! penalty.

use vstd::prelude::*;
use crate::activity::ActivityType;

verus! {

/// How many claims back the repetition tracker can see.
pub const HISTORY_DEPTH: usize = 10;

/// The largest streak count a history slot can hold; longer streaks saturate
/// here rather than wrap.
pub const MAX_STREAK: u8 = 255;

/// A sequence rotated left by one with `newest` written into the freed last
/// slot: the oldest entry is evicted, every other entry moves one slot
/// toward the front.
pub open spec fn spec_rotated<T>(s: Seq<T>, newest: T) -> Seq<T> {
    s.subrange(1, s.len() as int).push(newest)
}

/// The streak count a new claim of `activity` earns against the given
/// buffers: one more than the most recent claim's count when that claim was
/// for the identical activity (saturating at [`MAX_STREAK`]), and zero
/// otherwise.
pub open spec fn spec_streak_count(
    counts: Seq<u8>,
    activities: Seq<Option<ActivityType>>,
    activity: ActivityType,
) -> u8 {
    if activities[activities.len() - 1] == Some(activity) {
        if counts[counts.len() - 1] == MAX_STREAK {
            MAX_STREAK
        } else {
            (counts[counts.len() - 1] + 1) as u8
        }
    } else {
        0
    }
}

/// The two parallel ring buffers, paired under one abstraction so they can
/// never desynchronize.
pub struct ClaimHistory {
    /// For each remembered claim, the length of the identical-activity
    /// streak it extended.
    pub counts: Vec<u8>,
    /// The activities of the remembered claims, oldest first; `None` marks a
    /// slot no claim has reached yet.
    pub activities: Vec<Option<ActivityType>>,
}

impl ClaimHistory {
    /// The history invariant: both buffers have the fixed depth, and a
    /// nonzero streak count certifies that the slot's activity equals the
    /// activity of the claim just before it.
    pub open spec fn wf(self) -> bool {
        &&& self.counts@.len() == HISTORY_DEPTH
        &&& self.activities@.len() == HISTORY_DEPTH
        &&& forall|i: int|
            1 <= i < HISTORY_DEPTH && self.counts@[i] > 0 ==> self.activities@[i] is Some
                && self.activities@[i] == self.activities@[i - 1]
    }

    /// A history no claim has touched: all counts zero, all slots empty.
    pub fn new() -> (h: ClaimHistory)
        ensures
            h.wf(),
            forall|i: int| 0 <= i < HISTORY_DEPTH ==> h.counts@[i] == 0,
            forall|i: int| 0 <= i < HISTORY_DEPTH ==> h.activities@[i] is None,
    {
        let mut counts: Vec<u8> = Vec::new();
        let mut activities: Vec<Option<ActivityType>> = Vec::new();
        let mut i: usize = 0;
        while i < HISTORY_DEPTH
            invariant
                i <= HISTORY_DEPTH,
                counts@.len() == i,
                activities@.len() == i,
                forall|j: int| 0 <= j < i ==> counts@[j] == 0,
                forall|j: int| 0 <= j < i ==> activities@[j] is None,
            decreases HISTORY_DEPTH - i,
        {
            counts.push(0);
            activities.push(None);
            i = i + 1;
        }
        ClaimHistory { counts, activities }
    }
}

/// Rotates the paired buffers left by one and writes the new claim into the
/// freed last slot, returning the new history and the streak count the claim
/// earned.  The input history is left untouched; the claim pipeline commits
/// the returned one only once the whole claim has succeeded.
pub fn update_repetition_count(history: &ClaimHistory, activity: ActivityType) -> (r: (
    ClaimHistory,
    u8,
))
    requires
        history.wf(),
    ensures
        r.0.wf(),
        r.1 == spec_streak_count(history.counts@, history.activities@, activity),
        r.0.counts@ == spec_rotated(history.counts@, r.1),
        r.0.activities@ == spec_rotated(history.activities@, Some(activity)),
{
    let last: usize = HISTORY_DEPTH - 1;
    let prev_activity: Option<ActivityType> = history.activities[last];
    let prev_count: u8 = history.counts[last];
    let count: u8 = match prev_activity {
        Some(prev) => if prev == activity {
            if prev_count == MAX_STREAK {
                MAX_STREAK
            } else {
                prev_count + 1
            }
        } else {
            0
        },
        None => 0,
    };

    let mut counts: Vec<u8> = Vec::new();
    let mut activities: Vec<Option<ActivityType>> = Vec::new();
    let mut i: usize = 1;
    while i < HISTORY_DEPTH
        invariant
            1 <= i <= HISTORY_DEPTH,
            history.wf(),
            counts@.len() == i - 1,
            activities@.len() == i - 1,
            forall|j: int| 0 <= j < i - 1 ==> counts@[j] == history.counts@[j + 1],
            forall|j: int| 0 <= j < i - 1 ==> activities@[j] == history.activities@[j + 1],
        decreases HISTORY_DEPTH - i,
    {
        counts.push(history.counts[i]);
        activities.push(history.activities[i]);
        i = i + 1;
    }
    counts.push(count);
    activities.push(Some(activity));

    proof {
        assert(counts@ =~= spec_rotated(history.counts@, count));
        assert(activities@ =~= spec_rotated(history.activities@, Some(activity)));
    }
    let new_history = ClaimHistory { counts, activities };
    proof {
        assert forall|i: int|
            1 <= i < HISTORY_DEPTH && new_history.counts@[i] > 0 implies new_history.activities@[i]
            is Some && new_history.activities@[i] == new_history.activities@[i - 1] by {
            if i < HISTORY_DEPTH - 1 {
                assert(new_history.counts@[i] == history.counts@[i + 1]);
            }
        }
    }
    (new_history, count)
}

/// One user's claim record: lifetime reward total, the most recent claim and
/// when it was made, and the repetition history.
pub struct User {
    /// Everything the user has ever been paid, in base units.  Only ever
    /// grows.
    pub reward_total: u64,
    /// The most recently claimed activity, `None` before the first claim.
    pub last_activity: Option<ActivityType>,
    /// When the user last claimed; zero means never.
    pub last_claimed_at: i64,
    /// The paired repetition ring buffers.
    pub history: ClaimHistory,
}

impl User {
    /// The user invariant: a well-formed history and a valid claim time.
    pub open spec fn wf(self) -> bool {
        &&& self.history.wf()
        &&& self.last_claimed_at >= 0
    }

    /// The record a user has before their first claim: nothing earned,
    /// nothing claimed, an untouched history.
    pub fn new() -> (u: User)
        ensures
            u.wf(),
            u.reward_total == 0,
            u.last_activity is None,
            u.last_claimed_at == 0,
            forall|i: int| 0 <= i < HISTORY_DEPTH ==> u.history.counts@[i] == 0,
            forall|i: int| 0 <= i < HISTORY_DEPTH ==> u.history.activities@[i] is None,
    {
        User {
            reward_total: 0,
            last_activity: None,
            last_claimed_at: 0,
            history: ClaimHistory::new(),
        }
    }
}

} // verus!
