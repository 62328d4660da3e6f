use azorion::activity::ActivityType;
use azorion::history::ClaimHistory;
use azorion::history::HISTORY_DEPTH;
use azorion::history::update_repetition_count;

#[test]
fn fresh_history_is_empty() {
    let h = ClaimHistory::new();
    assert_eq!(h.counts.len(), HISTORY_DEPTH);
    assert_eq!(h.activities.len(), HISTORY_DEPTH);
    assert!(h.counts.iter().all(|c| *c == 0));
    assert!(h.activities.iter().all(|a| a.is_none()));
}

#[test]
fn identical_claims_count_up_from_zero() {
    let mut h = ClaimHistory::new();
    // The count chain accumulates across consecutive identical claims, also
    // past the window depth.
    for expected in 0..(HISTORY_DEPTH as u8 + 2) {
        let (next, count) = update_repetition_count(&h, ActivityType::CheckIn);
        assert_eq!(count, expected);
        assert_eq!(next.counts[HISTORY_DEPTH - 1], expected);
        assert_eq!(next.activities[HISTORY_DEPTH - 1], Some(ActivityType::CheckIn));
        h = next;
    }
}

#[test]
fn streak_count_saturates_at_the_cap() {
    let mut h = ClaimHistory::new();
    for _ in 0..300 {
        let (next, _) = update_repetition_count(&h, ActivityType::CheckIn);
        h = next;
    }
    let (_, count) = update_repetition_count(&h, ActivityType::CheckIn);
    assert_eq!(count, 255);
}

#[test]
fn different_claim_resets_and_overwrites() {
    let mut h = ClaimHistory::new();
    for _ in 0..3 {
        let (next, _) = update_repetition_count(&h, ActivityType::CastVote);
        h = next;
    }
    assert_eq!(h.counts[HISTORY_DEPTH - 1], 2);
    let (next, count) = update_repetition_count(&h, ActivityType::MintNft);
    assert_eq!(count, 0);
    assert_eq!(next.counts[HISTORY_DEPTH - 1], 0);
    assert_eq!(next.activities[HISTORY_DEPTH - 1], Some(ActivityType::MintNft));
    // A fresh streak of the overwriting activity starts again at one.
    let (after, count2) = update_repetition_count(&next, ActivityType::MintNft);
    assert_eq!(count2, 1);
    assert_eq!(after.activities[HISTORY_DEPTH - 1], Some(ActivityType::MintNft));
}

#[test]
fn rotation_evicts_the_oldest_entry() {
    let mut h = ClaimHistory::new();
    let (next, _) = update_repetition_count(&h, ActivityType::CheckIn);
    h = next;
    // The single real entry sits at the back; nine rotations carry it to the
    // front, and the tenth evicts it.
    for _ in 0..(HISTORY_DEPTH - 1) {
        let (next, _) = update_repetition_count(&h, ActivityType::CastVote);
        h = next;
    }
    assert_eq!(h.activities[0], Some(ActivityType::CheckIn));
    let (next, _) = update_repetition_count(&h, ActivityType::CastVote);
    h = next;
    assert!(h.activities.iter().all(|a| *a == Some(ActivityType::CastVote)));
}
