use azorion::reward::apply_farming_penalty;
use azorion::reward::calculate_dynamic_reward;

#[test]
fn more_slots_than_claimants_increases_by_a_fifth() {
    assert_eq!(calculate_dynamic_reward(10_000_000, 12, 10), 12_000_000);
    assert_eq!(calculate_dynamic_reward(50_000_000, 11, 10), 60_000_000);
    assert_eq!(calculate_dynamic_reward(100_000_000, 255, 10), 120_000_000);
}

#[test]
fn more_claimants_than_slots_decreases_by_a_tenth() {
    assert_eq!(calculate_dynamic_reward(10_000_000, 2, 10), 9_000_000);
    assert_eq!(calculate_dynamic_reward(50_000_000, 0, 10), 45_000_000);
    assert_eq!(calculate_dynamic_reward(100_000_000, 9, 10), 90_000_000);
}

#[test]
fn parity_passes_the_base_through() {
    assert_eq!(calculate_dynamic_reward(10_000_000, 10, 10), 10_000_000);
    assert_eq!(calculate_dynamic_reward(123_456, 3, 3), 123_456);
}

#[test]
fn scaling_truncates_toward_zero() {
    // 7 × 1.2 = 8.4 and 7 × 0.9 = 6.3: both truncate.
    assert_eq!(calculate_dynamic_reward(7, 5, 1), 8);
    assert_eq!(calculate_dynamic_reward(7, 1, 5), 6);
    // 9,999,999 × 0.9 = 8,999,999.1 truncates as well.
    assert_eq!(calculate_dynamic_reward(9_999_999, 1, 5), 8_999_999);
}

#[test]
fn penalty_keeps_halves_and_zeroes() {
    assert_eq!(apply_farming_penalty(9_000_000, 0), 9_000_000);
    assert_eq!(apply_farming_penalty(9_000_000, 1), 4_500_000);
    assert_eq!(apply_farming_penalty(9_000_000, 2), 0);
    assert_eq!(apply_farming_penalty(9_000_000, 200), 0);
    // Halving truncates.
    assert_eq!(apply_farming_penalty(7, 1), 3);
}
