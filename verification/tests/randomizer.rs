use azorion::state::ErrorCode;
use azorion::state::Identity;
use azorion::state::initialize;
use azorion::tasks::randomize_available_tasks;
use azorion::tasks::randomize_tasks;

const AUTH: Identity = Identity { id: 3 };

#[test]
fn resampled_count_stays_inside_the_band() {
    for entropy in [0u64, 1, 8, 9, 10, 17, 1_000_003, u64::MAX] {
        let v = randomize_available_tasks(2, 10, entropy);
        assert!((2..=10).contains(&v));
        assert_eq!(v, 2 + (entropy % 9) as u8);
    }
}

#[test]
fn single_point_band_always_returns_it() {
    for entropy in [0u64, 5, 41, u64::MAX] {
        assert_eq!(randomize_available_tasks(7, 7, entropy), 7);
    }
}

#[test]
fn refresh_updates_count_and_timestamp() {
    let mut state = initialize(1000, 2, 10, AUTH, 50).unwrap();
    assert_eq!(state.available_tasks, 2);
    randomize_tasks(&mut state, AUTH, 60, 5).unwrap();
    assert_eq!(state.available_tasks, 2 + (5 % 9) as u8);
    assert_eq!(state.tasks_last_updated, 60);
}

#[test]
fn refresh_inside_the_cooldown_changes_nothing() {
    let mut state = initialize(1000, 2, 10, AUTH, 50).unwrap();
    randomize_tasks(&mut state, AUTH, 60, 5).unwrap();
    let before = state;
    let r = randomize_tasks(&mut state, AUTH, 69, 8);
    assert_eq!(r, Err(ErrorCode::CooldownRngTasks));
    assert_eq!(state, before);
    // Ten units after the last refresh it runs again.
    assert!(randomize_tasks(&mut state, AUTH, 70, 8).is_ok());
    assert_eq!(state.tasks_last_updated, 70);
}

#[test]
fn refresh_requires_the_authority() {
    let mut state = initialize(1000, 2, 10, AUTH, 50).unwrap();
    let stranger = Identity { id: 4 };
    let before = state;
    let r = randomize_tasks(&mut state, stranger, 100, 5);
    assert_eq!(r, Err(ErrorCode::Unauthorized));
    assert_eq!(state, before);
}
