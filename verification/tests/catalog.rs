use azorion::activity::ActivityType;
use azorion::activity::BASE_REWARD_MULTIPLIER;
use azorion::activity::get_base_reward;

#[test]
fn resolves_every_code_in_order() {
    let expected = [
        ActivityType::CheckIn,
        ActivityType::ViewAnalytics,
        ActivityType::VoteInPoll,
        ActivityType::SubscribeContract,
        ActivityType::LeaveFeedback,
        ActivityType::CompleteProfile,
        ActivityType::CastVote,
        ActivityType::SendMessage,
        ActivityType::ReferUser,
        ActivityType::CompleteTutorial,
        ActivityType::TestBetaFeature,
        ActivityType::ReviewSmartContract,
        ActivityType::DeploySmartContract,
        ActivityType::StakeSol,
        ActivityType::MintNft,
        ActivityType::ProvideLiquidity,
        ActivityType::RunValidator,
        ActivityType::ContributeCode,
    ];
    for (code, want) in expected.iter().enumerate() {
        let got = ActivityType::from_u8(code as u8);
        assert_eq!(got, Some(*want));
        assert_eq!(got.unwrap().availability_rank(), code as u8);
    }
}

#[test]
fn rejects_unknown_codes() {
    assert_eq!(ActivityType::from_u8(18), None);
    assert_eq!(ActivityType::from_u8(19), None);
    assert_eq!(ActivityType::from_u8(255), None);
}

#[test]
fn base_rewards_follow_the_three_tier_partition() {
    let mut low = 0;
    let mut mid = 0;
    let mut high = 0;
    for code in 0u8..18 {
        let activity = ActivityType::from_u8(code).unwrap();
        let reward = get_base_reward(activity);
        let rank = activity.availability_rank();
        if reward == 10 * BASE_REWARD_MULTIPLIER {
            assert!(rank < 6);
            low += 1;
        } else if reward == 50 * BASE_REWARD_MULTIPLIER {
            assert!((6..12).contains(&rank));
            mid += 1;
        } else if reward == 100 * BASE_REWARD_MULTIPLIER {
            assert!((12..18).contains(&rank));
            high += 1;
        } else {
            panic!("reward {} is not one of the three tiers", reward);
        }
    }
    assert_eq!((low, mid, high), (6, 6, 6));
}

#[test]
fn base_reward_exact_values() {
    assert_eq!(get_base_reward(ActivityType::CheckIn), 10_000_000);
    assert_eq!(get_base_reward(ActivityType::CastVote), 50_000_000);
    assert_eq!(get_base_reward(ActivityType::ContributeCode), 100_000_000);
}

#[test]
fn activity_names() {
    assert_eq!(ActivityType::CheckIn.to_string(), "check-in");
    assert_eq!(
        ActivityType::ReviewSmartContract.to_string(),
        "review a smart contract's code"
    );
    assert_eq!(
        ActivityType::ContributeCode.to_string(),
        "contribute code to an open-source project"
    );
}
