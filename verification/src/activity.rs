//! The activity catalog: the fixed registry of claimable activities.
//!
//! Each activity carries a base reward drawn from one of three tiers and an
//! availability rank equal to its ordinal position in the catalog.  The rank
//! is compared against the program's current available-task count to decide
//! whether the activity can be claimed at all.

use vstd::prelude::*;

verus! {

/// All base rewards are expressed in base units: one reward unit is this many
/// base units.
pub const BASE_REWARD_MULTIPLIER: u64 = 1_000_000;

/// The catalog of claimable activities.  The declaration order is
/// load-bearing: an activity's availability rank is its ordinal position
/// here, and `spec_rank` pins that mapping down explicitly.
#[derive(Clone, Copy, Debug, PartialEq, Eq, Structural)]
pub enum ActivityType {
    CheckIn,
    ViewAnalytics,
    VoteInPoll,
    SubscribeContract,
    LeaveFeedback,
    CompleteProfile,
    CastVote,
    SendMessage,
    ReferUser,
    CompleteTutorial,
    TestBetaFeature,
    ReviewSmartContract,
    DeploySmartContract,
    StakeSol,
    MintNft,
    ProvideLiquidity,
    RunValidator,
    ContributeCode,
}

impl ActivityType {
    /// The activity encoded by a small-integer code, if any.
    pub open spec fn spec_from_u8(value: u8) -> Option<ActivityType> {
        if value == 0 {
            Some(ActivityType::CheckIn)
        } else if value == 1 {
            Some(ActivityType::ViewAnalytics)
        } else if value == 2 {
            Some(ActivityType::VoteInPoll)
        } else if value == 3 {
            Some(ActivityType::SubscribeContract)
        } else if value == 4 {
            Some(ActivityType::LeaveFeedback)
        } else if value == 5 {
            Some(ActivityType::CompleteProfile)
        } else if value == 6 {
            Some(ActivityType::CastVote)
        } else if value == 7 {
            Some(ActivityType::SendMessage)
        } else if value == 8 {
            Some(ActivityType::ReferUser)
        } else if value == 9 {
            Some(ActivityType::CompleteTutorial)
        } else if value == 10 {
            Some(ActivityType::TestBetaFeature)
        } else if value == 11 {
            Some(ActivityType::ReviewSmartContract)
        } else if value == 12 {
            Some(ActivityType::DeploySmartContract)
        } else if value == 13 {
            Some(ActivityType::StakeSol)
        } else if value == 14 {
            Some(ActivityType::MintNft)
        } else if value == 15 {
            Some(ActivityType::ProvideLiquidity)
        } else if value == 16 {
            Some(ActivityType::RunValidator)
        } else if value == 17 {
            Some(ActivityType::ContributeCode)
        } else {
            None
        }
    }

    /// Resolves an external small-integer code to a catalog activity.
    /// Codes 0 through 17 resolve in declaration order; anything else is
    /// rejected.
    pub fn from_u8(value: u8) -> (r: Option<ActivityType>)
        ensures
            r == Self::spec_from_u8(value),
    {
        match value {
            0 => Some(ActivityType::CheckIn),
            1 => Some(ActivityType::ViewAnalytics),
            2 => Some(ActivityType::VoteInPoll),
            3 => Some(ActivityType::SubscribeContract),
            4 => Some(ActivityType::LeaveFeedback),
            5 => Some(ActivityType::CompleteProfile),
            6 => Some(ActivityType::CastVote),
            7 => Some(ActivityType::SendMessage),
            8 => Some(ActivityType::ReferUser),
            9 => Some(ActivityType::CompleteTutorial),
            10 => Some(ActivityType::TestBetaFeature),
            11 => Some(ActivityType::ReviewSmartContract),
            12 => Some(ActivityType::DeploySmartContract),
            13 => Some(ActivityType::StakeSol),
            14 => Some(ActivityType::MintNft),
            15 => Some(ActivityType::ProvideLiquidity),
            16 => Some(ActivityType::RunValidator),
            17 => Some(ActivityType::ContributeCode),
            _ => None,
        }
    }

    /// The availability rank: the activity's ordinal position in the catalog.
    pub open spec fn spec_rank(self) -> u8 {
        match self {
            ActivityType::CheckIn => 0,
            ActivityType::ViewAnalytics => 1,
            ActivityType::VoteInPoll => 2,
            ActivityType::SubscribeContract => 3,
            ActivityType::LeaveFeedback => 4,
            ActivityType::CompleteProfile => 5,
            ActivityType::CastVote => 6,
            ActivityType::SendMessage => 7,
            ActivityType::ReferUser => 8,
            ActivityType::CompleteTutorial => 9,
            ActivityType::TestBetaFeature => 10,
            ActivityType::ReviewSmartContract => 11,
            ActivityType::DeploySmartContract => 12,
            ActivityType::StakeSol => 13,
            ActivityType::MintNft => 14,
            ActivityType::ProvideLiquidity => 15,
            ActivityType::RunValidator => 16,
            ActivityType::ContributeCode => 17,
        }
    }

    /// The rank compared against the available-task count: rank 0 is always
    /// claimable, higher ranks unlock as more task slots open.
    pub fn availability_rank(&self) -> (r: u8)
        ensures
            r == self.spec_rank(),
    {
        match self {
            ActivityType::CheckIn => 0,
            ActivityType::ViewAnalytics => 1,
            ActivityType::VoteInPoll => 2,
            ActivityType::SubscribeContract => 3,
            ActivityType::LeaveFeedback => 4,
            ActivityType::CompleteProfile => 5,
            ActivityType::CastVote => 6,
            ActivityType::SendMessage => 7,
            ActivityType::ReferUser => 8,
            ActivityType::CompleteTutorial => 9,
            ActivityType::TestBetaFeature => 10,
            ActivityType::ReviewSmartContract => 11,
            ActivityType::DeploySmartContract => 12,
            ActivityType::StakeSol => 13,
            ActivityType::MintNft => 14,
            ActivityType::ProvideLiquidity => 15,
            ActivityType::RunValidator => 16,
            ActivityType::ContributeCode => 17,
        }
    }

    /// The fixed base reward of the activity, in base units.
    pub open spec fn spec_base_reward(self) -> int {
        match self {
            ActivityType::CheckIn => 10 * BASE_REWARD_MULTIPLIER,
            ActivityType::ViewAnalytics => 10 * BASE_REWARD_MULTIPLIER,
            ActivityType::VoteInPoll => 10 * BASE_REWARD_MULTIPLIER,
            ActivityType::SubscribeContract => 10 * BASE_REWARD_MULTIPLIER,
            ActivityType::LeaveFeedback => 10 * BASE_REWARD_MULTIPLIER,
            ActivityType::CompleteProfile => 10 * BASE_REWARD_MULTIPLIER,
            ActivityType::CastVote => 50 * BASE_REWARD_MULTIPLIER,
            ActivityType::SendMessage => 50 * BASE_REWARD_MULTIPLIER,
            ActivityType::ReferUser => 50 * BASE_REWARD_MULTIPLIER,
            ActivityType::CompleteTutorial => 50 * BASE_REWARD_MULTIPLIER,
            ActivityType::TestBetaFeature => 50 * BASE_REWARD_MULTIPLIER,
            ActivityType::ReviewSmartContract => 50 * BASE_REWARD_MULTIPLIER,
            ActivityType::DeploySmartContract => 100 * BASE_REWARD_MULTIPLIER,
            ActivityType::StakeSol => 100 * BASE_REWARD_MULTIPLIER,
            ActivityType::MintNft => 100 * BASE_REWARD_MULTIPLIER,
            ActivityType::ProvideLiquidity => 100 * BASE_REWARD_MULTIPLIER,
            ActivityType::RunValidator => 100 * BASE_REWARD_MULTIPLIER,
            ActivityType::ContributeCode => 100 * BASE_REWARD_MULTIPLIER,
        }
    }

    /// The activity's display name.
    pub open spec fn spec_name(self) -> Seq<char> {
        match self {
            ActivityType::CheckIn => "check-in"@,
            ActivityType::ViewAnalytics => "view analytics"@,
            ActivityType::VoteInPoll => "vote in a poll"@,
            ActivityType::SubscribeContract => "subscribe to a smart contract"@,
            ActivityType::LeaveFeedback => "leave feedback on a dapp"@,
            ActivityType::CompleteProfile => "complete a profile setup"@,
            ActivityType::CastVote => "cast a vote"@,
            ActivityType::SendMessage => "send a message"@,
            ActivityType::ReferUser => "refer a user"@,
            ActivityType::CompleteTutorial => "complete a tutorial on solana usage"@,
            ActivityType::TestBetaFeature => "test a beta feature on a dapp"@,
            ActivityType::ReviewSmartContract => "review a smart contract's code"@,
            ActivityType::DeploySmartContract => "deploy a sample smart contract"@,
            ActivityType::StakeSol => "stake sol for at least 7 days"@,
            ActivityType::MintNft => "mint and transfer an nft"@,
            ActivityType::ProvideLiquidity => "provide liquidity to a protocol"@,
            ActivityType::RunValidator => "run a validator node for 24 hours"@,
            ActivityType::ContributeCode => "contribute code to an open-source project"@,
        }
    }

    /// The activity's display name, for hosts that show or log claims.
    pub fn to_string(&self) -> (r: String)
        ensures
            r@ == self.spec_name(),
    {
        match self {
            ActivityType::CheckIn => "check-in".to_owned(),
            ActivityType::ViewAnalytics => "view analytics".to_owned(),
            ActivityType::VoteInPoll => "vote in a poll".to_owned(),
            ActivityType::SubscribeContract => "subscribe to a smart contract".to_owned(),
            ActivityType::LeaveFeedback => "leave feedback on a dapp".to_owned(),
            ActivityType::CompleteProfile => "complete a profile setup".to_owned(),
            ActivityType::CastVote => "cast a vote".to_owned(),
            ActivityType::SendMessage => "send a message".to_owned(),
            ActivityType::ReferUser => "refer a user".to_owned(),
            ActivityType::CompleteTutorial => "complete a tutorial on solana usage".to_owned(),
            ActivityType::TestBetaFeature => "test a beta feature on a dapp".to_owned(),
            ActivityType::ReviewSmartContract => "review a smart contract's code".to_owned(),
            ActivityType::DeploySmartContract => "deploy a sample smart contract".to_owned(),
            ActivityType::StakeSol => "stake sol for at least 7 days".to_owned(),
            ActivityType::MintNft => "mint and transfer an nft".to_owned(),
            ActivityType::ProvideLiquidity => "provide liquidity to a protocol".to_owned(),
            ActivityType::RunValidator => "run a validator node for 24 hours".to_owned(),
            ActivityType::ContributeCode => "contribute code to an open-source project".to_owned(),
        }
    }
}

/// The fixed base-reward table: six activities at each of the three tiers.
pub fn get_base_reward(activity: ActivityType) -> (r: u64)
    ensures
        r == activity.spec_base_reward(),
{
    match activity {
        ActivityType::CheckIn => 10 * BASE_REWARD_MULTIPLIER,
        ActivityType::ViewAnalytics => 10 * BASE_REWARD_MULTIPLIER,
        ActivityType::VoteInPoll => 10 * BASE_REWARD_MULTIPLIER,
        ActivityType::SubscribeContract => 10 * BASE_REWARD_MULTIPLIER,
        ActivityType::LeaveFeedback => 10 * BASE_REWARD_MULTIPLIER,
        ActivityType::CompleteProfile => 10 * BASE_REWARD_MULTIPLIER,
        ActivityType::CastVote => 50 * BASE_REWARD_MULTIPLIER,
        ActivityType::SendMessage => 50 * BASE_REWARD_MULTIPLIER,
        ActivityType::ReferUser => 50 * BASE_REWARD_MULTIPLIER,
        ActivityType::CompleteTutorial => 50 * BASE_REWARD_MULTIPLIER,
        ActivityType::TestBetaFeature => 50 * BASE_REWARD_MULTIPLIER,
        ActivityType::ReviewSmartContract => 50 * BASE_REWARD_MULTIPLIER,
        ActivityType::DeploySmartContract => 100 * BASE_REWARD_MULTIPLIER,
        ActivityType::StakeSol => 100 * BASE_REWARD_MULTIPLIER,
        ActivityType::MintNft => 100 * BASE_REWARD_MULTIPLIER,
        ActivityType::ProvideLiquidity => 100 * BASE_REWARD_MULTIPLIER,
        ActivityType::RunValidator => 100 * BASE_REWARD_MULTIPLIER,
        ActivityType::ContributeCode => 100 * BASE_REWARD_MULTIPLIER,
    }
}

} // verus!
