//! Plain values shared by every part of the engine.

use vstd::prelude::*;

verus! {

/// An account of the host ledger, known to the engine by its name alone.
/// Two accounts are the same when their names hold the same characters.
pub type AccountId = String;

/// The opaque text that an ambassador hands out to refer others.
pub type ReferralToken = String;

/// An amount of the native token in its smallest unit.
pub type Balance = u128;

/// An amount of dollars in fixed point: `ONE_NEAR` units make one dollar, so
/// that fixed rewards and balances share one scale.
#[allow(clippy::upper_case_acronyms)]
pub type USD = u128;

/// The smallest units in one whole token.
pub const ONE_NEAR: Balance = 1_000_000_000_000_000_000_000_000;

pub const ONE_TGAS: u64 = 1_000_000_000_000;

/// Configuration of the DAO.
#[derive(Debug, PartialEq, Eq)]
pub struct Config {
    /// name of DAO
    pub name: String,
    /// purpose of DAO
    pub purpose: String,
}

impl Config {
    pub fn new(name: String, purpose: String) -> (config: Self)
        ensures
            config.name == name,
            config.purpose == purpose,
    {
        Self { name, purpose }
    }
}

impl Clone for Config {
    fn clone(&self) -> (copy: Self)
        ensures
            copy == *self,
    {
        Config { name: self.name.clone(), purpose: self.purpose.clone() }
    }
}

/// What a caller can do to a payout record.
#[derive(Clone, Copy, Debug, PartialEq, Eq, Structural)]
pub enum Action {
    /// remove a payout
    RemovePayout,
    /// approval vote for a payout
    VoteApprove,
    /// rejection vote for a payout
    VoteReject,
}

/// The label under which a policy names each action.
pub open spec fn policy_label(action: Action) -> Seq<char> {
    match action {
        Action::RemovePayout => "RemovePayout"@,
        Action::VoteApprove => "VoteApprove"@,
        Action::VoteReject => "VoteReject"@,
    }
}

impl Action {
    pub fn to_policy_label(&self) -> (label: String)
        ensures
            label@ == policy_label(*self),
    {
        match self {
            Action::RemovePayout => "RemovePayout".to_string(),
            Action::VoteApprove => "VoteApprove".to_string(),
            Action::VoteReject => "VoteReject".to_string(),
        }
    }

    /// Whether the action casts a vote.
    pub open spec fn is_vote(self) -> bool {
        self is VoteApprove || self is VoteReject
    }
}

/// How a registration ended. Both outcomes carry the id of the new
/// ambassador; the second also says why no referral was recorded.
#[derive(Clone, Debug, PartialEq, Eq)]
pub enum RegistrationResult {
    SuccessWithReferral(u64),
    SuccessWithoutReferral(u64, String),
}

} // verus!
