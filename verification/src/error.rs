//! The failures that an operation of the engine can report.

use vstd::prelude::*;

verus! {

/// Why the engine refused a call. A refused call changes nothing.
#[derive(Clone, Copy, Debug, PartialEq, Eq, Structural)]
pub enum Error {
    /// The caller lacks the role or the ownership that the action needs.
    NotPermitted,
    /// No proposal payout has the given id.
    ProposalNotFound,
    /// No bounty payout has the given id.
    BountyNotFound,
    /// No miscellaneous payout has the given id.
    MiscellaneousNotFound,
    /// No referral payout has the given id.
    ReferralNotFound,
    /// The caller has already cast a vote on the record.
    AlreadyVoted,
    /// The record has left the state in which it can be voted on.
    NotUnderConsideration,
    /// A payload field is empty, malformed or of the wrong length.
    InvalidInput,
    /// The id counter of a ledger has reached its last value.
    IdSpaceExhausted,
    /// The caller already has an ambassador profile.
    AmbassadorAlreadyRegistered,
    /// The caller has no ambassador profile.
    AmbassadorNotFound,
}

/// The text that stands for each error towards a client.
pub open spec fn error_text(e: Error) -> Seq<char> {
    match e {
        Error::NotPermitted => "ERR_NOT_PERMITTED"@,
        Error::ProposalNotFound => "ERR_PROPOSAL_NOT_FOUND"@,
        Error::BountyNotFound => "ERR_BOUNTY_NOT_FOUND"@,
        Error::MiscellaneousNotFound => "ERR_MISCELLANEOUS_NOT_FOUND"@,
        Error::ReferralNotFound => "ERR_REFERRAL_NOT_FOUND"@,
        Error::AlreadyVoted => "ERR_ALREADY_VOTED"@,
        Error::NotUnderConsideration => "ERR_NOT_UNDER_CONSIDERATION"@,
        Error::InvalidInput => "ERR_INVALID_INPUT"@,
        Error::IdSpaceExhausted => "ERR_ID_SPACE_EXHAUSTED"@,
        Error::AmbassadorAlreadyRegistered => "ERR_AMBASSADOR_ALREADY_REGISTERED"@,
        Error::AmbassadorNotFound => "ERR_AMBASSADOR_NOT_FOUND"@,
    }
}

impl Error {
    /// The message of this error.
    pub fn message(&self) -> (text: String)
        ensures
            text@ == error_text(*self),
    {
        match self {
            Error::NotPermitted => "ERR_NOT_PERMITTED".to_string(),
            Error::ProposalNotFound => "ERR_PROPOSAL_NOT_FOUND".to_string(),
            Error::BountyNotFound => "ERR_BOUNTY_NOT_FOUND".to_string(),
            Error::MiscellaneousNotFound => "ERR_MISCELLANEOUS_NOT_FOUND".to_string(),
            Error::ReferralNotFound => "ERR_REFERRAL_NOT_FOUND".to_string(),
            Error::AlreadyVoted => "ERR_ALREADY_VOTED".to_string(),
            Error::NotUnderConsideration => "ERR_NOT_UNDER_CONSIDERATION".to_string(),
            Error::InvalidInput => "ERR_INVALID_INPUT".to_string(),
            Error::IdSpaceExhausted => "ERR_ID_SPACE_EXHAUSTED".to_string(),
            Error::AmbassadorAlreadyRegistered => "ERR_AMBASSADOR_ALREADY_REGISTERED".to_string(),
            Error::AmbassadorNotFound => "ERR_AMBASSADOR_NOT_FOUND".to_string(),
        }
    }
}

} // verus!
