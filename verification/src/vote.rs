//! A single council member's verdict on a payout.

use vstd::prelude::*;

use crate::types::Action;

verus! {

#[derive(Clone, Copy, Debug, PartialEq, Eq, Structural)]
pub enum Vote {
    Approve,
    Reject,
}

/// The vote that a voting action casts.
pub open spec fn vote_of(action: Action) -> Vote {
    if action is VoteApprove {
        Vote::Approve
    } else {
        Vote::Reject
    }
}

impl Vote {
    /// The vote behind a voting action. Removal casts no vote and is not
    /// accepted here.
    pub fn from_action(input: Action) -> (vote: Vote)
        requires
            input.is_vote(),
        ensures
            vote == vote_of(input),
    {
        match input {
            Action::VoteApprove => Vote::Approve,
            _ => Vote::Reject,
        }
    }
}

} // verus!
