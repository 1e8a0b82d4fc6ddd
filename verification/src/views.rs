//! What a reader may ask of the organisation.

use vstd::prelude::*;

use crate::contract::Contract;
use crate::error::Error;
use crate::ledger::{outputs_view, PayoutOutput};
use crate::members::AmbassadorProfile;
use crate::payout::{Bounty, Miscellaneous, Proposal, Referral};
use crate::types::{AccountId, Config};

verus! {

impl Contract {
    /// Returns config of this contract.
    pub fn get_config(&self) -> (config: Config)
        ensures
            config == self.config,
    {
        self.config.clone()
    }

    /// Returns if the account_id is a council member
    pub fn is_council_member(&self, account_id: AccountId) -> (yes: bool)
        ensures
            yes == self.members.council@.contains(account_id@),
    {
        self.members.is_council_member(&account_id)
    }

    /// Returns if the account_id is a registered ambassador
    pub fn is_registered_ambassador(&self, account_id: AccountId) -> (yes: bool)
        ensures
            yes == self.members.ambassadors@.contains_key(account_id@),
    {
        self.members.is_registered_ambassador(&account_id)
    }

    /// Returns the profile of a registered ambassador
    pub fn get_ambassador_profile(&self, account_id: AccountId) -> (profile: AmbassadorProfile)
        requires
            self.wf(),
            self.members.ambassadors@.contains_key(account_id@),
        ensures
            profile == self.members.ambassadors@[account_id@],
    {
        let profile = self.members.ambassadors.get(&account_id).unwrap();
        AmbassadorProfile {
            id: profile.id,
            referral_token: profile.referral_token.clone(),
            registration_referral_used: profile.registration_referral_used,
        }
    }

    /// Get specific proposal.
    pub fn get_proposal(&self, id: u64) -> (res: Result<PayoutOutput<'_, Proposal>, Error>)
        requires
            self.wf(),
        ensures
            match res {
                Ok(output) => {
                    &&& self.proposals.contains(id)
                    &&& output.id == id
                    &&& *output.payout == self.proposals.record(id)
                },
                Err(e) => !self.proposals.contains(id) && e == Error::ProposalNotFound,
            },
    {
        match self.proposals.get(id) {
            Some(payout) => Ok(PayoutOutput { id, payout }),
            None => Err(Error::ProposalNotFound),
        }
    }

    /// Get the number of proposals, also happens to be the ID of the latest proposal
    pub fn get_last_proposal_id(&self) -> (id: u64)
        ensures
            id == self.proposals.last_id,
    {
        self.proposals.last_id
    }

    /// Get proposals in paginated view.
    pub fn get_all_proposals(&self, from_index: u64, limit: u64) -> (outputs: Vec<
        PayoutOutput<'_, Proposal>,
    >)
        requires
            self.wf(),
        ensures
            outputs_view(outputs@) == self.proposals.page(from_index, limit),
    {
        self.proposals.get_page(from_index, limit)
    }

    /// Get specific bounty
    pub fn get_bounty(&self, id: u64) -> (res: Result<PayoutOutput<'_, Bounty>, Error>)
        requires
            self.wf(),
        ensures
            match res {
                Ok(output) => {
                    &&& self.bounties.contains(id)
                    &&& output.id == id
                    &&& *output.payout == self.bounties.record(id)
                },
                Err(e) => !self.bounties.contains(id) && e == Error::BountyNotFound,
            },
    {
        match self.bounties.get(id) {
            Some(payout) => Ok(PayoutOutput { id, payout }),
            None => Err(Error::BountyNotFound),
        }
    }

    /// Get the number of bounties, also happens to be the ID of the latest bounty
    pub fn get_last_bounty_id(&self) -> (id: u64)
        ensures
            id == self.bounties.last_id,
    {
        self.bounties.last_id
    }

    /// Get bounties in paginated view.
    pub fn get_all_bounties(&self, from_index: u64, limit: u64) -> (outputs: Vec<
        PayoutOutput<'_, Bounty>,
    >)
        requires
            self.wf(),
        ensures
            outputs_view(outputs@) == self.bounties.page(from_index, limit),
    {
        self.bounties.get_page(from_index, limit)
    }

    /// Get specific miscellaneous payout
    pub fn get_miscellaneous(&self, id: u64) -> (res: Result<
        PayoutOutput<'_, Miscellaneous>,
        Error,
    >)
        requires
            self.wf(),
        ensures
            match res {
                Ok(output) => {
                    &&& self.miscellaneous.contains(id)
                    &&& output.id == id
                    &&& *output.payout == self.miscellaneous.record(id)
                },
                Err(e) => !self.miscellaneous.contains(id) && e == Error::MiscellaneousNotFound,
            },
    {
        match self.miscellaneous.get(id) {
            Some(payout) => Ok(PayoutOutput { id, payout }),
            None => Err(Error::MiscellaneousNotFound),
        }
    }

    /// Get the number of miscellaneous payouts, also happens to be the ID of the latest one
    pub fn get_last_miscellaneous_id(&self) -> (id: u64)
        ensures
            id == self.miscellaneous.last_id,
    {
        self.miscellaneous.last_id
    }

    /// Get miscellaneous in paginated view.
    pub fn get_all_miscellaneous(&self, from_index: u64, limit: u64) -> (outputs: Vec<
        PayoutOutput<'_, Miscellaneous>,
    >)
        requires
            self.wf(),
        ensures
            outputs_view(outputs@) == self.miscellaneous.page(from_index, limit),
    {
        self.miscellaneous.get_page(from_index, limit)
    }

    /// Get specific referral
    pub fn get_referral(&self, id: u64) -> (res: Result<PayoutOutput<'_, Referral>, Error>)
        requires
            self.wf(),
        ensures
            match res {
                Ok(output) => {
                    &&& self.referrals.contains(id)
                    &&& output.id == id
                    &&& *output.payout == self.referrals.record(id)
                },
                Err(e) => !self.referrals.contains(id) && e == Error::ReferralNotFound,
            },
    {
        match self.referrals.get(id) {
            Some(payout) => Ok(PayoutOutput { id, payout }),
            None => Err(Error::ReferralNotFound),
        }
    }

    /// Get the number of referrals, also happens to be the ID of the latest referral
    pub fn get_last_referral_id(&self) -> (id: u64)
        ensures
            id == self.referrals.last_id,
    {
        self.referrals.last_id
    }

    /// Get referrals in paginated view.
    pub fn get_all_referrals(&self, from_index: u64, limit: u64) -> (outputs: Vec<
        PayoutOutput<'_, Referral>,
    >)
        requires
            self.wf(),
        ensures
            outputs_view(outputs@) == self.referrals.page(from_index, limit),
    {
        self.referrals.get_page(from_index, limit)
    }
}

} // verus!
