//! The state of the organisation and what every operation may assume of it.

use vstd::prelude::*;

use crate::ledger::Ledger;
use crate::members::{names, AmbassadorProfile, Members};
use crate::payout::{transfers_view, Bounty, Miscellaneous, Proposal, Referral, Transfers};
use crate::text_map::TextMap;
use crate::types::{AccountId, Config, USD};

verus! {

/// The main contract governing Ambassadors DAO
#[derive(Clone, Debug)]
pub struct Contract {
    /// defines the policy of the contract
    pub members: Members,
    /// the configuration of the contract
    pub config: Config,
    /// proposal payouts
    pub proposals: Ledger<Proposal>,
    /// bounty payouts
    pub bounties: Ledger<Bounty>,
    /// miscellaneous payouts
    pub miscellaneous: Ledger<Miscellaneous>,
    /// referral payouts
    pub referrals: Ledger<Referral>,
    /// referral tokens, each with the account that it was issued to
    pub referral_tokens: TextMap<AccountId>,
}

/// What a call hands over for payment: the schedule of the record if the
/// call approved it, and nothing otherwise.
pub open spec fn due(
    transfers: Option<Transfers>,
    approved: bool,
    schedule: Seq<(Seq<char>, USD)>,
) -> bool {
    if approved {
        transfers matches Some(list) && transfers_view(list@) == schedule
    } else {
        transfers is None
    }
}

impl Contract {
    /// The number of council members.
    pub open spec fn council_size(&self) -> nat {
        self.members.council@.len()
    }

    /// The token of every ambassador is on record as issued to that
    /// ambassador.
    pub open spec fn tokens_lead_back(&self) -> bool {
        forall|account: Seq<char>| #[trigger]
            self.members.ambassadors@.contains_key(account) ==> {
                let token = self.members.ambassadors@[account].referral_token@;
                self.referral_tokens@.contains_key(token) && self.referral_tokens@[token]@
                    == account
            }
    }

    /// The council is not empty, every record of every ledger is sound for
    /// it, every bounty for a contest names its three winners, no account
    /// or token is listed twice, and the token of every ambassador leads
    /// back to that ambassador.
    pub open spec fn wf(&self) -> bool {
        &&& self.members.wf()
        &&& self.council_size() > 0
        &&& self.proposals.wf(self.council_size())
        &&& self.bounties.wf(self.council_size())
        &&& self.miscellaneous.wf(self.council_size())
        &&& self.referrals.wf(self.council_size())
        &&& forall|i: int|
            0 <= i < self.bounties.records@.len() ==> (
            #[trigger] self.bounties.records@[i]).info.podium_complete()
        &&& self.referral_tokens.wf()
        &&& self.tokens_lead_back()
    }

    /// Both states hold the same members and configuration.
    pub open spec fn same_people(&self, other: &Self) -> bool {
        &&& self.members == other.members
        &&& self.config == other.config
        &&& self.referral_tokens == other.referral_tokens
    }

    /// Both states hold the same records in every ledger but, perhaps, that
    /// of the proposals.
    pub open spec fn same_but_proposals(&self, other: &Self) -> bool {
        &&& self.bounties.same_as(&other.bounties)
        &&& self.miscellaneous.same_as(&other.miscellaneous)
        &&& self.referrals.same_as(&other.referrals)
    }

    /// Both states hold the same records in every ledger but, perhaps, that
    /// of the bounties.
    pub open spec fn same_but_bounties(&self, other: &Self) -> bool {
        &&& self.proposals.same_as(&other.proposals)
        &&& self.miscellaneous.same_as(&other.miscellaneous)
        &&& self.referrals.same_as(&other.referrals)
    }

    /// Both states hold the same records in every ledger but, perhaps, that
    /// of the miscellaneous payouts.
    pub open spec fn same_but_miscellaneous(&self, other: &Self) -> bool {
        &&& self.proposals.same_as(&other.proposals)
        &&& self.bounties.same_as(&other.bounties)
        &&& self.referrals.same_as(&other.referrals)
    }

    /// Both states hold the same records in every ledger but, perhaps, that
    /// of the referrals.
    pub open spec fn same_but_referrals(&self, other: &Self) -> bool {
        &&& self.proposals.same_as(&other.proposals)
        &&& self.bounties.same_as(&other.bounties)
        &&& self.miscellaneous.same_as(&other.miscellaneous)
    }

    /// Both states hold the same of everything.
    pub open spec fn same_as(&self, other: &Self) -> bool {
        &&& self.same_people(other)
        &&& self.same_but_proposals(other)
        &&& self.proposals.same_as(&other.proposals)
    }

    /// Whether the state is one that the operations accept: `wf`, tested.
    pub fn is_well_formed(&self) -> (ok: bool)
        ensures
            ok == self.wf(),
    {
        if !self.members.is_well_formed() {
            return false;
        }
        let council_size = self.members.get_council_size() as u64;
        if council_size == 0 {
            return false;
        }
        if !self.proposals.is_well_formed(council_size) {
            return false;
        }
        if !self.bounties.is_well_formed(council_size) {
            return false;
        }
        if !self.miscellaneous.is_well_formed(council_size) {
            return false;
        }
        if !self.referrals.is_well_formed(council_size) {
            return false;
        }
        let mut i: usize = 0;
        while i < self.bounties.records.len()
            invariant
                i <= self.bounties.records@.len(),
                forall|j: int|
                    0 <= j < i ==> (#[trigger] self.bounties.records@[j]).info.podium_complete(),
            decreases self.bounties.records@.len() - i,
        {
            if !self.bounties.records[i].info.is_podium_complete() {
                return false;
            }
            i += 1;
        }
        if !self.referral_tokens.is_well_formed() {
            return false;
        }
        self.tokens_are_live()
    }

    /// Whether the token of every ambassador is on record as issued to that
    /// ambassador.
    pub fn tokens_are_live(&self) -> (ok: bool)
        requires
            self.members.wf(),
            self.referral_tokens.wf(),
        ensures
            ok == self.tokens_lead_back(),
    {
        let roster = &self.members.ambassadors;
        let mut i: usize = 0;
        while i < roster.entries.len()
            invariant
                i <= roster.entries@.len(),
                roster == &self.members.ambassadors,
                roster.wf(),
                self.referral_tokens.wf(),
                forall|j: int|
                    0 <= j < i ==> {
                        let token = (#[trigger] roster.entries@[j]).1.referral_token@;
                        self.referral_tokens@.contains_key(token) && self.referral_tokens@[token]@
                            == roster.entries@[j].0@
                    },
            decreases roster.entries@.len() - i,
        {
            let found = self.referral_tokens.get(&roster.entries[i].1.referral_token);
            let leads_back = match found {
                None => false,
                Some(issuer) => *issuer == roster.entries[i].0,
            };
            if !leads_back {
                proof {
                    let account = roster.entries@[i as int].0@;
                    crate::text_map::lemma_key_index(roster.entries@, i as int);
                    assert(self.members.ambassadors@.contains_key(account));
                    assert(self.members.ambassadors@[account] == roster.entries@[i as int].1);
                }
                return false;
            }
            i += 1;
        }
        proof {
            let keys = crate::text_map::entry_keys(roster.entries@);
            assert forall|account: Seq<char>| #[trigger]
                self.members.ambassadors@.contains_key(account) implies {
                let token = self.members.ambassadors@[account].referral_token@;
                self.referral_tokens@.contains_key(token) && self.referral_tokens@[token]@
                    == account
            } by {
                let j = keys.index_of(account);
                assert(keys[j] == account);
                crate::text_map::lemma_key_index(roster.entries@, j);
            }
        }
        true
    }

    /// A new organisation with the given council and no records. The name and
    /// the purpose must not be empty, and the council needs a member.
    pub fn new(name: String, purpose: String, council: Vec<AccountId>) -> (contract: Self)
        requires
            name@.len() > 0,
            purpose@.len() > 0,
            council@.len() > 0,
        ensures
            contract.wf(),
            contract.config.name == name,
            contract.config.purpose == purpose,
            contract.members.council@ == names(council@),
            contract.members.last_ambassador_id == 0,
            contract.members.ambassadors@ == Map::<Seq<char>, AmbassadorProfile>::empty(),
            contract.proposals.last_id == 0,
            contract.bounties.last_id == 0,
            contract.miscellaneous.last_id == 0,
            contract.referrals.last_id == 0,
            contract.referral_tokens@ == Map::<Seq<char>, AccountId>::empty(),
    {
        let members = Members::from_council(council);
        proof {
            assert(members.council@.contains(council@[0]@));
            crate::text_map::lemma_map_len(members.council.items.entries@);
        }
        Self {
            members,
            config: Config::new(name, purpose),
            proposals: Ledger::new(),
            bounties: Ledger::new(),
            miscellaneous: Ledger::new(),
            referrals: Ledger::new(),
            referral_tokens: TextMap::new(),
        }
    }
}

} // verus!
