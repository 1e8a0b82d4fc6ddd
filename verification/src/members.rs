//! The council and the roster of ambassadors.

use vstd::prelude::*;

use crate::contract::Contract;
use crate::text_map::{TextMap, TextSet};
use crate::types::{AccountId, ReferralToken};

verus! {

#[derive(Clone, Debug, PartialEq, Eq)]
pub struct AmbassadorProfile {
    pub id: u64,
    pub referral_token: ReferralToken,
    pub registration_referral_used: bool,
}

#[derive(Clone, Debug, PartialEq, Eq)]
pub struct Members {
    /// council-member-account-id
    pub council: TextSet,
    // the id of the last ambassador
    pub last_ambassador_id: u64,
    /// <ambassador-account-id, ambassador-referral-token>
    pub ambassadors: TextMap<AmbassadorProfile>,
}

/// The names that occur in a list of accounts.
pub open spec fn names(accounts: Seq<AccountId>) -> Set<Seq<char>> {
    Set::new(|name: Seq<char>| exists|i: int| 0 <= i < accounts.len() && #[trigger] accounts[i]@ == name)
}

/// The roster after the registration referral of `account` has been used:
/// the profile of the account says so, and nothing else has changed. An
/// account without a profile leaves the roster as it is.
pub open spec fn marked(roster: Map<Seq<char>, AmbassadorProfile>, account: Seq<char>) -> Map<
    Seq<char>,
    AmbassadorProfile,
> {
    if roster.contains_key(account) {
        roster.insert(
            account,
            AmbassadorProfile { registration_referral_used: true, ..roster[account] },
        )
    } else {
        roster
    }
}

impl Members {
    /// Neither the council nor the roster names an account twice.
    pub open spec fn wf(&self) -> bool {
        &&& self.council.wf()
        &&& self.ambassadors.wf()
    }

    /// Whether neither the council nor the roster names an account twice.
    pub fn is_well_formed(&self) -> (ok: bool)
        ensures
            ok == self.wf(),
    {
        self.council.is_well_formed() && self.ambassadors.is_well_formed()
    }

    /// create a new members struct
    pub fn new() -> (members: Self)
        ensures
            members.wf(),
            members.council@ == Set::<Seq<char>>::empty(),
            members.last_ambassador_id == 0,
            members.ambassadors@ == Map::<Seq<char>, AmbassadorProfile>::empty(),
    {
        Members { council: TextSet::new(), last_ambassador_id: 0, ambassadors: TextMap::new() }
    }

    /// creates a new members struct with given council ids and referral tokens
    pub fn from_council(input: Vec<AccountId>) -> (members: Self)
        ensures
            members.wf(),
            members.council@ == names(input@),
            members.last_ambassador_id == 0,
            members.ambassadors@ == Map::<Seq<char>, AmbassadorProfile>::empty(),
    {
        let mut council = TextSet::new();
        let mut i: usize = 0;
        while i < input.len()
            invariant
                i <= input@.len(),
                council.wf(),
                council@ == names(input@.take(i as int)),
            decreases input@.len() - i,
        {
            council.insert(input[i].clone());
            proof {
                let before = input@.take(i as int);
                let after = input@.take(i + 1);
                assert forall|name: Seq<char>|
                    names(after).contains(name) <==> names(before).insert(input@[i as int]@).contains(
                        name,
                    ) by {
                    if name == input@[i as int]@ {
                        assert(after[i as int]@ == name);
                    }
                }
            }
            i += 1;
        }
        assert(input@.take(i as int) =~= input@);
        Members { council, last_ambassador_id: 0, ambassadors: TextMap::new() }
    }

    /// if the given account ID is a member of the council
    pub fn is_council_member(&self, account_id: &AccountId) -> (yes: bool)
        ensures
            yes == self.council@.contains(account_id@),
    {
        self.council.contains(account_id)
    }

    /// get size of council
    pub fn get_council_size(&self) -> (size: usize)
        requires
            self.wf(),
        ensures
            self.council@.finite(),
            size == self.council@.len(),
    {
        self.council.len()
    }

    /// if the given account ID is a member of the council
    pub fn is_registered_ambassador(&self, account_id: &AccountId) -> (yes: bool)
        ensures
            yes == self.ambassadors@.contains_key(account_id@),
    {
        self.ambassadors.contains_key(account_id)
    }

    /// add a new member in the ambassadors field
    pub fn add_ambassador(
        &mut self,
        account_id: AccountId,
        referral_token: ReferralToken,
        registration_referral_used: bool,
    ) -> (id: u64)
        requires
            old(self).wf(),
            old(self).last_ambassador_id < u64::MAX,
        ensures
            final(self).wf(),
            id == old(self).last_ambassador_id + 1,
            final(self).last_ambassador_id == id,
            final(self).council == old(self).council,
            final(self).ambassadors@ == old(self).ambassadors@.insert(
                account_id@,
                (AmbassadorProfile { id, referral_token, registration_referral_used }),
            ),
    {
        let id = self.last_ambassador_id + 1;
        self.ambassadors.insert(
            account_id,
            AmbassadorProfile { id, referral_token, registration_referral_used },
        );
        self.last_ambassador_id = id;
        id
    }
}

impl Members {
    /// Records that the registration referral of the account has been used.
    pub fn mark_registration_referral_used(&mut self, account_id: &AccountId)
        requires
            old(self).wf(),
        ensures
            final(self).wf(),
            final(self).council == old(self).council,
            final(self).last_ambassador_id == old(self).last_ambassador_id,
            final(self).ambassadors@ == marked(old(self).ambassadors@, account_id@),
    {
        let profile = match self.ambassadors.get(account_id) {
            Some(profile) => AmbassadorProfile {
                id: profile.id,
                referral_token: profile.referral_token.clone(),
                registration_referral_used: true,
            },
            None => {
                return ;
            },
        };
        self.ambassadors.insert(account_id.clone(), profile);
    }
}

impl Default for Members {
    fn default() -> (members: Self)
        ensures
            members.wf(),
            members.council@ == Set::<Seq<char>>::empty(),
            members.last_ambassador_id == 0,
            members.ambassadors@ == Map::<Seq<char>, AmbassadorProfile>::empty(),
    {
        Self::new()
    }
}

impl Contract {
    /// Returns the council members, in the order in which they were named
    pub fn get_council(&self) -> (council: Vec<AccountId>)
        ensures
            council@.len() == self.members.council.items.entries@.len(),
            forall|i: int|
                0 <= i < council@.len() ==> (#[trigger] council@[i])
                    == self.members.council.items.entries@[i].0,
            names(council@) == self.members.council@,
    {
        let entries = &self.members.council.items.entries;
        let mut council: Vec<AccountId> = Vec::new();
        let mut i: usize = 0;
        while i < entries.len()
            invariant
                i <= entries@.len(),
                council@.len() == i,
                forall|j: int| 0 <= j < i ==> (#[trigger] council@[j]) == entries@[j].0,
            decreases entries@.len() - i,
        {
            council.push(entries[i].0.clone());
            i += 1;
        }
        proof {
            let keys = crate::text_map::entry_keys(entries@);
            assert forall|name: Seq<char>| names(council@).contains(name)
                <==> self.members.council@.contains(name) by {
                if names(council@).contains(name) {
                    let j = choose|j: int| 0 <= j < council@.len() && #[trigger] council@[j]@ == name;
                    assert(keys[j] == name);
                }
                if self.members.council@.contains(name) {
                    assert(council@[keys.index_of(name)]@ == name);
                }
            }
        }
        council
    }
}

} // verus!
