//! Miscellaneous payouts: content, campus agreements and bonuses.

use vstd::prelude::*;

use crate::amounts;
use crate::contract::{due, Contract};
use crate::error::Error;
use crate::ledger::{
    lemma_ledger_removal, lemma_ledger_vote_not_repeated, lemma_record_counted, submitted,
};
use crate::payout::{transfers_view, Payout, PayoutInput, PayoutStatus, ResourceLink, Transfers};
use crate::types::{AccountId, Action, USD};
use crate::validation::{assert_valid_resource_url, valid_resource_url};

verus! {

pub type MiscellaneousPayout = Payout<Miscellaneous>;

#[derive(Clone, Debug, PartialEq, Eq)]
pub enum Miscellaneous {
    ContentCreationBounty {
        /// links to the content peices created
        links_to_content: Vec<ResourceLink>,
        /// the amount that the proposer is expecting to receive
        expected_amount: USD,
        /// a note/brief-description for this bounty
        note: String,
    },
    CampusSigningMOU {
        /// link to the supporting document
        supporting_document: ResourceLink,
    },
    CampusAmbassadorBonus {
        /// links to all the payouts showing credentials for getting a bonus
        links_to_payouts: Vec<ResourceLink>,
    },
}

impl Miscellaneous {
    /// Lists of links must not be empty, and the document of an agreement
    /// must be an acceptable link.
    pub open spec fn valid(&self) -> bool {
        match self {
            Miscellaneous::ContentCreationBounty { links_to_content, .. } => links_to_content@.len()
                > 0,
            Miscellaneous::CampusSigningMOU { supporting_document } => valid_resource_url(
                supporting_document@,
            ),
            Miscellaneous::CampusAmbassadorBonus { links_to_payouts } => links_to_payouts@.len() > 0,
        }
    }

    /// What the payout is worth to its proposer.
    pub open spec fn amount(&self) -> USD {
        match self {
            Miscellaneous::ContentCreationBounty { expected_amount, .. } => *expected_amount,
            Miscellaneous::CampusAmbassadorBonus { .. } => amounts::CA_BONUS_AMOUNT,
            Miscellaneous::CampusSigningMOU { .. } => amounts::CAMPUS_MOU_AMOUNT,
        }
    }

    /// Accepts the payloads that are `valid`.
    pub fn validate(&self) -> (res: Result<(), Error>)
        ensures
            res == (if self.valid() {
                Ok::<(), Error>(())
            } else {
                Err::<(), Error>(Error::InvalidInput)
            }),
    {
        match self {
            Miscellaneous::ContentCreationBounty { links_to_content, .. } => {
                if links_to_content.len() == 0 {
                    return Err(Error::InvalidInput);
                }
                Ok(())
            },
            Miscellaneous::CampusSigningMOU { supporting_document } => {
                assert_valid_resource_url(supporting_document.as_str())
            },
            Miscellaneous::CampusAmbassadorBonus { links_to_payouts } => {
                if links_to_payouts.len() == 0 {
                    return Err(Error::InvalidInput);
                }
                Ok(())
            },
        }
    }
}

/// What an approved miscellaneous payout pays: its amount, to the proposer.
pub open spec fn miscellaneous_schedule(proposer: Seq<char>, info: Miscellaneous) -> Seq<
    (Seq<char>, USD),
> {
    seq![(proposer, info.amount())]
}

/// The payments that fall due when the payout is approved.
pub fn miscellaneous_transfers(payout: &MiscellaneousPayout) -> (transfers: Transfers)
    ensures
        transfers_view(transfers@) == miscellaneous_schedule(payout.proposer@, payout.info),
{
    let amount = match &payout.info {
        Miscellaneous::ContentCreationBounty { expected_amount, .. } => *expected_amount,
        Miscellaneous::CampusAmbassadorBonus { .. } => amounts::CA_BONUS_AMOUNT,
        Miscellaneous::CampusSigningMOU { .. } => amounts::CAMPUS_MOU_AMOUNT,
    };
    let mut transfers: Transfers = Vec::new();
    transfers.push((payout.proposer.clone(), amount));
    transfers
}

impl Contract {
    /// What submitting a miscellaneous payout comes to. A payload that is not `valid`
    /// is refused as invalid input; a valid one is refused when the ids are
    /// used up; any other becomes the next record, under consideration. A
    /// refusal changes nothing.
    pub open spec fn miscellaneous_added(
        self,
        after: Contract,
        proposer: Seq<char>,
        payout: PayoutInput<Miscellaneous>,
        res: Result<u64, Error>,
    ) -> bool {
        if !payout.information.valid() {
            res == Err::<u64, Error>(Error::InvalidInput) && after.same_as(&self)
        } else if self.miscellaneous.last_id == u64::MAX {
            res == Err::<u64, Error>(Error::IdSpaceExhausted) && after.same_as(&self)
        } else {
            &&& res == Ok::<u64, Error>((self.miscellaneous.last_id + 1) as u64)
            &&& after.miscellaneous.extends(&self.miscellaneous, submitted(proposer, payout))
            &&& after.same_people(&self)
            &&& after.same_but_miscellaneous(&self)
        }
    }

    /// What an action of `signer` on a miscellaneous payout comes to. A refused action
    /// changes nothing. An accepted one changes the record alone, and hands
    /// over the schedule of the miscellaneous payout if the record is approved by it.
    pub open spec fn miscellaneous_acted(
        self,
        after: Contract,
        signer: Seq<char>,
        id: u64,
        action: Action,
        note: Option<String>,
        res: Result<Option<Transfers>, Error>,
    ) -> bool {
        match self.miscellaneous.act(
            id,
            signer,
            self.members.council@.contains(signer),
            self.council_size(),
            action,
            note,
            Error::MiscellaneousNotFound,
        ) {
            Err(e) => res == Err::<Option<Transfers>, Error>(e) && after.same_as(&self),
            Ok(record) => {
                &&& after.miscellaneous.differs_at(&self.miscellaneous, id)
                &&& after.miscellaneous.record(id)@ == record
                &&& after.same_people(&self)
                &&& after.same_but_miscellaneous(&self)
                &&& res matches Ok(transfers) && due(
                    transfers,
                    record.status is Approved,
                    miscellaneous_schedule(record.proposer, record.info),
                )
            },
        }
    }

    /// create a miscellaneous payout payout
    pub fn add_payout_miscellaneous(&mut self, proposer: AccountId, payout: PayoutInput<Miscellaneous>) -> (res:
        Result<u64, Error>)
        requires
            old(self).wf(),
        ensures
            final(self).wf(),
            old(self).miscellaneous_added(*final(self), proposer@, payout, res),
    {
        // validate input
        match payout.information.validate() {
            Err(e) => {
                return Err(e);
            },
            Ok(()) => {},
        }
        // anyone can create this, no permission checks needed
        self.miscellaneous.submit(proposer, payout)
    }

    /// act on a miscellaneous payout payout
    pub fn act_payout_miscellaneous(
        &mut self,
        signer: &AccountId,
        id: u64,
        action: Action,
        note: Option<String>,
    ) -> (res: Result<Option<Transfers>, Error>)
        requires
            old(self).wf(),
        ensures
            final(self).wf(),
            old(self).miscellaneous_acted(*final(self), signer@, id, action, note, res),
    {
        let is_council_member = self.members.is_council_member(signer);
        let council_size = self.members.get_council_size() as u64;
        match self.miscellaneous.act_payout(
            is_council_member,
            council_size,
            signer,
            id,
            action,
            note,
            Error::MiscellaneousNotFound,
        ) {
            Err(e) => {
                return Err(e);
            },
            Ok(()) => {},
        }
        let miscellaneous = self.miscellaneous.get(id).unwrap();
        // check if payout state is approved
        if miscellaneous.status.is_approved() {
            Ok(Some(miscellaneous_transfers(miscellaneous)))
        } else {
            Ok(None)
        }
    }
}

/// Every miscellaneous payout on record holds as many votes as its counters say together,
/// and no more than the council has members.
pub proof fn lemma_miscellaneous_votes_counted(contract: Contract, id: u64)
    requires
        contract.wf(),
        contract.miscellaneous.contains(id),
    ensures
        contract.miscellaneous.record(id)@.votes.len() == contract.miscellaneous.record(
            id,
        )@.approve_count + contract.miscellaneous.record(id)@.reject_count
            <= contract.council_size(),
{
    lemma_record_counted(contract.miscellaneous, contract.council_size(), id);
}

/// Once a miscellaneous payout has been approved, rejected or removed, no vote on it and
/// no removal of it is accepted, and the attempt changes nothing.
pub proof fn lemma_miscellaneous_final(
    before: Contract,
    after: Contract,
    signer: Seq<char>,
    id: u64,
    action: Action,
    note: Option<String>,
    res: Result<Option<Transfers>, Error>,
)
    requires
        before.miscellaneous.contains(id),
        !(before.miscellaneous.record(id).status is UnderConsideration),
        before.miscellaneous_acted(after, signer, id, action, note, res),
    ensures
        res is Err,
        after.same_as(&before),
{
}

/// A vote on a miscellaneous payout that was accepted is refused as already cast when the
/// same signer casts it again.
pub proof fn lemma_miscellaneous_vote_not_repeated(
    before: Contract,
    between: Contract,
    after: Contract,
    signer: Seq<char>,
    id: u64,
    action: Action,
    note: Option<String>,
    again: Option<String>,
    first: Result<Option<Transfers>, Error>,
    second: Result<Option<Transfers>, Error>,
)
    requires
        action.is_vote(),
        before.miscellaneous_acted(between, signer, id, action, note, first),
        first is Ok,
        between.miscellaneous_acted(after, signer, id, action, again, second),
    ensures
        second == Err::<Option<Transfers>, Error>(Error::AlreadyVoted),
        after.same_as(&between),
{
    lemma_ledger_vote_not_repeated(
        before.miscellaneous,
        between.miscellaneous,
        id,
        signer,
        before.members.council@.contains(signer),
        before.council_size(),
        action,
        note,
        again,
        Error::MiscellaneousNotFound,
    );
}

/// The removal of a miscellaneous payout is accepted only from its proposer and only while
/// it is under consideration; any other removal of a miscellaneous payout on record is
/// refused as not permitted.
pub proof fn lemma_miscellaneous_removal(
    before: Contract,
    after: Contract,
    signer: Seq<char>,
    id: u64,
    note: Option<String>,
    res: Result<Option<Transfers>, Error>,
)
    requires
        before.miscellaneous.contains(id),
        before.miscellaneous_acted(after, signer, id, Action::RemovePayout, note, res),
    ensures
        res is Ok <==> signer == before.miscellaneous.record(id).proposer@ && before.miscellaneous.record(
            id,
        ).status is UnderConsideration,
        res is Ok ==> after.miscellaneous.record(id).status == PayoutStatus::Removed(note),
        res is Err ==> res == Err::<Option<Transfers>, Error>(Error::NotPermitted),
{
    lemma_ledger_removal(
        before.miscellaneous,
        id,
        signer,
        before.members.council@.contains(signer),
        before.council_size(),
        note,
        Error::MiscellaneousNotFound,
    );
}

/// The payments of a miscellaneous payout fall due once. After the call that approved the
/// miscellaneous payout and handed its schedule over, every action on the miscellaneous payout is
/// refused, so that no call hands the schedule over again.
pub proof fn lemma_miscellaneous_due_once(
    before: Contract,
    between: Contract,
    after: Contract,
    signer: Seq<char>,
    other: Seq<char>,
    id: u64,
    action: Action,
    later: Action,
    note: Option<String>,
    later_note: Option<String>,
    first: Result<Option<Transfers>, Error>,
    second: Result<Option<Transfers>, Error>,
)
    requires
        before.miscellaneous_acted(between, signer, id, action, note, first),
        first is Ok && first->Ok_0 is Some,
        between.miscellaneous_acted(after, other, id, later, later_note, second),
    ensures
        second is Err,
        after.same_as(&between),
{
}

} // verus!
