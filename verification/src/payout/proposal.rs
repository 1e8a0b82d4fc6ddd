//! Proposals: requests for a budget, paid to the proposer once approved.

use vstd::prelude::*;

use crate::contract::{due, Contract};
use crate::error::Error;
use crate::ledger::{
    lemma_ledger_removal, lemma_ledger_vote_not_repeated, lemma_record_counted, submitted,
};
use crate::payout::{transfers_view, Payout, PayoutInput, PayoutStatus, ResourceLink, Transfers};
use crate::types::{AccountId, Action, USD};
use crate::validation::{assert_valid_resource_url, valid_resource_url};

verus! {

pub type ProposalPayout = Payout<Proposal>;

#[derive(Clone, Debug, PartialEq, Eq)]
pub enum Proposal {
    Hackathon {
        /// number of expected registrations in the hackathon
        expected_registrations: u64,
        /// estimated budget required for the hackathon, in dollars
        estimated_budget: USD,
        /// s3 link to a PDF with details of the proposal
        supporting_document: ResourceLink,
    },
    MemeContest {
        /// number of expected registrations in the meme contest
        expected_registrations: u64,
        /// estimated budget required for the meme contest, in dollars
        estimated_budget: USD,
        /// s3 link to a PDF with details of the proposal
        supporting_document: ResourceLink,
    },
    Open {
        /// estimated budget required for the proposal, in dollars
        estimated_budget: USD,
        /// s3 link to a PDF with details of the proposal
        supporting_document: ResourceLink,
    },
}

impl Proposal {
    /// The budget that the proposal asks for.
    pub open spec fn budget(&self) -> USD {
        match self {
            Proposal::Hackathon { estimated_budget, .. } => *estimated_budget,
            Proposal::MemeContest { estimated_budget, .. } => *estimated_budget,
            Proposal::Open { estimated_budget, .. } => *estimated_budget,
        }
    }

    /// The link to the document behind the proposal.
    pub open spec fn document(&self) -> Seq<char> {
        match self {
            Proposal::Hackathon { supporting_document, .. } => supporting_document@,
            Proposal::MemeContest { supporting_document, .. } => supporting_document@,
            Proposal::Open { supporting_document, .. } => supporting_document@,
        }
    }

    /// A proposal is acceptable when its document is an acceptable link.
    pub open spec fn valid(&self) -> bool {
        valid_resource_url(self.document())
    }

    /// Accepts the proposals that are `valid`.
    pub fn validate(&self) -> (res: Result<(), Error>)
        ensures
            res == (if self.valid() {
                Ok::<(), Error>(())
            } else {
                Err::<(), Error>(Error::InvalidInput)
            }),
    {
        match self {
            Proposal::Hackathon { supporting_document, .. } => {
                assert_valid_resource_url(supporting_document.as_str())
            },
            Proposal::MemeContest { supporting_document, .. } => {
                assert_valid_resource_url(supporting_document.as_str())
            },
            Proposal::Open { supporting_document, .. } => {
                assert_valid_resource_url(supporting_document.as_str())
            },
        }
    }
}

/// What an approved proposal pays: its budget, to the proposer.
pub open spec fn proposal_schedule(proposer: Seq<char>, info: Proposal) -> Seq<(Seq<char>, USD)> {
    seq![(proposer, info.budget())]
}

/// The payments that fall due when the proposal is approved.
pub fn proposal_transfers(payout: &ProposalPayout) -> (transfers: Transfers)
    ensures
        transfers_view(transfers@) == proposal_schedule(payout.proposer@, payout.info),
{
    let transfer_amount = match &payout.info {
        Proposal::Hackathon { estimated_budget, .. } => *estimated_budget,
        Proposal::MemeContest { estimated_budget, .. } => *estimated_budget,
        Proposal::Open { estimated_budget, .. } => *estimated_budget,
    };
    let mut transfers: Transfers = Vec::new();
    transfers.push((payout.proposer.clone(), transfer_amount));
    transfers
}

impl Contract {
    /// What submitting a proposal comes to. A proposal that is not `valid`
    /// is refused as invalid input; a valid one is refused when the ids are
    /// used up; any other becomes the next record, under consideration. A
    /// refusal changes nothing.
    pub open spec fn proposal_added(
        self,
        after: Contract,
        proposer: Seq<char>,
        payout: PayoutInput<Proposal>,
        res: Result<u64, Error>,
    ) -> bool {
        if !payout.information.valid() {
            res == Err::<u64, Error>(Error::InvalidInput) && after.same_as(&self)
        } else if self.proposals.last_id == u64::MAX {
            res == Err::<u64, Error>(Error::IdSpaceExhausted) && after.same_as(&self)
        } else {
            &&& res == Ok::<u64, Error>((self.proposals.last_id + 1) as u64)
            &&& after.proposals.extends(&self.proposals, submitted(proposer, payout))
            &&& after.same_people(&self)
            &&& after.same_but_proposals(&self)
        }
    }

    /// What an action of `signer` on a proposal comes to. A refused action
    /// changes nothing. An accepted one changes the record alone, and hands
    /// over the schedule of the proposal if the record is approved by it.
    pub open spec fn proposal_acted(
        self,
        after: Contract,
        signer: Seq<char>,
        id: u64,
        action: Action,
        note: Option<String>,
        res: Result<Option<Transfers>, Error>,
    ) -> bool {
        match self.proposals.act(
            id,
            signer,
            self.members.council@.contains(signer),
            self.council_size(),
            action,
            note,
            Error::ProposalNotFound,
        ) {
            Err(e) => res == Err::<Option<Transfers>, Error>(e) && after.same_as(&self),
            Ok(record) => {
                &&& after.proposals.differs_at(&self.proposals, id)
                &&& after.proposals.record(id)@ == record
                &&& after.same_people(&self)
                &&& after.same_but_proposals(&self)
                &&& res matches Ok(transfers) && due(
                    transfers,
                    record.status is Approved,
                    proposal_schedule(record.proposer, record.info),
                )
            },
        }
    }

    /// create a proposal payout
    pub fn add_payout_proposal(&mut self, proposer: AccountId, payout: PayoutInput<Proposal>) -> (res:
        Result<u64, Error>)
        requires
            old(self).wf(),
        ensures
            final(self).wf(),
            old(self).proposal_added(*final(self), proposer@, payout, res),
    {
        // validate input
        match payout.information.validate() {
            Err(e) => {
                return Err(e);
            },
            Ok(()) => {},
        }
        // anyone can create this, no permission checks needed
        // add the proposal to Contract.proposals
        self.proposals.submit(proposer, payout)
    }

    /// act on a proposal payout
    pub fn act_payout_proposal(
        &mut self,
        signer: &AccountId,
        id: u64,
        action: Action,
        note: Option<String>,
    ) -> (res: Result<Option<Transfers>, Error>)
        requires
            old(self).wf(),
        ensures
            final(self).wf(),
            old(self).proposal_acted(*final(self), signer@, id, action, note, res),
    {
        let is_council_member = self.members.is_council_member(signer);
        let council_size = self.members.get_council_size() as u64;
        // check if proposal with id exists
        match self.proposals.act_payout(
            is_council_member,
            council_size,
            signer,
            id,
            action,
            note,
            Error::ProposalNotFound,
        ) {
            Err(e) => {
                return Err(e);
            },
            Ok(()) => {},
        }
        let proposal = self.proposals.get(id).unwrap();
        // check if payout state is approved
        if proposal.status.is_approved() {
            Ok(Some(proposal_transfers(proposal)))
        } else {
            Ok(None)
        }
    }
}

/// Every proposal on record holds as many votes as its counters say together,
/// and no more than the council has members.
pub proof fn lemma_proposal_votes_counted(contract: Contract, id: u64)
    requires
        contract.wf(),
        contract.proposals.contains(id),
    ensures
        contract.proposals.record(id)@.votes.len() == contract.proposals.record(
            id,
        )@.approve_count + contract.proposals.record(id)@.reject_count
            <= contract.council_size(),
{
    lemma_record_counted(contract.proposals, contract.council_size(), id);
}

/// Once a proposal has been approved, rejected or removed, no vote on it and
/// no removal of it is accepted, and the attempt changes nothing.
pub proof fn lemma_proposal_final(
    before: Contract,
    after: Contract,
    signer: Seq<char>,
    id: u64,
    action: Action,
    note: Option<String>,
    res: Result<Option<Transfers>, Error>,
)
    requires
        before.proposals.contains(id),
        !(before.proposals.record(id).status is UnderConsideration),
        before.proposal_acted(after, signer, id, action, note, res),
    ensures
        res is Err,
        after.same_as(&before),
{
}

/// A vote on a proposal that was accepted is refused as already cast when the
/// same signer casts it again.
pub proof fn lemma_proposal_vote_not_repeated(
    before: Contract,
    between: Contract,
    after: Contract,
    signer: Seq<char>,
    id: u64,
    action: Action,
    note: Option<String>,
    again: Option<String>,
    first: Result<Option<Transfers>, Error>,
    second: Result<Option<Transfers>, Error>,
)
    requires
        action.is_vote(),
        before.proposal_acted(between, signer, id, action, note, first),
        first is Ok,
        between.proposal_acted(after, signer, id, action, again, second),
    ensures
        second == Err::<Option<Transfers>, Error>(Error::AlreadyVoted),
        after.same_as(&between),
{
    lemma_ledger_vote_not_repeated(
        before.proposals,
        between.proposals,
        id,
        signer,
        before.members.council@.contains(signer),
        before.council_size(),
        action,
        note,
        again,
        Error::ProposalNotFound,
    );
}

/// The removal of a proposal is accepted only from its proposer and only while
/// it is under consideration; any other removal of a proposal on record is
/// refused as not permitted.
pub proof fn lemma_proposal_removal(
    before: Contract,
    after: Contract,
    signer: Seq<char>,
    id: u64,
    note: Option<String>,
    res: Result<Option<Transfers>, Error>,
)
    requires
        before.proposals.contains(id),
        before.proposal_acted(after, signer, id, Action::RemovePayout, note, res),
    ensures
        res is Ok <==> signer == before.proposals.record(id).proposer@ && before.proposals.record(
            id,
        ).status is UnderConsideration,
        res is Ok ==> after.proposals.record(id).status == PayoutStatus::Removed(note),
        res is Err ==> res == Err::<Option<Transfers>, Error>(Error::NotPermitted),
{
    lemma_ledger_removal(
        before.proposals,
        id,
        signer,
        before.members.council@.contains(signer),
        before.council_size(),
        note,
        Error::ProposalNotFound,
    );
}

/// The payments of a proposal fall due once. After the call that approved the
/// proposal and handed its schedule over, every action on the proposal is
/// refused, so that no call hands the schedule over again.
pub proof fn lemma_proposal_due_once(
    before: Contract,
    between: Contract,
    after: Contract,
    signer: Seq<char>,
    other: Seq<char>,
    id: u64,
    action: Action,
    later: Action,
    note: Option<String>,
    later_note: Option<String>,
    first: Result<Option<Transfers>, Error>,
    second: Result<Option<Transfers>, Error>,
)
    requires
        before.proposal_acted(between, signer, id, action, note, first),
        first is Ok && first->Ok_0 is Some,
        between.proposal_acted(after, other, id, later, later_note, second),
    ensures
        second is Err,
        after.same_as(&between),
{
}

} // verus!
