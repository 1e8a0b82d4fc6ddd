//! Bounties: rewards for events held and content coordinated.

use vstd::prelude::*;

use crate::amounts;
use crate::contract::{due, Contract};
use crate::error::Error;
use crate::ledger::{
    lemma_ledger_removal, lemma_ledger_vote_not_repeated, lemma_record_counted, submitted,
};
use crate::payout::{transfers_view, Payout, PayoutInput, PayoutStatus, ResourceLink, SubmissionInfo, Transfers};
use crate::types::{AccountId, Action, USD};
use crate::validation::{assert_valid_resource_url, valid_resource_url};

verus! {

pub type BountyPayout = Payout<Bounty>;

#[derive(Clone, Debug, PartialEq, Eq)]
pub enum Bounty {
    HackathonCompletion {
        /// number of registrations
        num_of_registrations: u64,
        /// number of submissions
        num_of_submissions: u64,
        /// information of the winners
        /// order of the winners w.r.to their ranks
        winners_info: Vec<SubmissionInfo>,
    },
    MemeContestCompletion {
        /// number of registrations
        num_of_registrations: u64,
        /// number of submissions
        num_of_submissions: u64,
        /// information of the winners
        /// order of the winners w.r.to their ranks
        winners_info: Vec<SubmissionInfo>,
    },
    Webinar {
        /// number of registrations
        num_of_registrations: u64,
        /// number of attendees
        num_of_attendees: u64,
        /// link to the webinar meeting
        webinar_link: ResourceLink,
    },
    ContentCoordination {
        /// a list of links to the content
        content_links: Vec<ResourceLink>,
        /// a brief summary about the story of creation of the content
        story: String,
        /// a list of the name of tools used
        tools_used: Vec<String>,
    },
}

/// The most registrations that a contest may report.
pub const REGISTRATIONS_LIMIT: u64 = 20;

/// The most attendees that a webinar may report.
pub const ATTENDEES_LIMIT: u64 = 50;

/// The number of ranked winners of a contest.
pub const WINNERS: usize = 3;

impl Bounty {
    /// A contest names exactly three winners, by rank.
    pub open spec fn podium_complete(&self) -> bool {
        match self {
            Bounty::HackathonCompletion { winners_info, .. } => winners_info@.len() == WINNERS,
            Bounty::MemeContestCompletion { winners_info, .. } => winners_info@.len() == WINNERS,
            _ => true,
        }
    }

    /// Whether a contest names exactly three winners.
    pub fn is_podium_complete(&self) -> (ok: bool)
        ensures
            ok == self.podium_complete(),
    {
        match self {
            Bounty::HackathonCompletion { winners_info, .. } => winners_info.len() == WINNERS,
            Bounty::MemeContestCompletion { winners_info, .. } => winners_info.len() == WINNERS,
            _ => true,
        }
    }

    /// A contest stays within the limit of registrations and names its three
    /// winners; a webinar stays within the limit of attendees and gives an
    /// acceptable link; coordinated content comes with links, a story and
    /// tools, none of them empty.
    pub open spec fn valid(&self) -> bool {
        match self {
            Bounty::HackathonCompletion { num_of_registrations, winners_info, .. } => {
                *num_of_registrations <= REGISTRATIONS_LIMIT && winners_info@.len() == WINNERS
            },
            Bounty::MemeContestCompletion { num_of_registrations, winners_info, .. } => {
                *num_of_registrations <= REGISTRATIONS_LIMIT && winners_info@.len() == WINNERS
            },
            Bounty::Webinar { num_of_attendees, webinar_link, .. } => {
                *num_of_attendees <= ATTENDEES_LIMIT && valid_resource_url(webinar_link@)
            },
            Bounty::ContentCoordination { content_links, story, tools_used } => {
                content_links@.len() > 0 && story@.len() > 0 && tools_used@.len() > 0
            },
        }
    }

    /// Accepts the payloads that are `valid`.
    pub fn validate(&self) -> (res: Result<(), Error>)
        ensures
            res == (if self.valid() {
                Ok::<(), Error>(())
            } else {
                Err::<(), Error>(Error::InvalidInput)
            }),
    {
        match self {
            Bounty::HackathonCompletion { num_of_registrations, winners_info, .. } => {
                if *num_of_registrations > REGISTRATIONS_LIMIT {
                    return Err(Error::InvalidInput);
                }
                if winners_info.len() != WINNERS {
                    return Err(Error::InvalidInput);
                }
                Ok(())
            },
            Bounty::MemeContestCompletion { num_of_registrations, winners_info, .. } => {
                if *num_of_registrations > REGISTRATIONS_LIMIT {
                    return Err(Error::InvalidInput);
                }
                if winners_info.len() != WINNERS {
                    return Err(Error::InvalidInput);
                }
                Ok(())
            },
            Bounty::Webinar { num_of_attendees, webinar_link, .. } => {
                if *num_of_attendees > ATTENDEES_LIMIT {
                    return Err(Error::InvalidInput);
                }
                assert_valid_resource_url(webinar_link.as_str())
            },
            Bounty::ContentCoordination { content_links, story, tools_used } => {
                if content_links.len() == 0 {
                    return Err(Error::InvalidInput);
                }
                if story.as_str().is_empty() {
                    return Err(Error::InvalidInput);
                }
                if tools_used.len() == 0 {
                    return Err(Error::InvalidInput);
                }
                Ok(())
            },
        }
    }
}

/// What an approved bounty pays. A contest pays the proposer for holding it
/// and then the winners by rank; a webinar and coordinated content pay the
/// proposer alone.
pub open spec fn bounty_schedule(proposer: Seq<char>, info: Bounty) -> Seq<(Seq<char>, USD)> {
    match info {
        Bounty::HackathonCompletion { winners_info, .. } => seq![
            (proposer, amounts::HACKATHON_COMPLETION_AMOUNT),
            (winners_info@[0].account_id@, amounts::HACKATHON_FIRST_PLACE_AMOUNT),
            (winners_info@[1].account_id@, amounts::HACKATHON_SECOND_PLACE_AMOUNT),
            (winners_info@[2].account_id@, amounts::HACKATHON_THIRD_PLACE_AMOUNT),
        ],
        Bounty::MemeContestCompletion { winners_info, .. } => seq![
            (proposer, amounts::MEME_CONTEST_COMPLETION_AMOUNT),
            (winners_info@[0].account_id@, amounts::MEME_CONTEST_FIRST_PLACE_AMOUNT),
            (winners_info@[1].account_id@, amounts::MEME_CONTEST_SECOND_PLACE_AMOUNT),
            (winners_info@[2].account_id@, amounts::MEME_CONTEST_THIRD_PLACE_AMOUNT),
        ],
        Bounty::Webinar { .. } => seq![(proposer, amounts::WEBINAR_COMPLETION_AMOUNT)],
        Bounty::ContentCoordination { .. } => seq![
            (proposer, amounts::CONTENT_COORDINATION_AMOUNT),
        ],
    }
}

/// The payments that fall due when the bounty is approved.
pub fn bounty_transfers(payout: &BountyPayout) -> (transfers: Transfers)
    requires
        payout.info.podium_complete(),
    ensures
        transfers_view(transfers@) == bounty_schedule(payout.proposer@, payout.info),
{
    let mut transfers: Transfers = Vec::new();
    match &payout.info {
        Bounty::HackathonCompletion { winners_info, .. } => {
            transfers.push((payout.proposer.clone(), amounts::HACKATHON_COMPLETION_AMOUNT));
            transfers.push(
                (winners_info[0].account_id.clone(), amounts::HACKATHON_FIRST_PLACE_AMOUNT),
            );
            transfers.push(
                (winners_info[1].account_id.clone(), amounts::HACKATHON_SECOND_PLACE_AMOUNT),
            );
            transfers.push(
                (winners_info[2].account_id.clone(), amounts::HACKATHON_THIRD_PLACE_AMOUNT),
            );
        },
        Bounty::MemeContestCompletion { winners_info, .. } => {
            transfers.push((payout.proposer.clone(), amounts::MEME_CONTEST_COMPLETION_AMOUNT));
            transfers.push(
                (winners_info[0].account_id.clone(), amounts::MEME_CONTEST_FIRST_PLACE_AMOUNT),
            );
            transfers.push(
                (winners_info[1].account_id.clone(), amounts::MEME_CONTEST_SECOND_PLACE_AMOUNT),
            );
            transfers.push(
                (winners_info[2].account_id.clone(), amounts::MEME_CONTEST_THIRD_PLACE_AMOUNT),
            );
        },
        Bounty::Webinar { .. } => {
            transfers.push((payout.proposer.clone(), amounts::WEBINAR_COMPLETION_AMOUNT));
        },
        Bounty::ContentCoordination { .. } => {
            transfers.push((payout.proposer.clone(), amounts::CONTENT_COORDINATION_AMOUNT));
        },
    }
    transfers
}

impl Contract {
    /// What submitting a bounty comes to. A payload that is not `valid`
    /// is refused as invalid input; a valid one is refused when the ids are
    /// used up; any other becomes the next record, under consideration. A
    /// refusal changes nothing.
    pub open spec fn bounty_added(
        self,
        after: Contract,
        proposer: Seq<char>,
        payout: PayoutInput<Bounty>,
        res: Result<u64, Error>,
    ) -> bool {
        if !payout.information.valid() {
            res == Err::<u64, Error>(Error::InvalidInput) && after.same_as(&self)
        } else if self.bounties.last_id == u64::MAX {
            res == Err::<u64, Error>(Error::IdSpaceExhausted) && after.same_as(&self)
        } else {
            &&& res == Ok::<u64, Error>((self.bounties.last_id + 1) as u64)
            &&& after.bounties.extends(&self.bounties, submitted(proposer, payout))
            &&& after.same_people(&self)
            &&& after.same_but_bounties(&self)
        }
    }

    /// What an action of `signer` on a bounty comes to. A refused action
    /// changes nothing. An accepted one changes the record alone, and hands
    /// over the schedule of the bounty if the record is approved by it.
    pub open spec fn bounty_acted(
        self,
        after: Contract,
        signer: Seq<char>,
        id: u64,
        action: Action,
        note: Option<String>,
        res: Result<Option<Transfers>, Error>,
    ) -> bool {
        match self.bounties.act(
            id,
            signer,
            self.members.council@.contains(signer),
            self.council_size(),
            action,
            note,
            Error::BountyNotFound,
        ) {
            Err(e) => res == Err::<Option<Transfers>, Error>(e) && after.same_as(&self),
            Ok(record) => {
                &&& after.bounties.differs_at(&self.bounties, id)
                &&& after.bounties.record(id)@ == record
                &&& after.same_people(&self)
                &&& after.same_but_bounties(&self)
                &&& res matches Ok(transfers) && due(
                    transfers,
                    record.status is Approved,
                    bounty_schedule(record.proposer, record.info),
                )
            },
        }
    }

    /// create a bounty payout
    pub fn add_payout_bounty(&mut self, proposer: AccountId, payout: PayoutInput<Bounty>) -> (res:
        Result<u64, Error>)
        requires
            old(self).wf(),
        ensures
            final(self).wf(),
            old(self).bounty_added(*final(self), proposer@, payout, res),
    {
        // validate input
        match payout.information.validate() {
            Err(e) => {
                return Err(e);
            },
            Ok(()) => {},
        }
        // anyone can create this, no permission checks needed
        let res = self.bounties.submit(proposer, payout);
        proof {
            if res is Ok {
                let before = old(self).bounties.records@;
                assert forall|i: int| 0 <= i < self.bounties.records@.len() implies (
                #[trigger] self.bounties.records@[i]).info.podium_complete() by {
                    if i < before.len() {
                        assert(self.bounties.records@.take(before.len() as int)[i] == before[i]);
                    }
                }
            }
        }
        res
    }

    /// act on a bounty payout
    pub fn act_payout_bounty(
        &mut self,
        signer: &AccountId,
        id: u64,
        action: Action,
        note: Option<String>,
    ) -> (res: Result<Option<Transfers>, Error>)
        requires
            old(self).wf(),
        ensures
            final(self).wf(),
            old(self).bounty_acted(*final(self), signer@, id, action, note, res),
    {
        let is_council_member = self.members.is_council_member(signer);
        let council_size = self.members.get_council_size() as u64;
        match self.bounties.act_payout(
            is_council_member,
            council_size,
            signer,
            id,
            action,
            note,
            Error::BountyNotFound,
        ) {
            Err(e) => {
                return Err(e);
            },
            Ok(()) => {},
        }
        let bounty = self.bounties.get(id).unwrap();
        // check if payout state is approved
        if bounty.status.is_approved() {
            Ok(Some(bounty_transfers(bounty)))
        } else {
            Ok(None)
        }
    }
}

/// Every bounty on record holds as many votes as its counters say together,
/// and no more than the council has members.
pub proof fn lemma_bounty_votes_counted(contract: Contract, id: u64)
    requires
        contract.wf(),
        contract.bounties.contains(id),
    ensures
        contract.bounties.record(id)@.votes.len() == contract.bounties.record(
            id,
        )@.approve_count + contract.bounties.record(id)@.reject_count
            <= contract.council_size(),
{
    lemma_record_counted(contract.bounties, contract.council_size(), id);
}

/// Once a bounty has been approved, rejected or removed, no vote on it and
/// no removal of it is accepted, and the attempt changes nothing.
pub proof fn lemma_bounty_final(
    before: Contract,
    after: Contract,
    signer: Seq<char>,
    id: u64,
    action: Action,
    note: Option<String>,
    res: Result<Option<Transfers>, Error>,
)
    requires
        before.bounties.contains(id),
        !(before.bounties.record(id).status is UnderConsideration),
        before.bounty_acted(after, signer, id, action, note, res),
    ensures
        res is Err,
        after.same_as(&before),
{
}

/// A vote on a bounty that was accepted is refused as already cast when the
/// same signer casts it again.
pub proof fn lemma_bounty_vote_not_repeated(
    before: Contract,
    between: Contract,
    after: Contract,
    signer: Seq<char>,
    id: u64,
    action: Action,
    note: Option<String>,
    again: Option<String>,
    first: Result<Option<Transfers>, Error>,
    second: Result<Option<Transfers>, Error>,
)
    requires
        action.is_vote(),
        before.bounty_acted(between, signer, id, action, note, first),
        first is Ok,
        between.bounty_acted(after, signer, id, action, again, second),
    ensures
        second == Err::<Option<Transfers>, Error>(Error::AlreadyVoted),
        after.same_as(&between),
{
    lemma_ledger_vote_not_repeated(
        before.bounties,
        between.bounties,
        id,
        signer,
        before.members.council@.contains(signer),
        before.council_size(),
        action,
        note,
        again,
        Error::BountyNotFound,
    );
}

/// The removal of a bounty is accepted only from its proposer and only while
/// it is under consideration; any other removal of a bounty on record is
/// refused as not permitted.
pub proof fn lemma_bounty_removal(
    before: Contract,
    after: Contract,
    signer: Seq<char>,
    id: u64,
    note: Option<String>,
    res: Result<Option<Transfers>, Error>,
)
    requires
        before.bounties.contains(id),
        before.bounty_acted(after, signer, id, Action::RemovePayout, note, res),
    ensures
        res is Ok <==> signer == before.bounties.record(id).proposer@ && before.bounties.record(
            id,
        ).status is UnderConsideration,
        res is Ok ==> after.bounties.record(id).status == PayoutStatus::Removed(note),
        res is Err ==> res == Err::<Option<Transfers>, Error>(Error::NotPermitted),
{
    lemma_ledger_removal(
        before.bounties,
        id,
        signer,
        before.members.council@.contains(signer),
        before.council_size(),
        note,
        Error::BountyNotFound,
    );
}

/// The payments of a bounty fall due once. After the call that approved the
/// bounty and handed its schedule over, every action on the bounty is
/// refused, so that no call hands the schedule over again.
pub proof fn lemma_bounty_due_once(
    before: Contract,
    between: Contract,
    after: Contract,
    signer: Seq<char>,
    other: Seq<char>,
    id: u64,
    action: Action,
    later: Action,
    note: Option<String>,
    later_note: Option<String>,
    first: Result<Option<Transfers>, Error>,
    second: Result<Option<Transfers>, Error>,
)
    requires
        before.bounty_acted(between, signer, id, action, note, first),
        first is Ok && first->Ok_0 is Some,
        between.bounty_acted(after, other, id, later, later_note, second),
    ensures
        second is Err,
        after.same_as(&between),
{
}

} // verus!
