//! Payout records and the rules by which votes and removals change them.

use vstd::prelude::*;

use crate::error::Error;
use crate::text_map::{entries_map, lemma_map_len, lemma_prefix_keys, lemma_push_entry, TextMap};
use crate::types::{AccountId, Action, USD};
use crate::vote::{vote_of, Vote};

pub use bounty::{Bounty, BountyPayout};
pub use miscellaneous::{Miscellaneous, MiscellaneousPayout};
pub use proposal::{Proposal, ProposalPayout};
pub use referrals::{NCDReferralKind, Referral, ReferralPayout};

pub mod bounty;
pub mod miscellaneous;
pub mod proposal;
pub mod referrals;

verus! {

/// The URL to any resource on the internet
pub type ResourceLink = String;

/// Payments that fall due together: each names the account that is paid and
/// the amount in dollars, and they are made in the order of the list.
pub type Transfers = Vec<(AccountId, USD)>;

/// A list of payments, each account reduced to its name.
pub open spec fn transfers_view(transfers: Seq<(AccountId, USD)>) -> Seq<(Seq<char>, USD)> {
    Seq::new(transfers.len(), |i: int| (transfers[i].0@, transfers[i].1))
}

/// Represents a submission
#[derive(Clone, Debug, PartialEq, Eq)]
pub struct SubmissionInfo {
    pub name: String,
    pub account_id: AccountId,
    pub submission_link: ResourceLink,
}

/// Where a payout stands. Every status but `UnderConsideration` is final.
#[derive(Clone, Debug, PartialEq, Eq)]
pub enum PayoutStatus {
    Approved,
    Rejected,
    Removed(Option<String>),
    UnderConsideration,
}

impl PayoutStatus {
    pub fn is_approved(&self) -> (yes: bool)
        ensures
            yes == (self is Approved),
    {
        matches!(self, PayoutStatus::Approved)
    }

    pub fn is_under_consideration(&self) -> (yes: bool)
        ensures
            yes == (self is UnderConsideration),
    {
        matches!(self, PayoutStatus::UnderConsideration)
    }
}

/// A generic input structure for payouts
#[derive(Clone, Debug)]
pub struct PayoutInput<T> {
    pub description: String,
    pub information: T,
}

#[derive(Clone, Copy, Debug, PartialEq, Eq)]
pub struct VotesCount {
    pub approve_count: u64,
    pub reject_count: u64,
}

impl VotesCount {
    pub fn new() -> (count: Self)
        ensures
            count.approve_count == 0,
            count.reject_count == 0,
    {
        Self { approve_count: 0, reject_count: 0 }
    }
}

impl Default for VotesCount {
    fn default() -> (count: Self)
        ensures
            count.approve_count == 0,
            count.reject_count == 0,
    {
        Self::new()
    }
}

/// A Payout is a type of payout. Depeding on the type of the Payout
/// a set of information is required.
#[derive(Clone, Debug)]
pub struct Payout<T> {
    /// the current status of the Payout
    pub status: PayoutStatus,
    /// the id of the account that created the Payout
    pub proposer: AccountId,
    /// the information needed to create a Payout depending on it's kind
    pub info: T,
    /// a brief description for the Payout
    pub description: String,
    /// the of individual votes on the Payout
    pub votes: TextMap<Vote>,
    /// the total vote count, updated whenever the votes are updated
    pub votes_count: VotesCount,
}

/// What a payout record says, with each account reduced to its name.
pub struct PayoutView<T> {
    pub status: PayoutStatus,
    pub proposer: Seq<char>,
    pub info: T,
    pub description: Seq<char>,
    pub votes: Map<Seq<char>, Vote>,
    pub approve_count: nat,
    pub reject_count: nat,
}

/// The voters who cast the given vote.
pub open spec fn voters_of(votes: Map<Seq<char>, Vote>, vote: Vote) -> Set<Seq<char>> {
    Set::new(|voter: Seq<char>| votes.contains_key(voter) && votes[voter] == vote)
}

/// How many voters cast the given vote.
pub open spec fn tally(votes: Map<Seq<char>, Vote>, vote: Vote) -> nat {
    voters_of(votes, vote).len()
}

/// The status that a tally gives once a vote has been counted. Nothing is
/// decided before the whole council has voted; then approval by at least
/// half of the votes approves, so that a tie approves.
pub open spec fn tally_status(approve: nat, reject: nat, council_size: nat) -> PayoutStatus {
    if approve + reject == council_size {
        if 2 * approve >= approve + reject {
            PayoutStatus::Approved
        } else {
            PayoutStatus::Rejected
        }
    } else {
        PayoutStatus::UnderConsideration
    }
}

impl<T> PayoutView<T> {
    /// The counters agree with the votes, and no more votes are counted than
    /// the council has members. While a record is under consideration at
    /// least one member has yet to vote.
    pub open spec fn wf(self, council_size: nat) -> bool {
        &&& self.votes.dom().finite()
        &&& self.approve_count == tally(self.votes, Vote::Approve)
        &&& self.reject_count == tally(self.votes, Vote::Reject)
        &&& self.approve_count + self.reject_count <= council_size
        &&& self.status is UnderConsideration ==> self.approve_count + self.reject_count
            < council_size
    }

    /// The record after `voter` has cast `vote`, the tally taken anew.
    pub open spec fn with_vote(self, voter: Seq<char>, vote: Vote, council_size: nat) -> Self {
        let approve = if vote is Approve {
            self.approve_count + 1
        } else {
            self.approve_count
        };
        let reject = if vote is Reject {
            self.reject_count + 1
        } else {
            self.reject_count
        };
        PayoutView {
            status: tally_status(approve, reject, council_size),
            votes: self.votes.insert(voter, vote),
            approve_count: approve,
            reject_count: reject,
            ..self
        }
    }

    /// What an action of `signer` does to the record: the record that
    /// follows, or the error with which the action is refused.
    ///
    /// Removal is for the proposer, while the record is under
    /// consideration. A vote is for a council member who has not voted on
    /// the record, while it is under consideration; the three conditions are
    /// tested in this order.
    pub open spec fn act(
        self,
        signer: Seq<char>,
        is_council_member: bool,
        council_size: nat,
        action: Action,
        note: Option<String>,
    ) -> Result<Self, Error> {
        if action is RemovePayout {
            if signer != self.proposer || !(self.status is UnderConsideration) {
                Err(Error::NotPermitted)
            } else {
                Ok(PayoutView { status: PayoutStatus::Removed(note), ..self })
            }
        } else if !is_council_member {
            Err(Error::NotPermitted)
        } else if self.votes.contains_key(signer) {
            Err(Error::AlreadyVoted)
        } else if !(self.status is UnderConsideration) {
            Err(Error::NotUnderConsideration)
        } else {
            Ok(self.with_vote(signer, vote_of(action), council_size))
        }
    }
}

impl<T> View for Payout<T> {
    type V = PayoutView<T>;

    open spec fn view(&self) -> PayoutView<T> {
        PayoutView {
            status: self.status,
            proposer: self.proposer@,
            info: self.info,
            description: self.description@,
            votes: self.votes@,
            approve_count: self.votes_count.approve_count as nat,
            reject_count: self.votes_count.reject_count as nat,
        }
    }
}

/// Without votes both tallies are zero.
pub proof fn lemma_tally_empty()
    ensures
        tally(Map::<Seq<char>, Vote>::empty(), Vote::Approve) == 0,
        tally(Map::<Seq<char>, Vote>::empty(), Vote::Reject) == 0,
{
    let none = Map::<Seq<char>, Vote>::empty();
    assert(voters_of(none, Vote::Approve) =~= Set::empty());
    assert(voters_of(none, Vote::Reject) =~= Set::empty());
}

/// Every voter is counted once: as an approval or as a rejection.
pub proof fn lemma_tally_total(votes: Map<Seq<char>, Vote>)
    requires
        votes.dom().finite(),
    ensures
        tally(votes, Vote::Approve) + tally(votes, Vote::Reject) == votes.len(),
{
    let approvals = voters_of(votes, Vote::Approve);
    let rejections = voters_of(votes, Vote::Reject);
    vstd::set_lib::lemma_len_subset(approvals, votes.dom());
    vstd::set_lib::lemma_len_subset(rejections, votes.dom());
    vstd::set_lib::lemma_set_disjoint_lens(approvals, rejections);
    assert(approvals + rejections =~= votes.dom());
}

/// A first vote of a voter raises the tally of that vote by one and leaves
/// the other tally as it was.
pub proof fn lemma_tally_insert(votes: Map<Seq<char>, Vote>, voter: Seq<char>, vote: Vote)
    requires
        votes.dom().finite(),
        !votes.contains_key(voter),
    ensures
        votes.insert(voter, vote).dom().finite(),
        tally(votes.insert(voter, vote), vote) == tally(votes, vote) + 1,
        forall|other: Vote|
            other != vote ==> tally(votes.insert(voter, vote), other) == tally(votes, other),
{
    let after = votes.insert(voter, vote);
    let same = voters_of(votes, vote);
    let same_after = voters_of(after, vote);
    vstd::set_lib::lemma_len_subset(same, votes.dom());
    assert(same_after =~= same.insert(voter));
    assert forall|other: Vote| other != vote implies tally(after, other) == tally(
        votes,
        other,
    ) by {
        assert(voters_of(after, other) =~= voters_of(votes, other));
    }
}

/// In a sound record the votes are as many as both counters say together,
/// and no more than the council has members.
pub proof fn lemma_votes_counted<T>(record: PayoutView<T>, council_size: nat)
    requires
        record.wf(council_size),
    ensures
        record.votes.len() == record.approve_count + record.reject_count <= council_size,
{
    lemma_tally_total(record.votes);
}

/// An accepted action leaves a sound record sound.
pub proof fn lemma_act_keeps_sound<T>(
    record: PayoutView<T>,
    signer: Seq<char>,
    is_council_member: bool,
    council_size: nat,
    action: Action,
    note: Option<String>,
)
    requires
        record.wf(council_size),
    ensures
        record.act(signer, is_council_member, council_size, action, note) matches Ok(after)
            ==> after.wf(council_size),
{
    if action.is_vote() && !record.votes.contains_key(signer) {
        lemma_tally_insert(record.votes, signer, vote_of(action));
    }
}

/// A vote is decided by the tally alone, and only when the council is
/// complete: until then the record stays under consideration; then it is
/// approved if at least half of the votes approve, and rejected if not.
pub proof fn lemma_last_vote_decides<T>(
    record: PayoutView<T>,
    signer: Seq<char>,
    council_size: nat,
    action: Action,
    note: Option<String>,
)
    requires
        record.wf(council_size),
        action.is_vote(),
    ensures
        record.act(signer, true, council_size, action, note) matches Ok(after) ==> {
            &&& after.votes.len() == record.votes.len() + 1
            &&& after.status is UnderConsideration <==> after.votes.len() < council_size
            &&& after.status is Approved <==> after.votes.len() == council_size && 2
                * after.approve_count >= council_size
            &&& after.status is Rejected <==> after.votes.len() == council_size && 2
                * after.approve_count < council_size
        },
{
    lemma_act_keeps_sound(record, signer, true, council_size, action, note);
    lemma_votes_counted(record, council_size);
    match record.act(signer, true, council_size, action, note) {
        Ok(after) => {
            lemma_votes_counted(after, council_size);
        },
        Err(_) => {},
    }
}

/// Once a record has been approved, rejected or removed, every action on it
/// is refused.
pub proof fn lemma_final_record_refuses<T>(
    record: PayoutView<T>,
    signer: Seq<char>,
    is_council_member: bool,
    council_size: nat,
    action: Action,
    note: Option<String>,
)
    requires
        !(record.status is UnderConsideration),
    ensures
        record.act(signer, is_council_member, council_size, action, note) is Err,
{
}

/// The refusal of an action on a record that is no longer under
/// consideration says that the action is not permitted, or that the record is
/// not under consideration. The one exception, left out here, is the vote of
/// a council member whose vote the record holds: that one is told that the
/// vote has been cast.
pub proof fn lemma_final_record_error<T>(
    record: PayoutView<T>,
    signer: Seq<char>,
    is_council_member: bool,
    council_size: nat,
    action: Action,
    note: Option<String>,
)
    requires
        !(record.status is UnderConsideration),
        !(action.is_vote() && is_council_member && record.votes.contains_key(signer)),
    ensures
        record.act(signer, is_council_member, council_size, action, note) == Err::<
            PayoutView<T>,
            Error,
        >(Error::NotPermitted) || record.act(
            signer,
            is_council_member,
            council_size,
            action,
            note,
        ) == Err::<PayoutView<T>, Error>(Error::NotUnderConsideration),
{
}

/// A vote that was accepted cannot be cast again: the same action of the
/// same signer on the record that followed is refused as a vote already
/// cast, whatever the note.
pub proof fn lemma_vote_not_repeated<T>(
    record: PayoutView<T>,
    signer: Seq<char>,
    is_council_member: bool,
    council_size: nat,
    action: Action,
    note: Option<String>,
    again: Option<String>,
)
    requires
        action.is_vote(),
        record.act(signer, is_council_member, council_size, action, note) is Ok,
    ensures
        record.act(signer, is_council_member, council_size, action, note)->Ok_0.act(
            signer,
            is_council_member,
            council_size,
            action,
            again,
        ) == Err::<PayoutView<T>, Error>(Error::AlreadyVoted),
{
}

/// A removal is accepted exactly when the proposer asks for it while the
/// record is under consideration. It then changes the status alone, to
/// `Removed` with the note. From any other signer, or in any other status, it
/// is refused as not permitted.
pub proof fn lemma_removal<T>(
    record: PayoutView<T>,
    signer: Seq<char>,
    is_council_member: bool,
    council_size: nat,
    note: Option<String>,
)
    ensures
        match record.act(signer, is_council_member, council_size, Action::RemovePayout, note) {
            Ok(after) => {
                &&& signer == record.proposer
                &&& record.status is UnderConsideration
                &&& after == PayoutView { status: PayoutStatus::Removed(note), ..record }
            },
            Err(e) => {
                &&& e == Error::NotPermitted
                &&& signer != record.proposer || !(record.status is UnderConsideration)
            },
        },
{
}

impl<T> Payout<T> {
    /// The record is sound for a council of the given size.
    pub open spec fn wf(&self, council_size: nat) -> bool {
        &&& self.votes.wf()
        &&& self@.wf(council_size)
    }

    /// Whether the record is sound for a council of the given size.
    pub fn is_well_formed(&self, council_size: u64) -> (ok: bool)
        ensures
            ok == self.wf(council_size as nat),
    {
        if !self.votes.is_well_formed() {
            return false;
        }
        proof {
            lemma_map_len(self.votes.entries@);
        }
        let (approve, reject) = count_votes(&self.votes);
        if approve as u64 != self.votes_count.approve_count {
            return false;
        }
        if reject as u64 != self.votes_count.reject_count {
            return false;
        }
        let sum = self.votes.entries.len() as u64;
        if self.status.is_under_consideration() {
            sum < council_size
        } else {
            sum <= council_size
        }
    }

    /// A new record of `proposer`, under consideration and without votes.
    pub fn from_input(proposer: AccountId, input: PayoutInput<T>) -> (payout: Self)
        ensures
            payout.status is UnderConsideration,
            payout.proposer == proposer,
            payout.info == input.information,
            payout.description == input.description,
            payout.votes@ == Map::<Seq<char>, Vote>::empty(),
            payout.votes.entries@.len() == 0,
            payout.votes_count.approve_count == 0,
            payout.votes_count.reject_count == 0,
            forall|council_size: nat| council_size > 0 ==> payout.wf(council_size),
    {
        let payout = Self {
            proposer,
            description: input.description,
            info: input.information,
            status: PayoutStatus::UnderConsideration,
            votes_count: VotesCount::new(),
            votes: TextMap::new(),
        };
        proof {
            lemma_tally_empty();
        }
        payout
    }
}

/// Counts the votes of each kind.
pub fn count_votes(votes: &TextMap<Vote>) -> (counts: (usize, usize))
    requires
        votes.wf(),
    ensures
        counts.0 == tally(votes@, Vote::Approve),
        counts.1 == tally(votes@, Vote::Reject),
        counts.0 + counts.1 == votes.entries@.len(),
{
    let mut approve: usize = 0;
    let mut reject: usize = 0;
    let mut i: usize = 0;
    proof {
        lemma_tally_empty();
        assert(entries_map(votes.entries@.take(0)) =~= Map::<Seq<char>, Vote>::empty());
    }
    while i < votes.entries.len()
        invariant
            i <= votes.entries@.len(),
            votes.wf(),
            approve == tally(entries_map(votes.entries@.take(i as int)), Vote::Approve),
            reject == tally(entries_map(votes.entries@.take(i as int)), Vote::Reject),
            approve + reject == i,
        decreases votes.entries@.len() - i,
    {
        proof {
            let first = votes.entries@.take(i as int);
            let entry = votes.entries@[i as int];
            lemma_prefix_keys(votes.entries@, i as int);
            lemma_map_len(first);
            lemma_push_entry(first, entry.0, entry.1);
            lemma_tally_insert(entries_map(first), entry.0@, entry.1);
        }
        match votes.entries[i].1 {
            Vote::Approve => {
                approve += 1;
            },
            Vote::Reject => {
                reject += 1;
            },
        }
        i += 1;
    }
    assert(votes.entries@.take(i as int) =~= votes.entries@);
    (approve, reject)
}

/// Applies an action of `signer` to a payout: a removal by its proposer, or
/// a vote of a council member, after which the status is decided anew. A
/// refused action leaves the payout as it was.
pub fn internal_act_payout<T>(
    is_council_member: bool,
    council_size: u64,
    payout: &mut Payout<T>,
    signer: &AccountId,
    action: Action,
    note: Option<String>,
) -> (res: Result<(), Error>)
    requires
        old(payout).wf(council_size as nat),
    ensures
        match old(payout)@.act(signer@, is_council_member, council_size as nat, action, note) {
            Ok(after) => res is Ok && final(payout)@ == after && final(payout).wf(
                council_size as nat,
            ),
            Err(e) => res == Err::<(), Error>(e) && *final(payout) == *old(payout),
        },
{
    match action {
        Action::RemovePayout => {
            // only the proposer can remove the payout
            if *signer != payout.proposer {
                return Err(Error::NotPermitted);
            }
            // payout can only be removed if it is currently under consideration
            if !payout.status.is_under_consideration() {
                return Err(Error::NotPermitted);
            }
            payout.status = PayoutStatus::Removed(note);
            Ok(())
        },
        _ => {
            // check if the user is authorized to take the action
            if !is_council_member {
                return Err(Error::NotPermitted);
            }
            // if the signer has already voted
            if payout.votes.contains_key(signer) {
                return Err(Error::AlreadyVoted);
            }
            if !payout.status.is_under_consideration() {
                return Err(Error::NotUnderConsideration);
            }
            let vote = Vote::from_action(action);
            proof {
                lemma_tally_insert(payout.votes@, signer@, vote);
            }
            payout.votes.insert(signer.clone(), vote);
            match vote {
                Vote::Approve => {
                    payout.votes_count.approve_count = payout.votes_count.approve_count + 1;
                },
                Vote::Reject => {
                    payout.votes_count.reject_count = payout.votes_count.reject_count + 1;
                },
            }
            // update payout status if needed
            internal_update_payout_status(council_size, payout);
            Ok(())
        },
    }
}

/// check the votes on a payout and update the status if needed
pub fn internal_update_payout_status<T>(council_size: u64, payout: &mut Payout<T>)
    ensures
        final(payout).status == (if old(payout).votes_count.approve_count + old(
            payout,
        ).votes_count.reject_count == council_size {
            tally_status(
                old(payout).votes_count.approve_count as nat,
                old(payout).votes_count.reject_count as nat,
                council_size as nat,
            )
        } else {
            old(payout).status
        }),
        final(payout).proposer == old(payout).proposer,
        final(payout).info == old(payout).info,
        final(payout).description == old(payout).description,
        final(payout).votes == old(payout).votes,
        final(payout).votes_count == old(payout).votes_count,
{
    let approve_count: u128 = payout.votes_count.approve_count as u128;
    let reject_count: u128 = payout.votes_count.reject_count as u128;
    let sum: u128 = approve_count + reject_count;

    // let's check if all council members have voted
    if sum == council_size as u128 {
        // if approve_count / sum >= 1/2     (i.e. at least half votes are approve)
        // therefore, 2 * approve_count >= sum
        if 2 * approve_count >= sum {
            payout.status = PayoutStatus::Approved;
        } else {
            payout.status = PayoutStatus::Rejected;
        }
    }
}

} // verus!
