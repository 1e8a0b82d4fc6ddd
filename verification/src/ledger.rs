//! The ledger of one category of payouts.
//!
//! Records are numbered from 1 in the order in which they were created. A
//! record is never taken out, and no id is given twice.

use vstd::prelude::*;

use crate::error::Error;
use crate::payout::{internal_act_payout, Payout, PayoutInput, PayoutStatus, PayoutView};
use crate::vote::Vote;
use crate::types::{AccountId, Action};

verus! {

/// How a record reads when it has just been submitted: under consideration
/// and without votes.
pub open spec fn submitted<T>(proposer: Seq<char>, input: PayoutInput<T>) -> PayoutView<T> {
    PayoutView {
        status: PayoutStatus::UnderConsideration,
        proposer,
        info: input.information,
        description: input.description@,
        votes: Map::empty(),
        approve_count: 0,
        reject_count: 0,
    }
}

/// A record together with its id, as a reader of the ledger gets it.
#[derive(Clone, Debug)]
pub struct PayoutOutput<'a, T> {
    /// Id of the payout.
    pub id: u64,
    pub payout: &'a Payout<T>,
}

/// What a list of outputs holds: each id with its record.
pub open spec fn outputs_view<'a, T>(outputs: Seq<PayoutOutput<'a, T>>) -> Seq<(u64, Payout<T>)> {
    Seq::new(outputs.len(), |i: int| (outputs[i].id, *outputs[i].payout))
}

#[derive(Clone, Debug)]
pub struct Ledger<T> {
    /// the id of the last record, which is the number of records
    pub last_id: u64,
    /// the record with id `i` stands at `i - 1`
    pub records: Vec<Payout<T>>,
}

impl<T> Ledger<T> {
    /// Whether a record has the id.
    pub open spec fn contains(&self, id: u64) -> bool {
        1 <= id <= self.last_id
    }

    /// The record with the id.
    pub open spec fn record(&self, id: u64) -> Payout<T>
        recommends
            self.contains(id),
    {
        self.records@[id - 1]
    }

    /// The ids run from 1 to `last_id` without a gap, and every record is
    /// sound for a council of the given size.
    pub open spec fn wf(&self, council_size: nat) -> bool {
        &&& self.records@.len() == self.last_id
        &&& forall|i: int|
            0 <= i < self.records@.len() ==> (#[trigger] self.records@[i]).wf(council_size)
    }

    /// Both ledgers hold the same records under the same ids.
    pub open spec fn same_as(&self, other: &Self) -> bool {
        &&& self.last_id == other.last_id
        &&& self.records@ == other.records@
    }

    /// `self` is `before` with one more record, which reads as `added`.
    pub open spec fn extends(&self, before: &Self, added: PayoutView<T>) -> bool {
        &&& self.last_id == before.last_id + 1
        &&& self.records@.len() == before.records@.len() + 1
        &&& self.records@.take(before.records@.len() as int) == before.records@
        &&& self.records@[before.records@.len() as int]@ == added
    }

    /// `self` is `before` but for the record with the id.
    pub open spec fn differs_at(&self, before: &Self, id: u64) -> bool {
        &&& self.last_id == before.last_id
        &&& self.records@.len() == before.records@.len()
        &&& forall|i: int|
            0 <= i < self.records@.len() && i != id - 1 ==> self.records@[i] == before.records@[i]
    }

    /// What an action of `signer` on the record with the id comes to: the
    /// record that follows, or the error, which is `not_found` where no
    /// record has the id.
    pub open spec fn act(
        &self,
        id: u64,
        signer: Seq<char>,
        is_council_member: bool,
        council_size: nat,
        action: Action,
        note: Option<String>,
        not_found: Error,
    ) -> Result<PayoutView<T>, Error> {
        if !self.contains(id) {
            Err(not_found)
        } else {
            self.record(id)@.act(signer, is_council_member, council_size, action, note)
        }
    }

    pub fn new() -> (ledger: Self)
        ensures
            ledger.last_id == 0,
            ledger.records@.len() == 0,
            forall|council_size: nat| ledger.wf(council_size),
    {
        Ledger { last_id: 0, records: Vec::new() }
    }

    /// Whether the ledger is sound for a council of the given size.
    pub fn is_well_formed(&self, council_size: u64) -> (ok: bool)
        ensures
            ok == self.wf(council_size as nat),
    {
        if self.records.len() as u64 != self.last_id {
            return false;
        }
        let mut i: usize = 0;
        while i < self.records.len()
            invariant
                i <= self.records@.len(),
                forall|j: int| 0 <= j < i ==> (#[trigger] self.records@[j]).wf(council_size as nat),
            decreases self.records@.len() - i,
        {
            if !self.records[i].is_well_formed(council_size) {
                return false;
            }
            i += 1;
        }
        true
    }

    /// Stores a new record under the next id and returns that id. When the
    /// ids are used up nothing is stored.
    pub fn create(&mut self, payout: Payout<T>) -> (res: Result<u64, Error>)
        requires
            old(self).records@.len() == old(self).last_id,
        ensures
            match res {
                Ok(id) => {
                    &&& id == old(self).last_id + 1
                    &&& final(self).last_id == id
                    &&& final(self).records@ == old(self).records@.push(payout)
                },
                Err(e) => {
                    &&& e == Error::IdSpaceExhausted
                    &&& old(self).last_id == u64::MAX
                    &&& final(self).same_as(old(self))
                },
            },
    {
        if self.last_id == u64::MAX {
            return Err(Error::IdSpaceExhausted);
        }
        let new_id = self.last_id + 1;
        self.records.push(payout);
        self.last_id = new_id;
        Ok(new_id)
    }

    /// Stores what `proposer` submits as a new record under consideration
    /// and returns the id of the record. When the ids are used up nothing is
    /// stored.
    pub fn submit(&mut self, proposer: AccountId, input: PayoutInput<T>) -> (res: Result<
        u64,
        Error,
    >)
        requires
            old(self).records@.len() == old(self).last_id,
        ensures
            match res {
                Ok(id) => {
                    &&& id == old(self).last_id + 1
                    &&& final(self).extends(old(self), submitted(proposer@, input))
                    &&& forall|council_size: nat|
                        council_size > 0 && old(self).wf(council_size) ==> final(self).wf(
                            council_size,
                        )
                },
                Err(e) => {
                    &&& e == Error::IdSpaceExhausted
                    &&& old(self).last_id == u64::MAX
                    &&& final(self).same_as(old(self))
                },
            },
    {
        let payout = Payout::from_input(proposer, input);
        let res = self.create(payout);
        proof {
            if res is Ok {
                assert(self.records@.take(old(self).records@.len() as int) =~= old(
                    self,
                ).records@);
            }
        }
        res
    }

    /// Where the record with the id stands among the records, if there is
    /// one.
    pub fn position(&self, id: u64) -> (place: Option<usize>)
        requires
            self.records@.len() == self.last_id,
        ensures
            match place {
                Some(at) => self.contains(id) && at == id - 1,
                None => !self.contains(id),
            },
    {
        if id == 0 || id > self.records.len() as u64 {
            None
        } else {
            Some((id - 1) as usize)
        }
    }

    /// The record with the id, if there is one.
    pub fn get(&self, id: u64) -> (found: Option<&Payout<T>>)
        requires
            self.records@.len() == self.last_id,
        ensures
            match found {
                Some(payout) => self.contains(id) && *payout == self.record(id),
                None => !self.contains(id),
            },
    {
        match self.position(id) {
            Some(at) => Some(&self.records[at]),
            None => None,
        }
    }

    /// Stores the record under an id that is in use, in place of the record
    /// that was there. Under any other id nothing is stored.
    pub fn put(&mut self, id: u64, payout: Payout<T>) -> (stored: bool)
        requires
            old(self).records@.len() == old(self).last_id,
        ensures
            stored == old(self).contains(id),
            stored ==> final(self).differs_at(old(self), id) && final(self).record(id) == payout,
            !stored ==> final(self).same_as(old(self)),
    {
        match self.position(id) {
            Some(at) => {
                self.records.set(at, payout);
                true
            },
            None => false,
        }
    }

    /// The first id of the page that begins at `from_index`. The ids begin
    /// at 1.
    pub open spec fn page_first(from_index: u64) -> int {
        if from_index == 0 {
            1
        } else {
            from_index as int
        }
    }

    /// The last id of the page that begins at `from_index`: `limit` ids
    /// further on, or the last id of the ledger if that comes first.
    pub open spec fn page_last(&self, from_index: u64, limit: u64) -> int {
        if from_index + limit < self.last_id {
            from_index + limit
        } else {
            self.last_id as int
        }
    }

    /// The page that begins at `from_index`: the records from `page_first`
    /// to `page_last`, the ends included, each with its id, in the order of
    /// the ids.
    pub open spec fn page(&self, from_index: u64, limit: u64) -> Seq<(u64, Payout<T>)> {
        let first = Self::page_first(from_index);
        let last = self.page_last(from_index, limit);
        if last < first {
            Seq::empty()
        } else {
            Seq::new(
                (last - first + 1) as nat,
                |k: int| ((first + k) as u64, self.records@[first + k - 1]),
            )
        }
    }

    /// The records of one page, each with its id.
    pub fn get_page<'a>(&'a self, from_index: u64, limit: u64) -> (outputs: Vec<
        PayoutOutput<'a, T>,
    >)
        requires
            self.records@.len() == self.last_id,
        ensures
            outputs_view(outputs@) == self.page(from_index, limit),
    {
        let mut outputs: Vec<PayoutOutput<'a, T>> = Vec::new();
        let count = self.records.len() as u64;
        let first: u64 = if from_index == 0 {
            1
        } else {
            from_index
        };
        if first > count {
            return outputs;
        }
        let last: u64 = if limit < count - from_index {
            from_index + limit
        } else {
            count
        };
        let mut at: usize = (first - 1) as usize;
        while at < last as usize
            invariant
                first - 1 <= at,
                at <= last || at == first - 1,
                1 <= first,
                first == Self::page_first(from_index),
                last == self.page_last(from_index, limit),
                last <= self.records@.len(),
                outputs@.len() == at - (first - 1),
                forall|k: int|
                    0 <= k < outputs@.len() ==> (#[trigger] outputs@[k]).id == first + k
                        && *outputs@[k].payout == self.records@[first + k - 1],
            decreases last - at,
        {
            outputs.push(PayoutOutput { id: at as u64 + 1, payout: &self.records[at] });
            at += 1;
        }
        assert(outputs_view(outputs@) =~= self.page(from_index, limit));
        outputs
    }

    /// Applies an action of `signer` to the record with the id. A refused
    /// action leaves the ledger as it was.
    pub fn act_payout(
        &mut self,
        is_council_member: bool,
        council_size: u64,
        signer: &AccountId,
        id: u64,
        action: Action,
        note: Option<String>,
        not_found: Error,
    ) -> (res: Result<(), Error>)
        requires
            old(self).wf(council_size as nat),
        ensures
            match old(self).act(
                id,
                signer@,
                is_council_member,
                council_size as nat,
                action,
                note,
                not_found,
            ) {
                Ok(after) => {
                    &&& res is Ok
                    &&& final(self).differs_at(old(self), id)
                    &&& final(self).record(id)@ == after
                    &&& final(self).wf(council_size as nat)
                },
                Err(e) => res == Err::<(), Error>(e) && final(self).same_as(old(self)),
            },
    {
        let at = match self.position(id) {
            Some(at) => at,
            None => {
                return Err(not_found);
            },
        };
        let res = internal_act_payout(
            is_council_member,
            council_size,
            &mut self.records[at],
            signer,
            action,
            note,
        );
        proof {
            if res is Err {
                assert(self.records@ =~= old(self).records@);
            }
        }
        res
    }
}

/// Every record of a sound ledger holds as many votes as its counters say
/// together, and no more than the council has members.
pub proof fn lemma_record_counted<T>(ledger: Ledger<T>, council_size: nat, id: u64)
    requires
        ledger.wf(council_size),
        ledger.contains(id),
    ensures
        ledger.record(id)@.votes.len() == ledger.record(id)@.approve_count + ledger.record(
            id,
        )@.reject_count <= council_size,
{
    crate::payout::lemma_votes_counted(ledger.record(id)@, council_size);
}

/// A record that has been approved, rejected or removed refuses every
/// action.
pub proof fn lemma_ledger_final_record_refuses<T>(
    ledger: Ledger<T>,
    id: u64,
    signer: Seq<char>,
    is_council_member: bool,
    council_size: nat,
    action: Action,
    note: Option<String>,
    not_found: Error,
)
    requires
        ledger.contains(id),
        !(ledger.record(id).status is UnderConsideration),
    ensures
        ledger.act(id, signer, is_council_member, council_size, action, note, not_found) is Err,
{
}

/// After an accepted vote, the same vote of the same signer on the same
/// record is refused as already cast.
pub proof fn lemma_ledger_vote_not_repeated<T>(
    before: Ledger<T>,
    after: Ledger<T>,
    id: u64,
    signer: Seq<char>,
    is_council_member: bool,
    council_size: nat,
    action: Action,
    note: Option<String>,
    again: Option<String>,
    not_found: Error,
)
    requires
        action.is_vote(),
        before.act(id, signer, is_council_member, council_size, action, note, not_found) is Ok,
        after.differs_at(&before, id),
        after.record(id)@ == before.act(
            id,
            signer,
            is_council_member,
            council_size,
            action,
            note,
            not_found,
        )->Ok_0,
    ensures
        after.act(id, signer, is_council_member, council_size, action, again, not_found) == Err::<
            PayoutView<T>,
            Error,
        >(Error::AlreadyVoted),
{
    crate::payout::lemma_vote_not_repeated(
        before.record(id)@,
        signer,
        is_council_member,
        council_size,
        action,
        note,
        again,
    );
}

/// The removal of a record is accepted exactly when its proposer asks for it
/// while the record is under consideration; any other removal of a record is
/// refused as not permitted.
pub proof fn lemma_ledger_removal<T>(
    ledger: Ledger<T>,
    id: u64,
    signer: Seq<char>,
    is_council_member: bool,
    council_size: nat,
    note: Option<String>,
    not_found: Error,
)
    requires
        ledger.contains(id),
    ensures
        match ledger.act(
            id,
            signer,
            is_council_member,
            council_size,
            Action::RemovePayout,
            note,
            not_found,
        ) {
            Ok(after) => {
                &&& signer == ledger.record(id).proposer@
                &&& ledger.record(id).status is UnderConsideration
                &&& after.status == PayoutStatus::Removed(note)
            },
            Err(e) => {
                &&& e == Error::NotPermitted
                &&& signer != ledger.record(id).proposer@ || !(ledger.record(id).status
                    is UnderConsideration)
            },
        },
{
}

} // verus!
