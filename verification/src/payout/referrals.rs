//! Referrals: rewards for bringing people in.

use vstd::prelude::*;

use crate::amounts;
use crate::contract::{due, Contract};
use crate::error::Error;
use crate::ledger::{
    lemma_ledger_removal, lemma_ledger_vote_not_repeated, lemma_record_counted, submitted,
};
use crate::members::marked;
use crate::payout::{transfers_view, Payout, PayoutInput, PayoutStatus, ResourceLink, Transfers};
use crate::types::{AccountId, Action, USD};
use crate::validation::{assert_valid_resource_url, valid_resource_url};

verus! {

pub type ReferralPayout = Payout<Referral>;

#[derive(Clone, Copy, Debug, PartialEq, Eq)]
pub enum NCDReferralKind {
    // form filled get $1 per referral
    FormFilled,
    // ncd course completion get $5 per referral
    Completion,
}

#[derive(Clone, Debug, PartialEq, Eq)]
pub enum Referral {
    AmbassadorRegistration {
        /// the account ID (person) that used a referral token
        referrer_id: AccountId,
        /// the account ID (person) to which the token belongs
        referred_id: AccountId,
    },
    Recruitment {
        /// the account ID (person) that reffered a new recruitee
        referrer_id: AccountId,
        /// the account ID (person) that was referred to
        referred_id: AccountId,
    },
    NearCertifiedDeveloper {
        /// the account ID (person) that reffered a new recruitee
        referrer_id: AccountId,
        /// the account ID (person) that was referred to
        referred_id: AccountId,
        /// the kind of ncd referral
        kind: NCDReferralKind,
        /// a link to the proof
        proof_link: ResourceLink,
    },
}

impl Referral {
    /// The name of the referred party, which is the party that is paid.
    pub open spec fn referred(&self) -> Seq<char> {
        match self {
            Referral::AmbassadorRegistration { referred_id, .. } => referred_id@,
            Referral::Recruitment { referred_id, .. } => referred_id@,
            Referral::NearCertifiedDeveloper { referred_id, .. } => referred_id@,
        }
    }

    /// The name of the party that made the referral.
    pub open spec fn referrer(&self) -> Seq<char> {
        match self {
            Referral::AmbassadorRegistration { referrer_id, .. } => referrer_id@,
            Referral::Recruitment { referrer_id, .. } => referrer_id@,
            Referral::NearCertifiedDeveloper { referrer_id, .. } => referrer_id@,
        }
    }

    /// What a referral of this kind is worth.
    pub open spec fn amount(&self) -> USD {
        match self {
            Referral::AmbassadorRegistration { .. } => amounts::CA_REGISTER_REFERRAL_AMOUNT,
            Referral::Recruitment { .. } => amounts::RECRUITMENT_REFERRAL_AMOUNT,
            Referral::NearCertifiedDeveloper { kind, .. } => match kind {
                NCDReferralKind::Completion => amounts::NCD_COMPLETION_REFERRAL_AMOUNT,
                NCDReferralKind::FormFilled => amounts::NCD_FORM_FILLED_REFERRAL_AMOUNT,
            },
        }
    }
}

/// What an approved referral pays: the amount of its kind, to the referred
/// party.
pub open spec fn referral_schedule(info: Referral) -> Seq<(Seq<char>, USD)> {
    seq![(info.referred(), info.amount())]
}

/// The payments that fall due when the referral is approved.
pub fn referral_transfers(payout: &ReferralPayout) -> (transfers: Transfers)
    ensures
        transfers_view(transfers@) == referral_schedule(payout.info),
{
    let mut transfers: Transfers = Vec::new();
    match &payout.info {
        Referral::AmbassadorRegistration { referred_id, .. } => {
            transfers.push((referred_id.clone(), amounts::CA_REGISTER_REFERRAL_AMOUNT));
        },
        Referral::Recruitment { referred_id, .. } => {
            transfers.push((referred_id.clone(), amounts::RECRUITMENT_REFERRAL_AMOUNT));
        },
        Referral::NearCertifiedDeveloper { referred_id, kind, .. } => {
            let amount = match kind {
                NCDReferralKind::Completion => amounts::NCD_COMPLETION_REFERRAL_AMOUNT,
                NCDReferralKind::FormFilled => amounts::NCD_FORM_FILLED_REFERRAL_AMOUNT,
            };
            transfers.push((referred_id.clone(), amount));
        },
    }
    transfers
}

impl Contract {
    /// Whether a referral can be submitted, as the roster stands. A
    /// registration referral is between two ambassadors, and the referred one
    /// must not have been rewarded for a registration before. The other kinds
    /// refer someone who is no ambassador, and a certified developer comes
    /// with an acceptable link to the proof.
    pub open spec fn referral_valid(&self, info: Referral) -> bool {
        let roster = self.members.ambassadors@;
        match info {
            Referral::AmbassadorRegistration { referred_id, referrer_id } => {
                &&& roster.contains_key(referred_id@)
                &&& roster.contains_key(referrer_id@)
                &&& !roster[referred_id@].registration_referral_used
            },
            Referral::NearCertifiedDeveloper { referred_id, proof_link, .. } => {
                &&& !roster.contains_key(referred_id@)
                &&& valid_resource_url(proof_link@)
            },
            Referral::Recruitment { referred_id, .. } => !roster.contains_key(referred_id@),
        }
    }

    /// Accepts the referrals that are `referral_valid`.
    pub fn validate_referral(&self, info: &Referral) -> (res: Result<(), Error>)
        requires
            self.members.wf(),
        ensures
            res == (if self.referral_valid(*info) {
                Ok::<(), Error>(())
            } else {
                Err::<(), Error>(Error::InvalidInput)
            }),
    {
        match info {
            Referral::AmbassadorRegistration { referred_id, referrer_id } => {
                if !self.members.is_registered_ambassador(referrer_id) {
                    return Err(Error::InvalidInput);
                }
                match self.members.ambassadors.get(referred_id) {
                    None => Err(Error::InvalidInput),
                    Some(profile) => {
                        if profile.registration_referral_used {
                            Err(Error::InvalidInput)
                        } else {
                            Ok(())
                        }
                    },
                }
            },
            Referral::NearCertifiedDeveloper { referred_id, proof_link, .. } => {
                if self.members.is_registered_ambassador(referred_id) {
                    return Err(Error::InvalidInput);
                }
                assert_valid_resource_url(proof_link.as_str())
            },
            Referral::Recruitment { referred_id, .. } => {
                if self.members.is_registered_ambassador(referred_id) {
                    return Err(Error::InvalidInput);
                }
                Ok(())
            },
        }
    }

    /// What submitting a referral comes to. A referral that is not
    /// `referral_valid` is refused as invalid input; a valid one is refused
    /// when the ids are used up; any other becomes the next record, under
    /// consideration. A refusal changes nothing.
    pub open spec fn referral_added(
        self,
        after: Contract,
        proposer: Seq<char>,
        payout: PayoutInput<Referral>,
        res: Result<u64, Error>,
    ) -> bool {
        if !self.referral_valid(payout.information) {
            res == Err::<u64, Error>(Error::InvalidInput) && after.same_as(&self)
        } else if self.referrals.last_id == u64::MAX {
            res == Err::<u64, Error>(Error::IdSpaceExhausted) && after.same_as(&self)
        } else {
            &&& res == Ok::<u64, Error>((self.referrals.last_id + 1) as u64)
            &&& after.referrals.extends(&self.referrals, submitted(proposer, payout))
            &&& after.same_people(&self)
            &&& after.same_but_referrals(&self)
        }
    }

    /// What an action of `signer` on a referral comes to. A refused action
    /// changes nothing. An accepted one changes the record and hands over
    /// the schedule of the referral if the record is approved by it; the
    /// approval of a registration referral also marks the referred
    /// ambassador as rewarded.
    pub open spec fn referral_acted(
        self,
        after: Contract,
        signer: Seq<char>,
        id: u64,
        action: Action,
        note: Option<String>,
        res: Result<Option<Transfers>, Error>,
    ) -> bool {
        match self.referrals.act(
            id,
            signer,
            self.members.council@.contains(signer),
            self.council_size(),
            action,
            note,
            Error::ReferralNotFound,
        ) {
            Err(e) => res == Err::<Option<Transfers>, Error>(e) && after.same_as(&self),
            Ok(record) => {
                &&& after.referrals.differs_at(&self.referrals, id)
                &&& after.referrals.record(id)@ == record
                &&& after.config == self.config
                &&& after.referral_tokens == self.referral_tokens
                &&& after.same_but_referrals(&self)
                &&& after.members.council == self.members.council
                &&& after.members.last_ambassador_id == self.members.last_ambassador_id
                &&& after.members.ambassadors@ == (if record.status is Approved
                    && record.info is AmbassadorRegistration {
                    marked(self.members.ambassadors@, record.info.referred())
                } else {
                    self.members.ambassadors@
                })
                &&& res matches Ok(transfers) && due(
                    transfers,
                    record.status is Approved,
                    referral_schedule(record.info),
                )
            },
        }
    }

    /// create a new referral payout
    pub fn add_payout_referral(&mut self, proposer: AccountId, payout: PayoutInput<Referral>) -> (res:
        Result<u64, Error>)
        requires
            old(self).wf(),
        ensures
            final(self).wf(),
            old(self).referral_added(*final(self), proposer@, payout, res),
    {
        // validate input
        match self.validate_referral(&payout.information) {
            Err(e) => {
                return Err(e);
            },
            Ok(()) => {},
        }
        // anyone can create this, no permission checks needed
        self.referrals.submit(proposer, payout)
    }

    /// act on a referral payout
    pub fn act_payout_referral(
        &mut self,
        signer: &AccountId,
        id: u64,
        action: Action,
        note: Option<String>,
    ) -> (res: Result<Option<Transfers>, Error>)
        requires
            old(self).wf(),
        ensures
            final(self).wf(),
            old(self).referral_acted(*final(self), signer@, id, action, note, res),
    {
        let is_council_member = self.members.is_council_member(signer);
        let council_size = self.members.get_council_size() as u64;
        match self.referrals.act_payout(
            is_council_member,
            council_size,
            signer,
            id,
            action,
            note,
            Error::ReferralNotFound,
        ) {
            Err(e) => {
                return Err(e);
            },
            Ok(()) => {},
        }
        let referral = self.referrals.get(id).unwrap();
        // check if payout state is approved
        if referral.status.is_approved() {
            let transfers = referral_transfers(referral);
            match &referral.info {
                Referral::AmbassadorRegistration { referred_id, .. } => {
                    self.members.mark_registration_referral_used(referred_id);
                },
                _ => {},
            }
            Ok(Some(transfers))
        } else {
            Ok(None)
        }
    }
}

/// Every referral on record holds as many votes as its counters say together,
/// and no more than the council has members.
pub proof fn lemma_referral_votes_counted(contract: Contract, id: u64)
    requires
        contract.wf(),
        contract.referrals.contains(id),
    ensures
        contract.referrals.record(id)@.votes.len() == contract.referrals.record(
            id,
        )@.approve_count + contract.referrals.record(id)@.reject_count
            <= contract.council_size(),
{
    lemma_record_counted(contract.referrals, contract.council_size(), id);
}

/// Once a referral has been approved, rejected or removed, no vote on it and
/// no removal of it is accepted, and the attempt changes nothing.
pub proof fn lemma_referral_final(
    before: Contract,
    after: Contract,
    signer: Seq<char>,
    id: u64,
    action: Action,
    note: Option<String>,
    res: Result<Option<Transfers>, Error>,
)
    requires
        before.referrals.contains(id),
        !(before.referrals.record(id).status is UnderConsideration),
        before.referral_acted(after, signer, id, action, note, res),
    ensures
        res is Err,
        after.same_as(&before),
{
}

/// A vote on a referral that was accepted is refused as already cast when the
/// same signer casts it again.
pub proof fn lemma_referral_vote_not_repeated(
    before: Contract,
    between: Contract,
    after: Contract,
    signer: Seq<char>,
    id: u64,
    action: Action,
    note: Option<String>,
    again: Option<String>,
    first: Result<Option<Transfers>, Error>,
    second: Result<Option<Transfers>, Error>,
)
    requires
        action.is_vote(),
        before.referral_acted(between, signer, id, action, note, first),
        first is Ok,
        between.referral_acted(after, signer, id, action, again, second),
    ensures
        second == Err::<Option<Transfers>, Error>(Error::AlreadyVoted),
        after.same_as(&between),
{
    lemma_ledger_vote_not_repeated(
        before.referrals,
        between.referrals,
        id,
        signer,
        before.members.council@.contains(signer),
        before.council_size(),
        action,
        note,
        again,
        Error::ReferralNotFound,
    );
}

/// The removal of a referral is accepted only from its proposer and only while
/// it is under consideration; any other removal of a referral on record is
/// refused as not permitted.
pub proof fn lemma_referral_removal(
    before: Contract,
    after: Contract,
    signer: Seq<char>,
    id: u64,
    note: Option<String>,
    res: Result<Option<Transfers>, Error>,
)
    requires
        before.referrals.contains(id),
        before.referral_acted(after, signer, id, Action::RemovePayout, note, res),
    ensures
        res is Ok <==> signer == before.referrals.record(id).proposer@ && before.referrals.record(
            id,
        ).status is UnderConsideration,
        res is Ok ==> after.referrals.record(id).status == PayoutStatus::Removed(note),
        res is Err ==> res == Err::<Option<Transfers>, Error>(Error::NotPermitted),
{
    lemma_ledger_removal(
        before.referrals,
        id,
        signer,
        before.members.council@.contains(signer),
        before.council_size(),
        note,
        Error::ReferralNotFound,
    );
}

/// The payments of a referral fall due once. After the call that approved the
/// referral and handed its schedule over, every action on the referral is
/// refused, so that no call hands the schedule over again.
pub proof fn lemma_referral_due_once(
    before: Contract,
    between: Contract,
    after: Contract,
    signer: Seq<char>,
    other: Seq<char>,
    id: u64,
    action: Action,
    later: Action,
    note: Option<String>,
    later_note: Option<String>,
    first: Result<Option<Transfers>, Error>,
    second: Result<Option<Transfers>, Error>,
)
    requires
        before.referral_acted(between, signer, id, action, note, first),
        first is Ok && first->Ok_0 is Some,
        between.referral_acted(after, other, id, later, later_note, second),
    ensures
        second is Err,
        after.same_as(&between),
{
}

} // verus!
