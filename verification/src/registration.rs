//! Registration of ambassadors, and the referral tokens that come with it.

use vstd::prelude::*;

use crate::contract::{due, Contract};
use crate::error::Error;
use crate::members::{marked, AmbassadorProfile};
use crate::payout::referrals::{referral_schedule, referral_transfers};
use crate::payout::{Payout, PayoutStatus, PayoutView, Referral, Transfers, VotesCount};
use crate::text_map::TextMap;
use crate::types::{AccountId, ReferralToken, RegistrationResult};

verus! {

/// The number of characters of a referral token.
pub const REFERRAL_TOKEN_LENGTH: usize = 24;

/// A letter of the English alphabet, small or capital.
pub open spec fn is_letter(c: char) -> bool {
    65 <= c as u32 <= 90 || 97 <= c as u32 <= 122
}

/// A referral token is made of 24 letters.
pub open spec fn is_referral_token(token: Seq<char>) -> bool {
    &&& token.len() == REFERRAL_TOKEN_LENGTH
    &&& forall|i: int| 0 <= i < token.len() ==> is_letter(#[trigger] token[i])
}

/// The codes among which a letter is drawn: those of the small letters for a
/// selector above 4, those of the capitals for any other.
pub open spec fn case_range(selector: u64) -> (u64, u64) {
    if selector > 4 {
        (97, 122)
    } else {
        (65, 90)
    }
}

/// `ran::ran_u64_range`: a number drawn from the generator of the thread,
/// which lies in the range, both ends included. Which number comes is not
/// stated. The upper end must leave room for the generator to add one to it.
/// A thread that draws without a seed has its generator started from the
/// clock of the system, which the host must then have.
#[verifier::external_body]
fn random_in_range(low: u64, high: u64) -> (drawn: u64)
    requires
        low <= high < u64::MAX,
    ensures
        low <= drawn <= high,
{
    ran::ran_u64_range(low..=high)
}

/// `ran::set_seeds`: starts the generator of the thread anew from the seed.
/// Nothing is said of what it then yields. The seed 0, at which the generator
/// would take its start from the clock instead, is not passed on. The call
/// looks at the clock of the system whatever the seed, so the host must have
/// one.
#[verifier::external_body]
fn seed_generator(seed: u64)
    requires
        seed != 0,
{
    ran::set_seeds(seed)
}

/// `String::push` of the standard library: the character goes to the end of
/// the text.
#[verifier::external_body]
fn push_char(text: &mut String, c: char)
    ensures
        final(text)@ == old(text)@.push(c),
{
    text.push(c)
}

/// The sum of the squares of the bytes.
pub open spec fn sum_of_squares(bytes: Seq<u8>) -> nat
    decreases bytes.len(),
{
    if bytes.len() == 0 {
        0
    } else {
        sum_of_squares(bytes.drop_last()) + (bytes.last() as nat) * (bytes.last() as nat)
    }
}

/// The most bytes from which a seed is taken.
pub const MAX_SEED_BYTES: usize = 0xffff_ffff;

/// The squares of the bytes add up to no more than the square of the
/// largest byte for each of them.
pub proof fn lemma_sum_of_squares_bound(bytes: Seq<u8>)
    ensures
        sum_of_squares(bytes) <= bytes.len() * 65025,
    decreases bytes.len(),
{
    if bytes.len() > 0 {
        lemma_sum_of_squares_bound(bytes.drop_last());
        let last = bytes.last() as nat;
        assert(last * last <= 65025) by (nonlinear_arith)
            requires
                last <= 255,
        ;
    }
}

/// The seed that random bytes of the host give: the sum of their squares.
pub fn seed_of(random_bytes: &Vec<u8>) -> (seed: u64)
    requires
        random_bytes@.len() <= MAX_SEED_BYTES,
    ensures
        seed == sum_of_squares(random_bytes@),
{
    let mut seed: u64 = 0;
    let mut i: usize = 0;
    while i < random_bytes.len()
        invariant
            i <= random_bytes@.len() <= MAX_SEED_BYTES,
            seed == sum_of_squares(random_bytes@.take(i as int)),
        decreases random_bytes@.len() - i,
    {
        let x = random_bytes[i] as u64;
        proof {
            let next = random_bytes@.take(i + 1);
            assert(next.drop_last() =~= random_bytes@.take(i as int));
            lemma_sum_of_squares_bound(next);
            assert(x * x <= 65025) by (nonlinear_arith)
                requires
                    x <= 255,
            ;
        }
        seed = seed + x * x;
        i += 1;
    }
    assert(random_bytes@.take(i as int) =~= random_bytes@);
    seed
}

/// Starts the generator of referral tokens from random bytes of the host.
/// Bytes that are all zero leave the generator as it is.
pub fn seed_referral_tokens(random_bytes: &Vec<u8>)
    requires
        random_bytes@.len() <= MAX_SEED_BYTES,
{
    let seed = seed_of(random_bytes);
    if seed != 0 {
        seed_generator(seed);
    }
}

/// The range of codes that a selector stands for.
pub fn case_range_of(selector: u64) -> (range: (u64, u64))
    ensures
        range == case_range(selector),
{
    if selector > 4 {
        (97, 122)
    } else {
        (65, 90)
    }
}

/// What a registration gives back: how it ended, and the payments that fall
/// due by it, which are those of the referral where one was recorded.
#[derive(Clone, Debug, PartialEq, Eq)]
pub struct Registration {
    pub result: RegistrationResult,
    pub due: Option<Transfers>,
}

/// The most tokens that are drawn for one registration.
pub const TOKEN_DRAWS: u8 = 8;

/// How the referral of a registration reads: approved from the start, made
/// by the new ambassador, in favour of the issuer of the token.
pub open spec fn registration_referral(signer: AccountId, issuer: AccountId) -> PayoutView<
    Referral,
> {
    PayoutView {
        status: PayoutStatus::Approved,
        proposer: signer@,
        info: Referral::AmbassadorRegistration { referrer_id: signer, referred_id: issuer },
        description: "Ambassador registration referral"@,
        votes: Map::empty(),
        approve_count: 0,
        reject_count: 0,
    }
}

impl Contract {
    /// Generate a 24 characters long referral ID.
    /// It contains [a-zA-Z] characters
    pub fn internal_generate_referral_id() -> (token: ReferralToken)
        ensures
            is_referral_token(token@),
    {
        let mut token = String::new();
        let mut i: usize = 0;
        while i < REFERRAL_TOKEN_LENGTH
            invariant
                i <= REFERRAL_TOKEN_LENGTH,
                token@.len() == i,
                forall|j: int| 0 <= j < token@.len() ==> is_letter(#[trigger] token@[j]),
            decreases REFERRAL_TOKEN_LENGTH - i,
        {
            let selector = random_in_range(0, 9);
            let (low, high) = case_range_of(selector);
            let code = random_in_range(low, high);
            let letter = (code as u8) as char;
            push_char(&mut token, letter);
            i += 1;
        }
        token
    }

    /// The issuer whose token can be redeemed with `token`: the token is
    /// known, and its issuer is an ambassador who has not been rewarded for
    /// a registration yet.
    pub open spec fn redeemable(&self, token: Option<String>) -> Option<AccountId> {
        match token {
            None => None,
            Some(text) => {
                if self.referral_tokens@.contains_key(text@) {
                    let issuer = self.referral_tokens@[text@];
                    let roster = self.members.ambassadors@;
                    if roster.contains_key(issuer@) && !roster[issuer@].registration_referral_used {
                        Some(issuer)
                    } else {
                        None
                    }
                } else {
                    None
                }
            },
        }
    }

    /// What the registration of `signer` comes to, `fresh` being the token
    /// that is issued to the new ambassador.
    ///
    /// An account that has a profile is refused, and so is a fresh token that
    /// has been issued before, and any account once the ids of ambassadors,
    /// or those of the referrals where one is due, are used up; a refusal
    /// changes nothing. Otherwise the account gets a profile with the next id
    /// and the fresh token. Where `token` can be redeemed, a referral in
    /// favour of its issuer is recorded as approved, its schedule is handed
    /// over for payment, and the issuer is marked as rewarded. A token that
    /// cannot be redeemed does not stand in the way of the registration, and
    /// nothing falls due by it.
    pub open spec fn registered(
        self,
        after: Contract,
        signer: AccountId,
        token: Option<String>,
        fresh: ReferralToken,
        res: Result<Registration, Error>,
    ) -> bool {
        if self.members.ambassadors@.contains_key(signer@) {
            res == Err::<Registration, Error>(Error::AmbassadorAlreadyRegistered)
                && after.same_as(&self)
        } else if self.referral_tokens@.contains_key(fresh@) {
            res == Err::<Registration, Error>(Error::InvalidInput) && after.same_as(&self)
        } else if self.members.last_ambassador_id == u64::MAX {
            res == Err::<Registration, Error>(Error::IdSpaceExhausted) && after.same_as(&self)
        } else if self.redeemable(token) is Some && self.referrals.last_id == u64::MAX {
            res == Err::<Registration, Error>(Error::IdSpaceExhausted) && after.same_as(&self)
        } else {
            let new_id = (self.members.last_ambassador_id + 1) as u64;
            let roster = self.members.ambassadors@.insert(
                signer@,
                AmbassadorProfile {
                    id: new_id,
                    referral_token: fresh,
                    registration_referral_used: false,
                },
            );
            &&& after.config == self.config
            &&& after.members.council == self.members.council
            &&& after.members.last_ambassador_id == new_id
            &&& after.referral_tokens@ == self.referral_tokens@.insert(fresh@, signer)
            &&& after.same_but_referrals(&self)
            &&& match self.redeemable(token) {
                Some(issuer) => {
                    &&& res matches Ok(outcome) && outcome.result
                        == RegistrationResult::SuccessWithReferral(new_id) && due(
                        outcome.due,
                        true,
                        referral_schedule(registration_referral(signer, issuer).info),
                    )
                    &&& after.members.ambassadors@ == roster.insert(
                        issuer@,
                        AmbassadorProfile { registration_referral_used: true, ..roster[issuer@] },
                    )
                    &&& after.referrals.extends(
                        &self.referrals,
                        registration_referral(signer, issuer),
                    )
                },
                None => {
                    &&& res is Ok
                    &&& res->Ok_0.due is None
                    &&& res->Ok_0.result matches RegistrationResult::SuccessWithoutReferral(
                        id,
                        message,
                    ) && id == new_id && message@ == (if token is Some {
                        "Your referral token was invalid"@
                    } else {
                        "You did not use a referral token"@
                    })
                    &&& after.members.ambassadors@ == roster
                    &&& after.referrals.same_as(&self.referrals)
                },
            }
        }
    }

    /// What the later claim of a registration referral comes to, by which an
    /// ambassador names the token that brought the ambassador in.
    ///
    /// The claim is refused as not found for a signer without a profile, as
    /// invalid input for a token that was never issued, and as not permitted
    /// for the signer's own token and for a token that cannot be redeemed,
    /// its issuer having been rewarded; it is refused as well once the ids of
    /// referrals are used up. A refusal changes nothing. Otherwise the
    /// issuer is marked as rewarded and a referral in favour of the issuer is
    /// recorded under consideration, whose id is returned.
    pub open spec fn registration_referral_claimed(
        self,
        after: Contract,
        signer: AccountId,
        token: String,
        res: Result<u64, Error>,
    ) -> bool {
        if !self.members.ambassadors@.contains_key(signer@) {
            res == Err::<u64, Error>(Error::AmbassadorNotFound) && after.same_as(&self)
        } else if !self.referral_tokens@.contains_key(token@) {
            res == Err::<u64, Error>(Error::InvalidInput) && after.same_as(&self)
        } else if self.referral_tokens@[token@]@ == signer@ {
            res == Err::<u64, Error>(Error::NotPermitted) && after.same_as(&self)
        } else if self.redeemable(Some(token)) is None {
            res == Err::<u64, Error>(Error::NotPermitted) && after.same_as(&self)
        } else if self.referrals.last_id == u64::MAX {
            res == Err::<u64, Error>(Error::IdSpaceExhausted) && after.same_as(&self)
        } else {
            let issuer = self.redeemable(Some(token))->Some_0;
            &&& res == Ok::<u64, Error>((self.referrals.last_id + 1) as u64)
            &&& after.config == self.config
            &&& after.referral_tokens == self.referral_tokens
            &&& after.same_but_referrals(&self)
            &&& after.members.council == self.members.council
            &&& after.members.last_ambassador_id == self.members.last_ambassador_id
            &&& after.members.ambassadors@ == marked(self.members.ambassadors@, issuer@)
            &&& after.referrals.extends(
                &self.referrals,
                (PayoutView {
                    status: PayoutStatus::UnderConsideration,
                    ..registration_referral(signer, issuer)
                }),
            )
        }
    }

    /// Looks up the issuer whose token can be redeemed with `token`.
    pub fn find_redeemable(&self, token: &Option<String>) -> (issuer: Option<AccountId>)
        requires
            self.wf(),
        ensures
            issuer == self.redeemable(*token),
    {
        match token {
            None => None,
            Some(text) => {
                match self.referral_tokens.get(text) {
                    None => None,
                    Some(issuer) => {
                        match self.members.ambassadors.get(issuer) {
                            None => None,
                            Some(profile) => {
                                if profile.registration_referral_used {
                                    None
                                } else {
                                    Some(issuer.clone())
                                }
                            },
                        }
                    },
                }
            },
        }
    }

    /// Registers `signer` as an ambassador and issues `fresh` to the account
    /// as its referral token.
    pub fn register_ambassador_with(
        &mut self,
        signer: AccountId,
        token: Option<String>,
        fresh: ReferralToken,
    ) -> (res: Result<Registration, Error>)
        requires
            old(self).wf(),
        ensures
            final(self).wf(),
            old(self).registered(*final(self), signer, token, fresh, res),
    {
        if self.members.is_registered_ambassador(&signer) {
            return Err(Error::AmbassadorAlreadyRegistered);
        }
        if self.referral_tokens.contains_key(&fresh) {
            return Err(Error::InvalidInput);
        }
        if self.members.last_ambassador_id == u64::MAX {
            return Err(Error::IdSpaceExhausted);
        }
        let issuer = self.find_redeemable(&token);
        if issuer.is_some() && self.referrals.last_id == u64::MAX {
            return Err(Error::IdSpaceExhausted);
        }
        // insert the ref token in the referral ids hashmap
        self.referral_tokens.insert(fresh.clone(), signer.clone());
        // create a profile
        let new_id = self.members.add_ambassador(signer.clone(), fresh, false);
        match issuer {
            Some(issuer) => {
                // add payout record
                let payout = Payout {
                    status: PayoutStatus::Approved,
                    proposer: signer.clone(),
                    info: Referral::AmbassadorRegistration {
                        referrer_id: signer,
                        referred_id: issuer.clone(),
                    },
                    description: "Ambassador registration referral".to_string(),
                    votes: TextMap::new(),
                    votes_count: VotesCount::new(),
                };
                let transfers = referral_transfers(&payout);
                proof {
                    crate::payout::lemma_tally_empty();
                }
                match self.referrals.create(payout) {
                    Err(e) => {
                        return Err(e);
                    },
                    Ok(_) => {},
                }
                self.members.mark_registration_referral_used(&issuer);
                proof {
                    let count = old(self).referrals.records@.len() as int;
                    assert(self.referrals.records@.take(count) =~= old(self).referrals.records@);
                }
                Ok(
                    Registration {
                        result: RegistrationResult::SuccessWithReferral(new_id),
                        due: Some(transfers),
                    },
                )
            },
            None => {
                let message = match token {
                    Some(_) => "Your referral token was invalid".to_string(),
                    None => "You did not use a referral token".to_string(),
                };
                Ok(
                    Registration {
                        result: RegistrationResult::SuccessWithoutReferral(new_id, message),
                        due: None,
                    },
                )
            },
        }
    }

    /// Perform required actions when an ambassador registers
    /// The sender may send the referral token of another ambassador
    pub fn register_ambassador(&mut self, signer: AccountId, token: Option<String>) -> (res: Result<
        Registration,
        Error,
    >)
        requires
            old(self).wf(),
        ensures
            final(self).wf(),
            exists|fresh: ReferralToken|
                is_referral_token(fresh@) && #[trigger] old(self).registered(
                    *final(self),
                    signer,
                    token,
                    fresh,
                    res,
                ),
    {
        // create a referral token for the ambassador, one that is not in use
        let mut ref_token = Self::internal_generate_referral_id();
        let mut draws: u8 = 1;
        while draws < TOKEN_DRAWS && self.referral_tokens.contains_key(&ref_token)
            invariant
                is_referral_token(ref_token@),
                draws <= TOKEN_DRAWS,
            decreases TOKEN_DRAWS - draws,
        {
            ref_token = Self::internal_generate_referral_id();
            draws += 1;
        }
        self.register_ambassador_with(signer, token, ref_token)
    }

    /// Add a registration referral using a referral token
    pub fn add_registration_referral_with_token(&mut self, signer: &AccountId, token: String) -> (res:
        Result<u64, Error>)
        requires
            old(self).wf(),
        ensures
            final(self).wf(),
            old(self).registration_referral_claimed(*final(self), *signer, token, res),
    {
        if !self.members.is_registered_ambassador(signer) {
            return Err(Error::AmbassadorNotFound);
        }
        // lets get the account id to whom the referral token belongs
        let owner = match self.referral_tokens.get(&token) {
            // invalid referral token
            None => {
                return Err(Error::InvalidInput);
            },
            Some(owner) => owner,
        };
        // if the token belongs to the signer
        if *owner == *signer {
            return Err(Error::NotPermitted);
        }
        let issuer = match self.find_redeemable(&Some(token)) {
            None => {
                return Err(Error::NotPermitted);
            },
            Some(issuer) => issuer,
        };
        if self.referrals.last_id == u64::MAX {
            return Err(Error::IdSpaceExhausted);
        }
        let payout = Payout {
            status: PayoutStatus::UnderConsideration,
            proposer: signer.clone(),
            info: Referral::AmbassadorRegistration {
                referrer_id: signer.clone(),
                referred_id: issuer.clone(),
            },
            description: "Ambassador registration referral".to_string(),
            votes: TextMap::new(),
            votes_count: VotesCount::new(),
        };
        proof {
            crate::payout::lemma_tally_empty();
        }
        let res = self.referrals.create(payout);
        self.members.mark_registration_referral_used(&issuer);
        proof {
            let count = old(self).referrals.records@.len() as int;
            assert(self.referrals.records@.take(count) =~= old(self).referrals.records@);
        }
        res
    }
}

/// A registration with a token that can be redeemed records exactly one
/// referral, approved from the start and in favour of the issuer of the
/// token, hands the reward of the issuer over for payment, and marks the
/// issuer as rewarded.
pub proof fn lemma_redemption(
    before: Contract,
    after: Contract,
    signer: AccountId,
    token: String,
    fresh: ReferralToken,
    res: Result<Registration, Error>,
)
    requires
        before.wf(),
        before.redeemable(Some(token)) is Some,
        before.registered(after, signer, Some(token), fresh, res),
        res is Ok,
    ensures
        res is Ok && res->Ok_0.result is SuccessWithReferral,
        res->Ok_0.due matches Some(list) && crate::payout::transfers_view(list@) == seq![
            (
                before.redeemable(Some(token))->Some_0@,
                crate::amounts::CA_REGISTER_REFERRAL_AMOUNT,
            ),
        ],
        after.referrals.last_id == before.referrals.last_id + 1,
        forall|id: u64|
            before.referrals.contains(id) ==> after.referrals.record(id)
                == #[trigger] before.referrals.record(id),
        after.referrals.record(after.referrals.last_id)@ == registration_referral(
            signer,
            before.redeemable(Some(token))->Some_0,
        ),
        after.referrals.record(after.referrals.last_id).status is Approved,
        after.members.ambassadors@[before.redeemable(
            Some(token),
        )->Some_0@].registration_referral_used,
{
}

/// A token is redeemed once. After a registration has redeemed it, another
/// account that registers with it is registered without a referral: no
/// referral is recorded and nothing falls due, and the registration itself
/// is refused only for an account that has a profile, for a fresh token that
/// was issued before, or when the ids of ambassadors are used up.
pub proof fn lemma_token_redeemed_once(
    before: Contract,
    between: Contract,
    after: Contract,
    first: AccountId,
    second: AccountId,
    token: String,
    fresh_first: ReferralToken,
    fresh_second: ReferralToken,
    first_res: Result<Registration, Error>,
    second_res: Result<Registration, Error>,
)
    requires
        before.registered(between, first, Some(token), fresh_first, first_res),
        first_res is Ok && first_res->Ok_0.result is SuccessWithReferral,
        between.registered(after, second, Some(token), fresh_second, second_res),
    ensures
        between.redeemable(Some(token)) is None,
        second_res is Ok ==> second_res->Ok_0.result is SuccessWithoutReferral,
        second_res is Ok ==> second_res->Ok_0.due is None,
        second_res is Ok ==> after.referrals.same_as(&between.referrals),
        second_res is Ok <==> !between.members.ambassadors@.contains_key(second@)
            && !between.referral_tokens@.contains_key(fresh_second@)
            && between.members.last_ambassador_id < u64::MAX,
{
}

/// A token is redeemed once, whether at a registration or by a later claim:
/// after a registration has redeemed it, the claim of an ambassador who names
/// it is refused and changes nothing.
pub proof fn lemma_redeemed_token_not_claimed(
    before: Contract,
    between: Contract,
    after: Contract,
    first: AccountId,
    claimant: AccountId,
    token: String,
    fresh: ReferralToken,
    first_res: Result<Registration, Error>,
    claim: Result<u64, Error>,
)
    requires
        before.registered(between, first, Some(token), fresh, first_res),
        first_res is Ok && first_res->Ok_0.result is SuccessWithReferral,
        between.registration_referral_claimed(after, claimant, token, claim),
    ensures
        claim is Err,
        after.same_as(&between),
{
}

} // verus!
