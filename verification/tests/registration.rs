use ambassadors_dao::contract::Contract;
use ambassadors_dao::error::Error;
use ambassadors_dao::payout::{PayoutStatus, Referral};
use ambassadors_dao::registration::{case_range_of, seed_of, seed_referral_tokens, Registration};
use ambassadors_dao::types::Action;
use ambassadors_dao::types::RegistrationResult;

fn dao() -> Contract {
    Contract::new(
        "ambassadors".to_string(),
        "to reward the work of ambassadors".to_string(),
        vec!["a.near".to_string(), "b.near".to_string()],
    )
}

fn is_token(token: &str) -> bool {
    token.len() == 24 && token.chars().all(|c| c.is_ascii_alphabetic())
}

#[test]
fn referral_tokens_are_24_letters() {
    let mut all: Vec<String> = Vec::new();
    for _ in 0..50 {
        let token = Contract::internal_generate_referral_id();
        assert!(is_token(&token), "not a token: {}", token);
        all.push(token);
    }
    let first = all[0].clone();
    assert!(all.iter().any(|token| *token != first));
    let text: String = all.concat();
    assert!(text.chars().any(|c| c.is_ascii_lowercase()));
    assert!(text.chars().any(|c| c.is_ascii_uppercase()));
    let first_char = text.chars().next().unwrap();
    assert!(text.chars().any(|c| c != first_char));
}

#[test]
fn selector_picks_the_case() {
    assert_eq!(case_range_of(0), (65, 90));
    assert_eq!(case_range_of(4), (65, 90));
    assert_eq!(case_range_of(5), (97, 122));
    assert_eq!(case_range_of(9), (97, 122));
}

#[test]
fn seed_is_the_sum_of_squares() {
    assert_eq!(seed_of(&vec![]), 0);
    assert_eq!(seed_of(&vec![3]), 9);
    assert_eq!(seed_of(&vec![1, 2, 3]), 14);
    assert_eq!(seed_of(&vec![255; 32]), 32 * 65025);
}

#[test]
fn same_seed_gives_the_same_tokens() {
    seed_referral_tokens(&vec![1, 2, 3]);
    let first = Contract::internal_generate_referral_id();
    let second = Contract::internal_generate_referral_id();
    seed_referral_tokens(&vec![1, 2, 3]);
    assert_eq!(Contract::internal_generate_referral_id(), first);
    assert_eq!(Contract::internal_generate_referral_id(), second);
    seed_referral_tokens(&vec![0, 0]);
    assert!(is_token(&Contract::internal_generate_referral_id()));
}

#[test]
fn registration_without_a_token() {
    let mut contract = dao();
    let res = contract.register_ambassador_with("x.near".to_string(), None, "FRESH".to_string());
    match res {
        Ok(Registration {
            result: RegistrationResult::SuccessWithoutReferral(id, message),
            due: None,
        }) => {
            assert_eq!(id, 1);
            assert_eq!(message, "You did not use a referral token");
        }
        _ => panic!("unexpected outcome"),
    }
    assert!(contract.is_registered_ambassador("x.near".to_string()));
    let profile = contract.get_ambassador_profile("x.near".to_string());
    assert_eq!(profile.id, 1);
    assert_eq!(profile.referral_token, "FRESH");
    assert!(!profile.registration_referral_used);
    assert_eq!(contract.referral_tokens.get(&"FRESH".to_string()), Some(&"x.near".to_string()));
    assert_eq!(contract.get_last_referral_id(), 0);
    assert!(contract.is_well_formed());
}

#[test]
fn registration_with_an_unknown_token() {
    let mut contract = dao();
    let res = contract.register_ambassador_with(
        "x.near".to_string(),
        Some("UNKNOWN".to_string()),
        "FRESH".to_string(),
    );
    match res {
        Ok(Registration {
            result: RegistrationResult::SuccessWithoutReferral(id, message),
            due: None,
        }) => {
            assert_eq!(id, 1);
            assert_eq!(message, "Your referral token was invalid");
        }
        _ => panic!("unexpected outcome"),
    }
    assert_eq!(contract.get_last_referral_id(), 0);
    assert!(contract.is_registered_ambassador("x.near".to_string()));
}

#[test]
fn own_fresh_token_does_not_refer() {
    let mut contract = dao();
    let res = contract.register_ambassador_with(
        "x.near".to_string(),
        Some("FRESH".to_string()),
        "FRESH".to_string(),
    );
    assert!(matches!(
        res,
        Ok(Registration { result: RegistrationResult::SuccessWithoutReferral(1, _), due: None })
    ));
    assert_eq!(contract.get_last_referral_id(), 0);
}

#[test]
fn second_registration_of_an_account_is_refused() {
    let mut contract = dao();
    contract.register_ambassador_with("x.near".to_string(), None, "ONE".to_string()).unwrap();
    let res = contract.register_ambassador_with("x.near".to_string(), None, "TWO".to_string());
    assert!(matches!(res, Err(Error::AmbassadorAlreadyRegistered)));
    assert_eq!(contract.members.last_ambassador_id, 1);
    assert_eq!(contract.referral_tokens.len(), 1);
    assert_eq!(contract.get_ambassador_profile("x.near".to_string()).referral_token, "ONE");
}

#[test]
fn token_is_redeemed_once() {
    let mut contract = dao();
    contract.register_ambassador_with("issuer.near".to_string(), None, "ISSUED".to_string()).unwrap();
    let res = contract.register_ambassador_with(
        "first.near".to_string(),
        Some("ISSUED".to_string()),
        "FIRST".to_string(),
    );
    assert_eq!(
        res,
        Ok(Registration {
            result: RegistrationResult::SuccessWithReferral(2),
            due: Some(vec![("issuer.near".to_string(), 500_000_000_000_000_000_000_000)]),
        })
    );
    assert_eq!(contract.get_last_referral_id(), 1);
    {
        let output = contract.get_referral(1).unwrap();
        assert!(matches!(output.payout.status, PayoutStatus::Approved));
        assert_eq!(output.payout.proposer, "first.near");
        assert_eq!(output.payout.description, "Ambassador registration referral");
        assert_eq!(output.payout.votes.entries.len(), 0);
        assert_eq!(output.payout.votes_count.approve_count, 0);
        assert_eq!(output.payout.votes_count.reject_count, 0);
        match &output.payout.info {
            Referral::AmbassadorRegistration { referrer_id, referred_id } => {
                assert_eq!(referrer_id, "first.near");
                assert_eq!(referred_id, "issuer.near");
            }
            _ => panic!("not a registration referral"),
        }
    }
    let issuer = contract.get_ambassador_profile("issuer.near".to_string());
    assert!(issuer.registration_referral_used);
    assert_eq!(issuer.id, 1);
    assert_eq!(issuer.referral_token, "ISSUED");
    let first = contract.get_ambassador_profile("first.near".to_string());
    assert!(!first.registration_referral_used);
    assert_eq!(first.id, 2);
    assert_eq!(first.referral_token, "FIRST");

    let res = contract.register_ambassador_with(
        "second.near".to_string(),
        Some("ISSUED".to_string()),
        "SECOND".to_string(),
    );
    match res {
        Ok(Registration {
            result: RegistrationResult::SuccessWithoutReferral(id, message),
            due: None,
        }) => {
            assert_eq!(id, 3);
            assert_eq!(message, "Your referral token was invalid");
        }
        _ => panic!("unexpected outcome"),
    }
    assert_eq!(contract.get_last_referral_id(), 1);
    assert!(contract.is_registered_ambassador("second.near".to_string()));
    assert!(contract.is_well_formed());
}

#[test]
fn approved_referral_of_a_registration_takes_no_vote() {
    let mut contract = dao();
    contract.register_ambassador_with("issuer.near".to_string(), None, "ISSUED".to_string()).unwrap();
    contract
        .register_ambassador_with(
            "first.near".to_string(),
            Some("ISSUED".to_string()),
            "FIRST".to_string(),
        )
        .unwrap();
    assert_eq!(
        contract.act_payout_referral(
            &"a.near".to_string(),
            1,
            Action::VoteApprove,
            None
        ),
        Err(Error::NotUnderConsideration)
    );
    assert_eq!(
        contract.act_payout_referral(
            &"first.near".to_string(),
            1,
            Action::RemovePayout,
            None
        ),
        Err(Error::NotPermitted)
    );
}

#[test]
fn ids_of_ambassadors_run_out() {
    let mut contract = dao();
    contract.members.last_ambassador_id = u64::MAX;
    let res = contract.register_ambassador_with("x.near".to_string(), None, "FRESH".to_string());
    assert!(matches!(res, Err(Error::IdSpaceExhausted)));
    assert!(!contract.is_registered_ambassador("x.near".to_string()));
    assert_eq!(contract.referral_tokens.len(), 0);
}

#[test]
fn registration_draws_its_token() {
    let mut contract = dao();
    let res = contract.register_ambassador("x.near".to_string(), None);
    assert!(matches!(
        res,
        Ok(Registration { result: RegistrationResult::SuccessWithoutReferral(1, _), due: None })
    ));
    let token = contract.get_ambassador_profile("x.near".to_string()).referral_token;
    assert!(is_token(&token));
    assert_eq!(contract.referral_tokens.get(&token), Some(&"x.near".to_string()));
    let res = contract.register_ambassador("y.near".to_string(), Some(token));
    assert_eq!(
        res,
        Ok(Registration {
            result: RegistrationResult::SuccessWithReferral(2),
            due: Some(vec![("x.near".to_string(), 500_000_000_000_000_000_000_000)]),
        })
    );
    assert!(contract.get_ambassador_profile("x.near".to_string()).registration_referral_used);
    assert!(contract.is_well_formed());
}

#[test]
fn fresh_token_that_was_issued_is_refused() {
    let mut contract = dao();
    contract.register_ambassador_with("x.near".to_string(), None, "ONE".to_string()).unwrap();
    let res = contract.register_ambassador_with("y.near".to_string(), None, "ONE".to_string());
    assert_eq!(res, Err(Error::InvalidInput));
    assert!(!contract.is_registered_ambassador("y.near".to_string()));
    assert_eq!(contract.referral_tokens.get(&"ONE".to_string()), Some(&"x.near".to_string()));
    assert_eq!(contract.members.last_ambassador_id, 1);
    assert!(contract.is_well_formed());
}

#[test]
fn soundness_check_finds_a_token_that_leads_elsewhere() {
    let mut contract = dao();
    contract.register_ambassador_with("x.near".to_string(), None, "ONE".to_string()).unwrap();
    assert!(contract.is_well_formed());
    assert!(contract.tokens_are_live());
    contract.referral_tokens.insert("ONE".to_string(), "y.near".to_string());
    assert!(!contract.tokens_are_live());
    assert!(!contract.is_well_formed());
    contract.referral_tokens.entries.clear();
    assert!(!contract.is_well_formed());
}

#[test]
fn later_claim_of_a_registration_referral() {
    let mut contract = dao();
    contract.register_ambassador_with("issuer.near".to_string(), None, "ISSUED".to_string()).unwrap();
    contract.register_ambassador_with("late.near".to_string(), None, "LATE".to_string()).unwrap();
    let late = "late.near".to_string();
    assert_eq!(
        contract.add_registration_referral_with_token(&"nobody.near".to_string(), "ISSUED".to_string()),
        Err(Error::AmbassadorNotFound)
    );
    assert_eq!(
        contract.add_registration_referral_with_token(&late, "UNKNOWN".to_string()),
        Err(Error::InvalidInput)
    );
    assert_eq!(
        contract.add_registration_referral_with_token(&late, "LATE".to_string()),
        Err(Error::NotPermitted)
    );
    assert_eq!(contract.get_last_referral_id(), 0);
    assert!(!contract.get_ambassador_profile("issuer.near".to_string()).registration_referral_used);
    assert_eq!(contract.add_registration_referral_with_token(&late, "ISSUED".to_string()), Ok(1));
    {
        let output = contract.get_referral(1).unwrap();
        assert!(matches!(output.payout.status, PayoutStatus::UnderConsideration));
        assert_eq!(output.payout.proposer, "late.near");
        assert_eq!(output.payout.description, "Ambassador registration referral");
        assert_eq!(
            output.payout.info,
            Referral::AmbassadorRegistration {
                referrer_id: "late.near".to_string(),
                referred_id: "issuer.near".to_string(),
            }
        );
    }
    assert!(contract.get_ambassador_profile("issuer.near".to_string()).registration_referral_used);
    assert!(!contract.get_ambassador_profile("late.near".to_string()).registration_referral_used);
    // the token is used up: neither a second claim nor a registration redeems it
    assert_eq!(
        contract.add_registration_referral_with_token(&late, "ISSUED".to_string()),
        Err(Error::NotPermitted)
    );
    let res = contract.register_ambassador_with(
        "new.near".to_string(),
        Some("ISSUED".to_string()),
        "NEW".to_string(),
    );
    assert!(matches!(
        res,
        Ok(Registration { result: RegistrationResult::SuccessWithoutReferral(3, _), due: None })
    ));
    // the council decides on the claim, and the issuer is paid on approval
    assert_eq!(contract.act_payout_referral(&"a.near".to_string(), 1, Action::VoteApprove, None), Ok(None));
    assert_eq!(
        contract.act_payout_referral(&"b.near".to_string(), 1, Action::VoteApprove, None),
        Ok(Some(vec![("issuer.near".to_string(), 500_000_000_000_000_000_000_000)]))
    );
    assert!(contract.is_well_formed());
}

#[test]
fn claim_after_a_redemption_is_refused() {
    let mut contract = dao();
    contract.register_ambassador_with("issuer.near".to_string(), None, "ISSUED".to_string()).unwrap();
    contract.register_ambassador_with("late.near".to_string(), None, "LATE".to_string()).unwrap();
    contract
        .register_ambassador_with(
            "first.near".to_string(),
            Some("ISSUED".to_string()),
            "FIRST".to_string(),
        )
        .unwrap();
    assert_eq!(
        contract.add_registration_referral_with_token(&"late.near".to_string(), "ISSUED".to_string()),
        Err(Error::NotPermitted)
    );
    assert_eq!(contract.get_last_referral_id(), 1);
}
