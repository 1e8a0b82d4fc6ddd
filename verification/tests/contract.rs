use ambassadors_dao::amounts;
use ambassadors_dao::contract::Contract;
use ambassadors_dao::error::Error;
use ambassadors_dao::payout::bounty::bounty_transfers;
use ambassadors_dao::payout::miscellaneous::miscellaneous_transfers;
use ambassadors_dao::payout::proposal::proposal_transfers;
use ambassadors_dao::payout::referrals::referral_transfers;
use ambassadors_dao::payout::{
    Bounty, Miscellaneous, NCDReferralKind, Payout, PayoutInput, PayoutStatus, Proposal, Referral,
    SubmissionInfo,
};
use ambassadors_dao::types::{Action, ONE_NEAR};

fn council_of_three() -> Contract {
    Contract::new(
        "ambassadors".to_string(),
        "to reward the work of ambassadors".to_string(),
        vec!["a.near".to_string(), "b.near".to_string(), "c.near".to_string()],
    )
}

fn open_proposal(budget: u128, document: &str) -> PayoutInput<Proposal> {
    PayoutInput {
        description: "an open proposal".to_string(),
        information: Proposal::Open {
            estimated_budget: budget,
            supporting_document: document.to_string(),
        },
    }
}

fn winner(name: &str) -> SubmissionInfo {
    SubmissionInfo {
        name: name.to_string(),
        account_id: format!("{}.near", name),
        submission_link: format!("https://example.com/{}", name),
    }
}

fn hackathon(registrations: u64, winners: Vec<SubmissionInfo>) -> PayoutInput<Bounty> {
    PayoutInput {
        description: "a hackathon".to_string(),
        information: Bounty::HackathonCompletion {
            num_of_registrations: registrations,
            num_of_submissions: 5,
            winners_info: winners,
        },
    }
}

fn approve_by_all(
    contract: &mut Contract,
    act: fn(&mut Contract, &String, u64, Action, Option<String>) -> Result<Option<Vec<(String, u128)>>, Error>,
    id: u64,
) -> Option<Vec<(String, u128)>> {
    assert_eq!(act(contract, &"a.near".to_string(), id, Action::VoteApprove, None), Ok(None));
    assert_eq!(act(contract, &"b.near".to_string(), id, Action::VoteReject, None), Ok(None));
    act(contract, &"c.near".to_string(), id, Action::VoteApprove, None).unwrap()
}

#[test]
fn generates_contract() {
    let contract = council_of_three();
    assert!(contract.is_well_formed());
    println!("it works");
}

#[test]
fn new_contract_is_empty() {
    let contract = council_of_three();
    assert_eq!(contract.config.name, "ambassadors");
    assert_eq!(contract.config.purpose, "to reward the work of ambassadors");
    assert_eq!(contract.get_config().name, "ambassadors");
    assert_eq!(contract.members.get_council_size(), 3);
    assert_eq!(contract.get_council(), vec!["a.near", "b.near", "c.near"]);
    assert!(contract.is_council_member("b.near".to_string()));
    assert!(!contract.is_council_member("d.near".to_string()));
    assert_eq!(contract.get_last_proposal_id(), 0);
    assert_eq!(contract.get_last_bounty_id(), 0);
    assert_eq!(contract.get_last_miscellaneous_id(), 0);
    assert_eq!(contract.get_last_referral_id(), 0);
    assert_eq!(contract.referral_tokens.len(), 0);
    assert_eq!(contract.members.last_ambassador_id, 0);
}

#[test]
fn council_names_each_member_once() {
    let contract = Contract::new(
        "ambassadors".to_string(),
        "purpose".to_string(),
        vec!["a.near".to_string(), "b.near".to_string(), "a.near".to_string()],
    );
    assert_eq!(contract.members.get_council_size(), 2);
    assert_eq!(contract.get_council(), vec!["a.near", "b.near"]);
    assert!(contract.is_well_formed());
}

#[test]
fn proposals_get_ids_from_one() {
    let mut contract = council_of_three();
    let first = contract
        .add_payout_proposal("p.near".to_string(), open_proposal(5, "https://example.com/1"));
    assert_eq!(first, Ok(1));
    let second = contract
        .add_payout_proposal("q.near".to_string(), open_proposal(6, "http://example.com/2"));
    assert_eq!(second, Ok(2));
    assert_eq!(contract.get_last_proposal_id(), 2);
    let output = contract.get_proposal(2).unwrap();
    assert_eq!(output.id, 2);
    assert_eq!(output.payout.proposer, "q.near");
    assert_eq!(output.payout.description, "an open proposal");
    assert!(matches!(output.payout.status, PayoutStatus::UnderConsideration));
    assert!(matches!(
        output.payout.info,
        Proposal::Open { estimated_budget: 6, .. }
    ));
    assert!(contract.is_well_formed());
    assert_eq!(contract.get_last_bounty_id(), 0);
}

#[test]
fn proposal_with_a_bad_link_is_refused() {
    let mut contract = council_of_three();
    assert_eq!(
        contract.add_payout_proposal("p.near".to_string(), open_proposal(5, "example.com")),
        Err(Error::InvalidInput)
    );
    assert_eq!(
        contract.add_payout_proposal(
            "p.near".to_string(),
            PayoutInput {
                description: "a hackathon".to_string(),
                information: Proposal::Hackathon {
                    expected_registrations: 10,
                    estimated_budget: 3,
                    supporting_document: "".to_string(),
                },
            }
        ),
        Err(Error::InvalidInput)
    );
    assert_eq!(
        contract.add_payout_proposal(
            "p.near".to_string(),
            PayoutInput {
                description: "a contest".to_string(),
                information: Proposal::MemeContest {
                    expected_registrations: 10,
                    estimated_budget: 3,
                    supporting_document: "  ".to_string(),
                },
            }
        ),
        Err(Error::InvalidInput)
    );
    assert_eq!(contract.get_last_proposal_id(), 0);
}

#[test]
fn approved_proposal_pays_its_budget_to_the_proposer() {
    let mut contract = council_of_three();
    let budget = 250 * ONE_NEAR;
    contract
        .add_payout_proposal("p.near".to_string(), open_proposal(budget, "https://example.com/1"))
        .unwrap();
    let due = approve_by_all(&mut contract, Contract::act_payout_proposal, 1);
    assert_eq!(due, Some(vec![("p.near".to_string(), budget)]));
    let output = contract.get_proposal(1).unwrap();
    assert!(matches!(output.payout.status, PayoutStatus::Approved));
    assert_eq!(output.payout.votes_count.approve_count, 2);
    assert_eq!(output.payout.votes_count.reject_count, 1);
    assert!(contract.is_well_formed());
}

#[test]
fn rejected_proposal_pays_nothing() {
    let mut contract = council_of_three();
    contract
        .add_payout_proposal("p.near".to_string(), open_proposal(9, "https://example.com/1"))
        .unwrap();
    let a = "a.near".to_string();
    let b = "b.near".to_string();
    let c = "c.near".to_string();
    assert_eq!(contract.act_payout_proposal(&a, 1, Action::VoteReject, None), Ok(None));
    assert_eq!(contract.act_payout_proposal(&b, 1, Action::VoteReject, None), Ok(None));
    assert_eq!(contract.act_payout_proposal(&c, 1, Action::VoteApprove, None), Ok(None));
    assert!(matches!(contract.get_proposal(1).unwrap().payout.status, PayoutStatus::Rejected));
}

#[test]
fn hackathon_and_meme_contest_proposals_pay_their_budget() {
    let payout: Payout<Proposal> = Payout::from_input(
        "p.near".to_string(),
        PayoutInput {
            description: "a hackathon".to_string(),
            information: Proposal::Hackathon {
                expected_registrations: 10,
                estimated_budget: 77,
                supporting_document: "https://example.com".to_string(),
            },
        },
    );
    assert_eq!(proposal_transfers(&payout), vec![("p.near".to_string(), 77)]);
    let payout: Payout<Proposal> = Payout::from_input(
        "q.near".to_string(),
        PayoutInput {
            description: "a contest".to_string(),
            information: Proposal::MemeContest {
                expected_registrations: 10,
                estimated_budget: 78,
                supporting_document: "https://example.com".to_string(),
            },
        },
    );
    assert_eq!(proposal_transfers(&payout), vec![("q.near".to_string(), 78)]);
}

#[test]
fn acting_on_an_unknown_id_fails_by_category() {
    let mut contract = council_of_three();
    let a = "a.near".to_string();
    assert_eq!(
        contract.act_payout_proposal(&a, 1, Action::VoteApprove, None),
        Err(Error::ProposalNotFound)
    );
    assert_eq!(
        contract.act_payout_proposal(&a, 0, Action::VoteApprove, None),
        Err(Error::ProposalNotFound)
    );
    assert_eq!(
        contract.act_payout_bounty(&a, 1, Action::VoteApprove, None),
        Err(Error::BountyNotFound)
    );
    assert_eq!(
        contract.act_payout_miscellaneous(&a, 1, Action::RemovePayout, None),
        Err(Error::MiscellaneousNotFound)
    );
    assert_eq!(
        contract.act_payout_referral(&a, 7, Action::VoteReject, None),
        Err(Error::ReferralNotFound)
    );
    assert!(matches!(contract.get_proposal(1), Err(Error::ProposalNotFound)));
    assert!(matches!(contract.get_bounty(1), Err(Error::BountyNotFound)));
    assert!(matches!(contract.get_miscellaneous(1), Err(Error::MiscellaneousNotFound)));
    assert!(matches!(contract.get_referral(1), Err(Error::ReferralNotFound)));
}

#[test]
fn strangers_do_not_vote_and_members_vote_once() {
    let mut contract = council_of_three();
    contract
        .add_payout_proposal("p.near".to_string(), open_proposal(9, "https://example.com/1"))
        .unwrap();
    assert_eq!(
        contract.act_payout_proposal(&"p.near".to_string(), 1, Action::VoteApprove, None),
        Err(Error::NotPermitted)
    );
    let a = "a.near".to_string();
    assert_eq!(contract.act_payout_proposal(&a, 1, Action::VoteApprove, None), Ok(None));
    assert_eq!(
        contract.act_payout_proposal(&a, 1, Action::VoteApprove, None),
        Err(Error::AlreadyVoted)
    );
    assert_eq!(contract.get_proposal(1).unwrap().payout.votes_count.approve_count, 1);
}

#[test]
fn removal_is_for_the_proposer_and_is_final() {
    let mut contract = council_of_three();
    contract
        .add_payout_proposal("p.near".to_string(), open_proposal(9, "https://example.com/1"))
        .unwrap();
    let a = "a.near".to_string();
    let p = "p.near".to_string();
    assert_eq!(
        contract.act_payout_proposal(&a, 1, Action::RemovePayout, None),
        Err(Error::NotPermitted)
    );
    assert_eq!(
        contract.act_payout_proposal(&p, 1, Action::RemovePayout, Some("withdrawn".to_string())),
        Ok(None)
    );
    match &contract.get_proposal(1).unwrap().payout.status {
        PayoutStatus::Removed(note) => assert_eq!(note.as_deref(), Some("withdrawn")),
        _ => panic!("the proposal was not removed"),
    }
    assert_eq!(
        contract.act_payout_proposal(&p, 1, Action::RemovePayout, None),
        Err(Error::NotPermitted)
    );
    assert_eq!(
        contract.act_payout_proposal(&a, 1, Action::VoteApprove, None),
        Err(Error::NotUnderConsideration)
    );
}

#[test]
fn bounty_payloads_are_checked() {
    let mut contract = council_of_three();
    let three = || vec![winner("x"), winner("y"), winner("z")];
    assert_eq!(
        contract.add_payout_bounty("p.near".to_string(), hackathon(21, three())),
        Err(Error::InvalidInput)
    );
    assert_eq!(
        contract.add_payout_bounty("p.near".to_string(), hackathon(20, vec![winner("x"), winner("y")])),
        Err(Error::InvalidInput)
    );
    assert_eq!(
        contract.add_payout_bounty(
            "p.near".to_string(),
            hackathon(20, vec![winner("x"), winner("y"), winner("z"), winner("w")])
        ),
        Err(Error::InvalidInput)
    );
    assert_eq!(contract.add_payout_bounty("p.near".to_string(), hackathon(20, three())), Ok(1));
    let meme = |registrations: u64, winners: Vec<SubmissionInfo>| PayoutInput {
        description: "a meme contest".to_string(),
        information: Bounty::MemeContestCompletion {
            num_of_registrations: registrations,
            num_of_submissions: 5,
            winners_info: winners,
        },
    };
    assert_eq!(
        contract.add_payout_bounty("p.near".to_string(), meme(21, three())),
        Err(Error::InvalidInput)
    );
    assert_eq!(
        contract.add_payout_bounty("p.near".to_string(), meme(3, vec![])),
        Err(Error::InvalidInput)
    );
    assert_eq!(contract.add_payout_bounty("p.near".to_string(), meme(0, three())), Ok(2));
    let webinar = |attendees: u64, link: &str| PayoutInput {
        description: "a webinar".to_string(),
        information: Bounty::Webinar {
            num_of_registrations: 100,
            num_of_attendees: attendees,
            webinar_link: link.to_string(),
        },
    };
    assert_eq!(
        contract.add_payout_bounty("p.near".to_string(), webinar(51, "https://example.com")),
        Err(Error::InvalidInput)
    );
    assert_eq!(
        contract.add_payout_bounty("p.near".to_string(), webinar(50, "example.com")),
        Err(Error::InvalidInput)
    );
    assert_eq!(
        contract.add_payout_bounty("p.near".to_string(), webinar(50, "https://example.com")),
        Ok(3)
    );
    let content = |links: Vec<String>, story: &str, tools: Vec<String>| PayoutInput {
        description: "content".to_string(),
        information: Bounty::ContentCoordination {
            content_links: links,
            story: story.to_string(),
            tools_used: tools,
        },
    };
    let one = || vec!["one".to_string()];
    assert_eq!(
        contract.add_payout_bounty("p.near".to_string(), content(vec![], "story", one())),
        Err(Error::InvalidInput)
    );
    assert_eq!(
        contract.add_payout_bounty("p.near".to_string(), content(one(), "", one())),
        Err(Error::InvalidInput)
    );
    assert_eq!(
        contract.add_payout_bounty("p.near".to_string(), content(one(), "story", vec![])),
        Err(Error::InvalidInput)
    );
    assert_eq!(
        contract.add_payout_bounty("p.near".to_string(), content(one(), "story", one())),
        Ok(4)
    );
    assert_eq!(contract.get_last_bounty_id(), 4);
    assert!(contract.is_well_formed());
}

#[test]
fn approved_hackathon_pays_proposer_and_winners_by_rank() {
    let mut contract = council_of_three();
    contract
        .add_payout_bounty(
            "p.near".to_string(),
            hackathon(12, vec![winner("x"), winner("y"), winner("z")]),
        )
        .unwrap();
    let due = approve_by_all(&mut contract, Contract::act_payout_bounty, 1);
    assert_eq!(
        due,
        Some(vec![
            ("p.near".to_string(), 4 * ONE_NEAR),
            ("x.near".to_string(), 15 * ONE_NEAR),
            ("y.near".to_string(), 10 * ONE_NEAR),
            ("z.near".to_string(), 5 * ONE_NEAR),
        ])
    );
    assert!(matches!(contract.get_bounty(1).unwrap().payout.status, PayoutStatus::Approved));
}

#[test]
fn bounties_pay_by_their_kind() {
    let meme: Payout<Bounty> = Payout::from_input(
        "p.near".to_string(),
        PayoutInput {
            description: "a meme contest".to_string(),
            information: Bounty::MemeContestCompletion {
                num_of_registrations: 5,
                num_of_submissions: 5,
                winners_info: vec![winner("x"), winner("y"), winner("z")],
            },
        },
    );
    assert_eq!(
        bounty_transfers(&meme),
        vec![
            ("p.near".to_string(), 2_000_000_000_000_000_000_000_000),
            ("x.near".to_string(), 7_500_000_000_000_000_000_000_000),
            ("y.near".to_string(), 5_000_000_000_000_000_000_000_000),
            ("z.near".to_string(), 2_500_000_000_000_000_000_000_000),
        ]
    );
    let webinar: Payout<Bounty> = Payout::from_input(
        "p.near".to_string(),
        PayoutInput {
            description: "a webinar".to_string(),
            information: Bounty::Webinar {
                num_of_registrations: 100,
                num_of_attendees: 40,
                webinar_link: "https://example.com".to_string(),
            },
        },
    );
    assert_eq!(bounty_transfers(&webinar), vec![("p.near".to_string(), 2 * ONE_NEAR)]);
    let content: Payout<Bounty> = Payout::from_input(
        "p.near".to_string(),
        PayoutInput {
            description: "content".to_string(),
            information: Bounty::ContentCoordination {
                content_links: vec!["https://example.com".to_string()],
                story: "story".to_string(),
                tools_used: vec!["pen".to_string()],
            },
        },
    );
    assert_eq!(
        bounty_transfers(&content),
        vec![("p.near".to_string(), 2_500_000_000_000_000_000_000_000)]
    );
}

#[test]
fn miscellaneous_payloads_are_checked_and_paid() {
    let mut contract = council_of_three();
    let creation = |links: Vec<String>| PayoutInput {
        description: "content".to_string(),
        information: Miscellaneous::ContentCreationBounty {
            links_to_content: links,
            expected_amount: 33,
            note: "a note".to_string(),
        },
    };
    assert_eq!(
        contract.add_payout_miscellaneous("p.near".to_string(), creation(vec![])),
        Err(Error::InvalidInput)
    );
    assert_eq!(
        contract.add_payout_miscellaneous("p.near".to_string(), creation(vec!["l".to_string()])),
        Ok(1)
    );
    let mou = |link: &str| PayoutInput {
        description: "an agreement".to_string(),
        information: Miscellaneous::CampusSigningMOU { supporting_document: link.to_string() },
    };
    assert_eq!(
        contract.add_payout_miscellaneous("p.near".to_string(), mou("mou.pdf")),
        Err(Error::InvalidInput)
    );
    assert_eq!(
        contract.add_payout_miscellaneous("q.near".to_string(), mou("https://example.com/mou.pdf")),
        Ok(2)
    );
    let bonus = |links: Vec<String>| PayoutInput {
        description: "a bonus".to_string(),
        information: Miscellaneous::CampusAmbassadorBonus { links_to_payouts: links },
    };
    assert_eq!(
        contract.add_payout_miscellaneous("p.near".to_string(), bonus(vec![])),
        Err(Error::InvalidInput)
    );
    assert_eq!(
        contract.add_payout_miscellaneous("r.near".to_string(), bonus(vec!["l".to_string()])),
        Ok(3)
    );
    assert_eq!(
        approve_by_all(&mut contract, Contract::act_payout_miscellaneous, 1),
        Some(vec![("p.near".to_string(), 33)])
    );
    assert_eq!(
        approve_by_all(&mut contract, Contract::act_payout_miscellaneous, 2),
        Some(vec![("q.near".to_string(), 10 * ONE_NEAR)])
    );
    assert_eq!(
        approve_by_all(&mut contract, Contract::act_payout_miscellaneous, 3),
        Some(vec![("r.near".to_string(), 12_500_000_000_000_000_000_000_000)])
    );
    assert_eq!(
        miscellaneous_transfers(contract.get_miscellaneous(3).unwrap().payout),
        vec![("r.near".to_string(), amounts::CA_BONUS_AMOUNT)]
    );
    assert!(contract.is_well_formed());
}

#[test]
fn referrals_of_outsiders_are_checked_and_paid() {
    let mut contract = council_of_three();
    contract
        .register_ambassador_with("amb.near".to_string(), None, "TOKEN".to_string())
        .unwrap();
    let recruitment = |referred: &str| PayoutInput {
        description: "a recruitment".to_string(),
        information: Referral::Recruitment {
            referrer_id: "amb.near".to_string(),
            referred_id: referred.to_string(),
        },
    };
    assert_eq!(
        contract.add_payout_referral("amb.near".to_string(), recruitment("amb.near")),
        Err(Error::InvalidInput)
    );
    assert_eq!(
        contract.add_payout_referral("amb.near".to_string(), recruitment("new.near")),
        Ok(1)
    );
    let developer = |referred: &str, kind: NCDReferralKind, link: &str| PayoutInput {
        description: "a developer".to_string(),
        information: Referral::NearCertifiedDeveloper {
            referrer_id: "amb.near".to_string(),
            referred_id: referred.to_string(),
            kind,
            proof_link: link.to_string(),
        },
    };
    assert_eq!(
        contract.add_payout_referral(
            "amb.near".to_string(),
            developer("amb.near", NCDReferralKind::Completion, "https://example.com")
        ),
        Err(Error::InvalidInput)
    );
    assert_eq!(
        contract.add_payout_referral(
            "amb.near".to_string(),
            developer("dev.near", NCDReferralKind::Completion, "nowhere")
        ),
        Err(Error::InvalidInput)
    );
    assert_eq!(
        contract.add_payout_referral(
            "amb.near".to_string(),
            developer("dev.near", NCDReferralKind::Completion, "https://example.com")
        ),
        Ok(2)
    );
    assert_eq!(
        contract.add_payout_referral(
            "amb.near".to_string(),
            developer("form.near", NCDReferralKind::FormFilled, "https://example.com")
        ),
        Ok(3)
    );
    assert_eq!(
        approve_by_all(&mut contract, Contract::act_payout_referral, 1),
        Some(vec![("new.near".to_string(), ONE_NEAR)])
    );
    assert_eq!(
        approve_by_all(&mut contract, Contract::act_payout_referral, 2),
        Some(vec![("dev.near".to_string(), 500_000_000_000_000_000_000_000)])
    );
    assert_eq!(
        approve_by_all(&mut contract, Contract::act_payout_referral, 3),
        Some(vec![("form.near".to_string(), 100_000_000_000_000_000_000_000)])
    );
    let profile = contract.get_ambassador_profile("amb.near".to_string());
    assert!(!profile.registration_referral_used);
    assert!(contract.is_well_formed());
}

#[test]
fn registration_referral_by_vote_marks_the_referred_ambassador() {
    let mut contract = council_of_three();
    contract
        .register_ambassador_with("old.near".to_string(), None, "OLD".to_string())
        .unwrap();
    contract
        .register_ambassador_with("new.near".to_string(), None, "NEW".to_string())
        .unwrap();
    let registration = |referrer: &str, referred: &str| PayoutInput {
        description: "a registration".to_string(),
        information: Referral::AmbassadorRegistration {
            referrer_id: referrer.to_string(),
            referred_id: referred.to_string(),
        },
    };
    assert_eq!(
        contract.add_payout_referral("new.near".to_string(), registration("new.near", "nobody.near")),
        Err(Error::InvalidInput)
    );
    assert_eq!(
        contract.add_payout_referral("new.near".to_string(), registration("nobody.near", "old.near")),
        Err(Error::InvalidInput)
    );
    assert_eq!(
        contract.add_payout_referral("new.near".to_string(), registration("new.near", "old.near")),
        Ok(1)
    );
    assert!(!contract.get_ambassador_profile("old.near".to_string()).registration_referral_used);
    assert_eq!(
        approve_by_all(&mut contract, Contract::act_payout_referral, 1),
        Some(vec![("old.near".to_string(), 500_000_000_000_000_000_000_000)])
    );
    let old = contract.get_ambassador_profile("old.near".to_string());
    assert!(old.registration_referral_used);
    assert_eq!(old.id, 1);
    assert_eq!(old.referral_token, "OLD");
    assert!(!contract.get_ambassador_profile("new.near".to_string()).registration_referral_used);
    assert_eq!(
        contract.add_payout_referral("new.near".to_string(), registration("new.near", "old.near")),
        Err(Error::InvalidInput)
    );
    assert_eq!(
        referral_transfers(contract.get_referral(1).unwrap().payout),
        vec![("old.near".to_string(), amounts::CA_REGISTER_REFERRAL_AMOUNT)]
    );
    assert!(contract.is_well_formed());
}

#[test]
fn soundness_check_finds_a_broken_state() {
    let mut contract = council_of_three();
    contract
        .add_payout_proposal("p.near".to_string(), open_proposal(9, "https://example.com/1"))
        .unwrap();
    assert!(contract.is_well_formed());
    contract.proposals.last_id = 2;
    assert!(!contract.is_well_formed());
    contract.proposals.last_id = 1;
    contract.proposals.records[0].votes_count.reject_count = 1;
    assert!(!contract.is_well_formed());
    contract.proposals.records[0].votes_count.reject_count = 0;
    assert!(contract.is_well_formed());
    contract.members.council.items.entries.push(("a.near".to_string(), ()));
    assert!(!contract.is_well_formed());
}
