use ambassadors_dao::error::Error;
use ambassadors_dao::payout::{
    count_votes, internal_act_payout, internal_update_payout_status, Payout, PayoutInput,
    PayoutStatus, VotesCount,
};
use ambassadors_dao::types::Action;
use ambassadors_dao::vote::Vote;

fn fresh(proposer: &str) -> Payout<u8> {
    Payout::from_input(
        proposer.to_string(),
        PayoutInput { description: "a payout".to_string(), information: 7 },
    )
}

fn act(payout: &mut Payout<u8>, council_size: u64, signer: &str, action: Action) -> Result<(), Error> {
    internal_act_payout(true, council_size, payout, &signer.to_string(), action, None)
}

#[test]
fn new_payout_is_under_consideration_without_votes() {
    let payout = fresh("proposer.near");
    assert!(matches!(payout.status, PayoutStatus::UnderConsideration));
    assert_eq!(payout.proposer, "proposer.near");
    assert_eq!(payout.info, 7);
    assert_eq!(payout.description, "a payout");
    assert_eq!(payout.votes.entries.len(), 0);
    assert_eq!(payout.votes_count.approve_count, 0);
    assert_eq!(payout.votes_count.reject_count, 0);
    assert!(payout.is_well_formed(1));
    assert!(!payout.is_well_formed(0));
}

#[test]
fn votes_count_starts_at_zero() {
    let count = VotesCount::new();
    assert_eq!(count.approve_count, 0);
    assert_eq!(count.reject_count, 0);
    let count = VotesCount::default();
    assert_eq!(count.approve_count, 0);
    assert_eq!(count.reject_count, 0);
}

#[test]
fn three_members_two_approvals_approve() {
    let mut payout = fresh("proposer.near");
    assert_eq!(act(&mut payout, 3, "a.near", Action::VoteApprove), Ok(()));
    assert!(matches!(payout.status, PayoutStatus::UnderConsideration));
    assert_eq!(act(&mut payout, 3, "b.near", Action::VoteApprove), Ok(()));
    assert!(matches!(payout.status, PayoutStatus::UnderConsideration));
    assert_eq!(act(&mut payout, 3, "c.near", Action::VoteReject), Ok(()));
    assert!(matches!(payout.status, PayoutStatus::Approved));
    assert_eq!(payout.votes_count.approve_count, 2);
    assert_eq!(payout.votes_count.reject_count, 1);
    assert_eq!(payout.votes.entries.len(), 3);
    assert!(payout.is_well_formed(3));
}

#[test]
fn four_members_tie_approves() {
    let mut payout = fresh("proposer.near");
    assert_eq!(act(&mut payout, 4, "a.near", Action::VoteApprove), Ok(()));
    assert_eq!(act(&mut payout, 4, "b.near", Action::VoteReject), Ok(()));
    assert_eq!(act(&mut payout, 4, "c.near", Action::VoteApprove), Ok(()));
    assert!(matches!(payout.status, PayoutStatus::UnderConsideration));
    assert_eq!(act(&mut payout, 4, "d.near", Action::VoteReject), Ok(()));
    assert!(matches!(payout.status, PayoutStatus::Approved));
    assert_eq!(payout.votes_count.approve_count, 2);
    assert_eq!(payout.votes_count.reject_count, 2);
}

#[test]
fn three_members_two_rejections_reject() {
    let mut payout = fresh("proposer.near");
    assert_eq!(act(&mut payout, 3, "a.near", Action::VoteReject), Ok(()));
    assert_eq!(act(&mut payout, 3, "b.near", Action::VoteApprove), Ok(()));
    assert_eq!(act(&mut payout, 3, "c.near", Action::VoteReject), Ok(()));
    assert!(matches!(payout.status, PayoutStatus::Rejected));
}

#[test]
fn order_of_votes_does_not_matter() {
    let mut first = fresh("proposer.near");
    act(&mut first, 3, "a.near", Action::VoteReject).unwrap();
    act(&mut first, 3, "b.near", Action::VoteApprove).unwrap();
    act(&mut first, 3, "c.near", Action::VoteApprove).unwrap();
    let mut second = fresh("proposer.near");
    act(&mut second, 3, "c.near", Action::VoteApprove).unwrap();
    act(&mut second, 3, "a.near", Action::VoteReject).unwrap();
    act(&mut second, 3, "b.near", Action::VoteApprove).unwrap();
    assert!(matches!(first.status, PayoutStatus::Approved));
    assert!(matches!(second.status, PayoutStatus::Approved));
}

#[test]
fn single_member_decides_alone() {
    let mut payout = fresh("proposer.near");
    assert_eq!(act(&mut payout, 1, "a.near", Action::VoteReject), Ok(()));
    assert!(matches!(payout.status, PayoutStatus::Rejected));
    let mut payout = fresh("proposer.near");
    assert_eq!(act(&mut payout, 1, "a.near", Action::VoteApprove), Ok(()));
    assert!(matches!(payout.status, PayoutStatus::Approved));
}

#[test]
fn second_vote_of_a_member_is_refused() {
    let mut payout = fresh("proposer.near");
    assert_eq!(act(&mut payout, 3, "a.near", Action::VoteApprove), Ok(()));
    assert_eq!(act(&mut payout, 3, "a.near", Action::VoteApprove), Err(Error::AlreadyVoted));
    assert_eq!(act(&mut payout, 3, "a.near", Action::VoteReject), Err(Error::AlreadyVoted));
    assert_eq!(payout.votes_count.approve_count, 1);
    assert_eq!(payout.votes_count.reject_count, 0);
    assert_eq!(payout.votes.entries.len(), 1);
    assert!(matches!(payout.status, PayoutStatus::UnderConsideration));
}

#[test]
fn second_vote_is_refused_even_after_the_decision() {
    let mut payout = fresh("proposer.near");
    assert_eq!(act(&mut payout, 1, "a.near", Action::VoteApprove), Ok(()));
    assert!(matches!(payout.status, PayoutStatus::Approved));
    assert_eq!(act(&mut payout, 1, "a.near", Action::VoteApprove), Err(Error::AlreadyVoted));
}

#[test]
fn vote_of_a_stranger_is_not_permitted() {
    let mut payout = fresh("proposer.near");
    assert_eq!(
        internal_act_payout(
            false,
            3,
            &mut payout,
            &"stranger.near".to_string(),
            Action::VoteApprove,
            None
        ),
        Err(Error::NotPermitted)
    );
    assert_eq!(payout.votes.entries.len(), 0);
    assert_eq!(payout.votes_count.approve_count, 0);
}

#[test]
fn decided_payout_takes_no_vote_and_no_removal() {
    let mut payout = fresh("proposer.near");
    act(&mut payout, 2, "a.near", Action::VoteReject).unwrap();
    act(&mut payout, 2, "b.near", Action::VoteReject).unwrap();
    assert!(matches!(payout.status, PayoutStatus::Rejected));
    assert_eq!(act(&mut payout, 2, "c.near", Action::VoteApprove), Err(Error::NotUnderConsideration));
    assert_eq!(act(&mut payout, 2, "c.near", Action::VoteReject), Err(Error::NotUnderConsideration));
    assert_eq!(act(&mut payout, 2, "proposer.near", Action::RemovePayout), Err(Error::NotPermitted));
    assert!(matches!(payout.status, PayoutStatus::Rejected));
    assert_eq!(payout.votes.entries.len(), 2);
}

#[test]
fn proposer_removes_with_a_note() {
    let mut payout = fresh("proposer.near");
    act(&mut payout, 3, "a.near", Action::VoteApprove).unwrap();
    assert_eq!(
        internal_act_payout(
            false,
            3,
            &mut payout,
            &"proposer.near".to_string(),
            Action::RemovePayout,
            Some("changed my mind".to_string())
        ),
        Ok(())
    );
    match &payout.status {
        PayoutStatus::Removed(note) => assert_eq!(note.as_deref(), Some("changed my mind")),
        _ => panic!("the payout was not removed"),
    }
    assert_eq!(payout.votes.entries.len(), 1);
    assert_eq!(act(&mut payout, 3, "b.near", Action::VoteApprove), Err(Error::NotUnderConsideration));
    assert_eq!(act(&mut payout, 3, "proposer.near", Action::RemovePayout), Err(Error::NotPermitted));
}

#[test]
fn removal_without_a_note() {
    let mut payout = fresh("proposer.near");
    assert_eq!(act(&mut payout, 3, "proposer.near", Action::RemovePayout), Ok(()));
    assert!(matches!(payout.status, PayoutStatus::Removed(None)));
}

#[test]
fn only_the_proposer_removes() {
    let mut payout = fresh("proposer.near");
    assert_eq!(act(&mut payout, 3, "a.near", Action::RemovePayout), Err(Error::NotPermitted));
    assert!(matches!(payout.status, PayoutStatus::UnderConsideration));
}

#[test]
fn status_follows_the_counts_alone() {
    let mut payout = fresh("proposer.near");
    payout.votes_count = VotesCount { approve_count: 1, reject_count: 2 };
    internal_update_payout_status(4, &mut payout);
    assert!(matches!(payout.status, PayoutStatus::UnderConsideration));
    internal_update_payout_status(3, &mut payout);
    assert!(matches!(payout.status, PayoutStatus::Rejected));
    payout.votes_count = VotesCount { approve_count: u64::MAX, reject_count: u64::MAX };
    internal_update_payout_status(u64::MAX, &mut payout);
    assert!(matches!(payout.status, PayoutStatus::Rejected));
}

#[test]
fn votes_are_counted_by_kind() {
    let mut payout = fresh("proposer.near");
    act(&mut payout, 5, "a.near", Action::VoteReject).unwrap();
    act(&mut payout, 5, "b.near", Action::VoteApprove).unwrap();
    act(&mut payout, 5, "c.near", Action::VoteReject).unwrap();
    assert_eq!(count_votes(&payout.votes), (1, 2));
    assert_eq!(payout.votes.get(&"a.near".to_string()), Some(&Vote::Reject));
    assert_eq!(payout.votes.get(&"b.near".to_string()), Some(&Vote::Approve));
    assert_eq!(payout.votes.get(&"d.near".to_string()), None);
}

#[test]
fn soundness_check_finds_wrong_counters() {
    let mut payout = fresh("proposer.near");
    act(&mut payout, 3, "a.near", Action::VoteApprove).unwrap();
    assert!(payout.is_well_formed(3));
    assert!(!payout.is_well_formed(1));
    payout.votes_count.approve_count = 2;
    assert!(!payout.is_well_formed(3));
    payout.votes_count.approve_count = 0;
    payout.votes_count.reject_count = 1;
    assert!(!payout.is_well_formed(3));
}

#[test]
fn vote_of_an_action() {
    assert_eq!(Vote::from_action(Action::VoteApprove), Vote::Approve);
    assert_eq!(Vote::from_action(Action::VoteReject), Vote::Reject);
}
