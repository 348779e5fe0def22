use jdh_chain::governance::{
    create_proposal, execute_proposal, vote, JdhChainError, Proposal, Vote, VoteType,
    MAX_DESCRIPTION_LEN, MAX_TITLE_LEN,
};
use jdh_chain::AccountKey;

fn key(b: u8) -> AccountKey {
    AccountKey::new([b; 32])
}

fn open_proposal(min_voting_power: u64) -> Proposal {
    create_proposal(7, "Raise APY".to_string(), "Raise it to 15%".to_string(), key(1), 1_000, min_voting_power, 100)
        .unwrap()
}

fn ballot(user: u8) -> Vote {
    Vote::empty(key(user), key(9))
}

#[test]
fn create_sets_window_and_empty_tally() {
    let p = open_proposal(1_000);
    assert_eq!(p.id, 7);
    assert_eq!(p.title, "Raise APY");
    assert_eq!(p.description, "Raise it to 15%");
    assert_eq!(p.proposer, key(1));
    assert_eq!(p.created_at, 100);
    assert_eq!(p.voting_ends_at, 1_100);
    assert_eq!((p.votes_for, p.votes_against, p.total_votes), (0, 0, 0));
    assert!(!p.executed);
    assert_eq!(p.min_voting_power, 1_000);
}

#[test]
fn title_and_description_limits() {
    let t = "a".repeat(MAX_TITLE_LEN);
    let d = "b".repeat(MAX_DESCRIPTION_LEN);
    assert!(create_proposal(1, t.clone(), d.clone(), key(1), 10, 0, 0).is_ok());
    let long_t = "a".repeat(MAX_TITLE_LEN + 1);
    assert_eq!(create_proposal(1, long_t, d.clone(), key(1), 10, 0, 0), Err(JdhChainError::TitleTooLong));
    let long_d = "b".repeat(MAX_DESCRIPTION_LEN + 1);
    assert_eq!(create_proposal(1, t, long_d, key(1), 10, 0, 0), Err(JdhChainError::DescriptionTooLong));
    let wide_t = "\u{e9}".repeat(51);
    assert_eq!(create_proposal(1, wide_t, String::new(), key(1), 10, 0, 0), Err(JdhChainError::TitleTooLong));
    let wide_ok = "\u{e9}".repeat(50);
    assert!(create_proposal(1, wide_ok, String::new(), key(1), 10, 0, 0).is_ok());
}

#[test]
fn create_with_overflowing_deadline_fails() {
    assert_eq!(
        create_proposal(1, String::new(), String::new(), key(1), i64::MAX, 0, 1),
        Err(JdhChainError::ArithmeticOverflow)
    );
}

#[test]
fn nonpositive_duration_closes_voting_at_once() {
    let mut p = create_proposal(1, String::new(), String::new(), key(1), 0, 0, 50).unwrap();
    let mut b = ballot(3);
    assert_eq!(vote(&mut p, &mut b, key(3), key(9), VoteType::For, 1, 10, 50), Err(JdhChainError::VotingClosed));
    let mut q = create_proposal(2, String::new(), String::new(), key(1), -10, 0, 50).unwrap();
    assert_eq!(q.voting_ends_at, 40);
    assert_eq!(vote(&mut q, &mut b, key(3), key(9), VoteType::For, 1, 10, 45), Err(JdhChainError::VotingClosed));
}

#[test]
fn vote_records_and_tallies() {
    let mut p = open_proposal(0);
    let mut a = ballot(2);
    let mut b = ballot(3);
    assert_eq!(vote(&mut p, &mut a, key(2), key(9), VoteType::For, 600, 600, 200), Ok(()));
    assert_eq!(vote(&mut p, &mut b, key(3), key(9), VoteType::Against, 300, 1_000, 300), Ok(()));
    assert_eq!(a.vote_type, VoteType::For);
    assert_eq!(a.voting_power, 600);
    assert_eq!(a.voted_at, 200);
    assert_eq!(a.user, key(2));
    assert_eq!(a.proposal, key(9));
    assert_eq!(b.vote_type, VoteType::Against);
    assert_eq!((p.votes_for, p.votes_against, p.total_votes), (600, 300, 900));
    assert_eq!(p.total_votes, p.votes_for + p.votes_against);
}

#[test]
fn second_vote_fails_and_keeps_tally() {
    let mut p = open_proposal(0);
    let mut a = ballot(2);
    vote(&mut p, &mut a, key(2), key(9), VoteType::For, 600, 600, 200).unwrap();
    let before = p.clone();
    assert_eq!(vote(&mut p, &mut a, key(2), key(9), VoteType::Against, 10, 600, 201), Err(JdhChainError::AlreadyVoted));
    assert_eq!(p, before);
    assert_eq!(a.voting_power, 600);
    assert_eq!(a.vote_type, VoteType::For);
}

#[test]
fn vote_beyond_balance_fails() {
    let mut p = open_proposal(0);
    let mut a = ballot(2);
    assert_eq!(vote(&mut p, &mut a, key(2), key(9), VoteType::For, 601, 600, 200), Err(JdhChainError::InsufficientVotingPower));
    assert_eq!(p.total_votes, 0);
    assert_eq!(a.voting_power, 0);
}

#[test]
fn vote_after_deadline_fails() {
    let mut p = open_proposal(0);
    let mut a = ballot(2);
    assert_eq!(vote(&mut p, &mut a, key(2), key(9), VoteType::For, 1, 1, 1_100), Err(JdhChainError::VotingClosed));
    assert_eq!(vote(&mut p, &mut a, key(2), key(9), VoteType::For, 1, 1, 1_099), Ok(()));
}

#[test]
fn vote_tally_overflow_fails() {
    let mut p = open_proposal(0);
    let mut a = ballot(2);
    let mut b = ballot(3);
    vote(&mut p, &mut a, key(2), key(9), VoteType::For, u64::MAX, u64::MAX, 200).unwrap();
    assert_eq!(vote(&mut p, &mut b, key(3), key(9), VoteType::Against, 1, 1, 200), Err(JdhChainError::ArithmeticOverflow));
    assert_eq!(b.voting_power, 0);
    assert_eq!(p.votes_against, 0);
}

#[test]
fn execute_while_open_fails() {
    let mut p = open_proposal(0);
    assert_eq!(execute_proposal(&mut p, 1_099), Err(JdhChainError::VotingStillOpen));
    assert!(!p.executed);
}

#[test]
fn execute_quorum_not_met() {
    let mut p = open_proposal(1_000);
    let mut a = ballot(2);
    let mut b = ballot(3);
    vote(&mut p, &mut a, key(2), key(9), VoteType::For, 600, 600, 200).unwrap();
    vote(&mut p, &mut b, key(3), key(9), VoteType::Against, 300, 300, 200).unwrap();
    assert_eq!(p.total_votes, 900);
    assert_eq!(execute_proposal(&mut p, 1_100), Err(JdhChainError::QuorumNotMet));
    assert!(!p.executed);
}

#[test]
fn execute_not_passed_on_tie() {
    let mut p = open_proposal(0);
    let mut a = ballot(2);
    let mut b = ballot(3);
    vote(&mut p, &mut a, key(2), key(9), VoteType::For, 300, 300, 200).unwrap();
    vote(&mut p, &mut b, key(3), key(9), VoteType::Against, 300, 300, 200).unwrap();
    assert_eq!(execute_proposal(&mut p, 2_000), Err(JdhChainError::NotPassed));
}

#[test]
fn execute_once_only() {
    let mut p = open_proposal(500);
    let mut a = ballot(2);
    vote(&mut p, &mut a, key(2), key(9), VoteType::For, 500, 500, 200).unwrap();
    assert_eq!(execute_proposal(&mut p, 1_100), Ok(()));
    assert!(p.executed);
    assert_eq!(execute_proposal(&mut p, 1_200), Err(JdhChainError::AlreadyExecuted));
    assert!(p.executed);
}

#[test]
fn zero_power_vote_fails_and_records_nothing() {
    let mut p = open_proposal(0);
    let mut a = ballot(2);
    assert_eq!(vote(&mut p, &mut a, key(2), key(9), VoteType::For, 0, 600, 200), Err(JdhChainError::InsufficientVotingPower));
    assert_eq!(a, ballot(2));
    assert_eq!(p.total_votes, 0);
    assert_eq!(vote(&mut p, &mut a, key(2), key(9), VoteType::For, 1, 600, 201), Ok(()));
    assert_eq!(vote(&mut p, &mut a, key(2), key(9), VoteType::Against, 5, 600, 202), Err(JdhChainError::AlreadyVoted));
    assert_eq!((p.votes_for, p.votes_against, p.total_votes), (1, 0, 1));
}

#[test]
fn vote_overflow_checks_only_growing_side() {
    let mut p = open_proposal(0);
    p.votes_against = u64::MAX - 10;
    p.total_votes = u64::MAX - 10;
    let mut a = ballot(2);
    assert_eq!(vote(&mut p, &mut a, key(2), key(9), VoteType::For, 5, 5, 200), Ok(()));
    assert_eq!((p.votes_for, p.total_votes), (5, u64::MAX - 5));
}
