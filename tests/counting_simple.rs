use ink_governance::counting::{Counter, Counting, ProposalVote, VoteType};
use ink_governance::errors::{CountingError, CountingSimpleError};
use ink_governance::types::{AccountId, Hash256};

#[test]
fn vote_type_from_support() {
    assert_eq!(VoteType::try_from(1), Ok(VoteType::Against));
    assert_eq!(VoteType::try_from(2), Ok(VoteType::For));
    assert_eq!(VoteType::try_from(3), Ok(VoteType::Abstain));
    assert_eq!(VoteType::try_from(0), Err(CountingError::InvalidVoteType));
    assert_eq!(VoteType::try_from(4), Err(CountingError::InvalidVoteType));
}

#[test]
fn proposal_votes_works() {
    let id = Hash256([7; 32]);
    let mut c = Counting::new();
    assert_eq!(c.proposal_votes(id), Err(CountingSimpleError::NoProposal));
    c._count_vote(&id, &AccountId([1; 32]), 1, 1, &[]).unwrap();
    assert_eq!(
        c.proposal_votes(id),
        Ok(ProposalVote { against_votes: 1, for_votes: 0, abstain_votes: 0 })
    );
    c._count_vote(&id, &AccountId([2; 32]), 2, 5, &[]).unwrap();
    c._count_vote(&id, &AccountId([3; 32]), 3, 4, &[]).unwrap();
    assert_eq!(
        c.proposal_votes(id),
        Ok(ProposalVote { against_votes: 1, for_votes: 5, abstain_votes: 4 })
    );
}

#[test]
fn has_voted_works() {
    let id = Hash256([7; 32]);
    let other = Hash256([8; 32]);
    let bob = AccountId([2; 32]);
    let mut c = Counting::new();
    assert!(!c.has_voted(id, bob));
    c._count_vote(&id, &bob, 1, 1, &[]).unwrap();
    assert!(c.has_voted(id, bob));
    assert!(!c.has_voted(other, bob));
    assert_eq!(c._count_vote(&id, &bob, 2, 1, &[]), Err(CountingError::VoteAlreadyCast));
    assert_eq!(c._count_vote(&id, &bob, 9, 1, &[]), Err(CountingError::VoteAlreadyCast));
}

#[test]
fn invalid_vote_type_leaves_no_trace() {
    let id = Hash256([7; 32]);
    let bob = AccountId([2; 32]);
    let mut c = Counting::new();
    assert_eq!(c._count_vote(&id, &bob, 0, 1, &[]), Err(CountingError::InvalidVoteType));
    assert!(!c.has_voted(id, bob));
    assert_eq!(c.proposal_votes(id), Err(CountingSimpleError::NoProposal));
}

#[test]
fn tally_overflow() {
    let id = Hash256([7; 32]);
    let mut c = Counting::new();
    c._count_vote(&id, &AccountId([1; 32]), 2, u64::MAX, &[]).unwrap();
    assert_eq!(
        c._count_vote(&id, &AccountId([2; 32]), 2, 1, &[]),
        Err(CountingError::VoteOverflow)
    );
    assert!(!c.has_voted(id, AccountId([2; 32])));
}

#[test]
fn quorum_and_outcome() {
    let id = Hash256([7; 32]);
    let mut c = Counting::new();
    assert_eq!(c.quorum(), 1);
    assert!(!c._quorum_reached(&id));
    assert!(!c._vote_succeeded(&id));
    c._count_vote(&id, &AccountId([1; 32]), 3, 1, &[]).unwrap();
    assert!(c._quorum_reached(&id));
    assert!(!c._vote_succeeded(&id));
    c._count_vote(&id, &AccountId([2; 32]), 2, 2, &[]).unwrap();
    c._count_vote(&id, &AccountId([3; 32]), 1, 1, &[]).unwrap();
    assert!(c._vote_succeeded(&id));
}
