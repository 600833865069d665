use ink_governance::counting::{Counting, ProposalVote};
use ink_governance::errors::{GovernorError, VotingGroupError};
use ink_governance::governor::{Data, ProposalState};
use ink_governance::governor_settings::Data as Settings;
use ink_governance::hashing::hash_description;
use ink_governance::types::{AccountId, Proposal};
use ink_governance::votes::Data as Ledger;
use ink_governance::voting_group::{Voting, VotingMember};

fn account(b: u8) -> AccountId {
    AccountId([b; 32])
}

const GOVERNOR: u8 = 100;

fn build_group_governor() -> Data<Counting, Voting> {
    let mut group = Voting::default();
    group
        ._init_members(
            account(1),
            &[
                VotingMember { account: account(1), voting_power: 1 },
                VotingMember { account: account(2), voting_power: 1 },
            ],
        )
        .unwrap();
    Data::new(
        Counting::new(),
        group,
        account(GOVERNOR),
        Settings::_init_with_settings(0, 2, 0),
    )
}

fn description() -> Vec<u8> {
    b"Test proposal".to_vec()
}

#[test]
fn settings_getters() {
    let g = build_group_governor();
    assert_eq!(g.voting_delay(), 0);
    assert_eq!(g.voting_period(), 2);
    assert_eq!(g.proposal_threshold(), 0);
    assert_eq!(g.counting_mode(), String::new());
    assert_eq!(g._executor(), account(GOVERNOR));
}

#[test]
fn propose_works() {
    let mut g = build_group_governor();
    assert_eq!(
        g.propose(Proposal::default(), vec![], account(3), 0),
        Err(GovernorError::NoVotes)
    );
    let proposal = Proposal::default();
    let id = g.hash_proposal(&proposal, hash_description(&description()));
    assert_eq!(g.propose(proposal.clone(), description(), account(2), 0), Ok(id));
    assert_eq!(g.proposal_snapshot(id), Ok(0));
    assert_eq!(g.proposal_deadline(id), Ok(2));
    assert_eq!(g.state(id, 0), Ok(ProposalState::Pending));
    assert_eq!(g.state(id, 1), Ok(ProposalState::Active));
    assert_eq!(
        g.propose(proposal, description(), account(2), 0),
        Err(GovernorError::ProposalAlreadyExist)
    );
}

#[test]
fn propose_below_threshold() {
    let mut g = build_group_governor();
    g.settings._set_proposal_threshold(1);
    assert_eq!(
        g.propose(Proposal::default(), description(), account(2), 5),
        Err(GovernorError::BelowThreshold)
    );
    g.settings._set_proposal_threshold(0);
    g.settings._set_voting_delay(3);
    let id = g.propose(Proposal::default(), description(), account(2), 5).unwrap();
    assert_eq!(g.proposal_snapshot(id), Ok(8));
    assert_eq!(g.proposal_deadline(id), Ok(10));
    assert_eq!(g.state(id, 8), Ok(ProposalState::Pending));
    assert_eq!(g.state(id, 9), Ok(ProposalState::Active));
    assert_eq!(g.state(id, 10), Ok(ProposalState::Active));
    assert_eq!(g.state(id, 11), Ok(ProposalState::Defeated));
}

#[test]
fn cast_vote_works() {
    let mut g = build_group_governor();
    let id = g.propose(Proposal::default(), description(), account(2), 0).unwrap();
    assert_eq!(g.cast_vote(id, 1, account(3), 0), Err(GovernorError::NoVotes));
    assert_eq!(g.cast_vote(id, 1, account(1), 0), Err(GovernorError::ProposalNotActive));
    assert_eq!(g.cast_vote(id, 1, account(1), 1), Ok(1));
    assert_eq!(
        g.counting_module.proposal_votes(id),
        Ok(ProposalVote { against_votes: 1, for_votes: 0, abstain_votes: 0 })
    );
    assert_eq!(g.cast_vote(id, 2, account(1), 1), Err(GovernorError::VoteAlreadyCast));
    assert_eq!(g.cast_vote(id, 7, account(2), 1), Err(GovernorError::InvalidVoteType));
    assert_eq!(
        g.cast_vote_with_reason(id, 2, b"why".to_vec(), account(2), 2),
        Ok(1)
    );
    assert!(g.counting_module.has_voted(id, account(2)));
    assert_eq!(g.state(id, 3), Ok(ProposalState::Defeated));
    assert_eq!(
        g.cast_vote(g.hash_proposal(&Proposal::default(), hash_description(&vec![])), 1, account(1), 1),
        Err(GovernorError::ProposalNotFound)
    );
}

#[test]
fn succeeded_after_for_votes() {
    let mut g = build_group_governor();
    let id = g.propose(Proposal::default(), description(), account(2), 0).unwrap();
    assert_eq!(
        g.cast_vote_with_reason_and_params(id, 2, vec![], vec![1, 2], account(1), 1),
        Ok(1)
    );
    assert_eq!(g.state(id, 2), Ok(ProposalState::Active));
    assert_eq!(g.state(id, 3), Ok(ProposalState::Succeeded));
    assert_eq!(g.state(id, 1000), Ok(ProposalState::Succeeded));
}

#[test]
fn execute_works() {
    let mut g = build_group_governor();
    let proposal = Proposal::default();
    let dh = hash_description(&description());
    assert_eq!(g.begin_execute(&proposal, dh, 0), Err(GovernorError::ProposalNotFound));
    let id = g.propose(proposal.clone(), description(), account(2), 0).unwrap();
    assert_eq!(g.begin_execute(&proposal, dh, 0), Err(GovernorError::ProposalNotSuccessful));
    g.cast_vote(id, 2, account(1), 1).unwrap();
    assert_eq!(g.begin_execute(&proposal, dh, 3), Ok(id));
    assert!(g.governance_call.is_empty());
    assert_eq!(g.finish_execute(id, true), Ok(id));
    assert_eq!(g.state(id, 3), Ok(ProposalState::Executed));
    assert_eq!(g.state(id, 0), Ok(ProposalState::Executed));
    assert_eq!(g.begin_execute(&proposal, dh, 4), Err(GovernorError::ProposalNotSuccessful));
}

#[test]
fn execution_through_other_executor() {
    let mut g = build_group_governor();
    g.executor = account(50);
    let mut proposal = Proposal::default();
    proposal.selector = [0x97, 0xa1, 0x43, 0x3e];
    let dh = hash_description(&description());
    let id = g.propose(proposal.clone(), description(), account(2), 0).unwrap();
    g.cast_vote(id, 2, account(1), 1).unwrap();
    assert_eq!(g.begin_execute(&proposal, dh, 3), Ok(id));
    assert_eq!(g.governance_call, vec![[0x97, 0xa1, 0x43, 0x3e]]);
    assert_eq!(g.finish_execute(id, false), Err(GovernorError::CallRevertedWithoutMessage));
    assert!(g.governance_call.is_empty());
    assert_eq!(g.state(id, 3), Ok(ProposalState::Succeeded));
}

#[test]
fn cancel_works() {
    let mut g = build_group_governor();
    let proposal = Proposal::default();
    let dh = hash_description(&description());
    assert_eq!(g._cancel(&proposal, &dh, 0), Err(GovernorError::ProposalNotFound));
    let id = g.propose(proposal.clone(), description(), account(2), 0).unwrap();
    assert_eq!(g._cancel(&proposal, &dh, 1), Ok(id));
    assert_eq!(g.state(id, 1), Ok(ProposalState::Canceled));
    assert_eq!(g.state(id, 99), Ok(ProposalState::Canceled));
    assert_eq!(g._cancel(&proposal, &dh, 1), Err(GovernorError::ProposalNotActive));
    assert_eq!(g.cast_vote(id, 2, account(1), 1), Err(GovernorError::ProposalNotActive));
}

#[test]
fn set_voting_delay_works() {
    let mut g = build_group_governor();
    assert_eq!(g.set_voting_delay(account(1), 5), Err(GovernorError::OnlyGovernance));
    assert_eq!(g.voting_delay(), 0);
    assert_eq!(g.set_voting_delay(account(GOVERNOR), 5), Ok(()));
    assert_eq!(g.voting_delay(), 5);
}

#[test]
fn set_voting_period_works() {
    let mut g = build_group_governor();
    assert_eq!(g.set_voting_period(account(1), 50400), Err(GovernorError::OnlyGovernance));
    assert_eq!(g.set_voting_period(account(GOVERNOR), 50400), Ok(()));
    assert_eq!(g.voting_period(), 50400);
}

#[test]
fn set_proposal_threshold_works() {
    let mut g = build_group_governor();
    assert_eq!(g.set_proposal_threshold(account(2), 3), Err(GovernorError::OnlyGovernance));
    assert_eq!(g.set_proposal_threshold(account(GOVERNOR), 3), Ok(()));
    assert_eq!(g.proposal_threshold(), 3);
    assert_eq!(g.only_governance(account(GOVERNOR)), Ok(()));
}

fn build_token_governor() -> Data<Counting, Ledger> {
    Data::new(
        Counting::new(),
        Ledger::new(),
        account(GOVERNOR),
        Settings::_init_with_settings(0, 2, 0),
    )
}

#[test]
fn token_governor_construction() {
    let mut g = build_token_governor();
    g.voting_module._after_token_transfer_votes(None, Some(account(1)), 1000, 0).unwrap();
    assert_eq!(g.get_votes(account(1), 0), Ok(1000));
    assert_eq!(g.get_votes_with_params(account(1), 0, vec![1]), Ok(1000));
    assert_eq!(g.get_votes(account(3), 0), Ok(0));
    assert_eq!(
        g.propose(Proposal::default(), vec![], account(3), 1),
        Err(GovernorError::BelowThreshold)
    );
}

#[test]
fn token_governor_snapshot_weight() {
    let alice = account(1);
    let bob = account(2);
    let mut g = build_token_governor();
    g.voting_module._after_token_transfer_votes(None, Some(alice), 1000, 0).unwrap();
    g.voting_module.delegate(alice, bob, 1000, 1).unwrap();
    let id = g.propose(Proposal::default(), description(), alice, 1).unwrap();
    assert_eq!(g.proposal_snapshot(id), Ok(1));
    assert_eq!(g.state(id, 2), Ok(ProposalState::Active));
    assert_eq!(g.cast_vote(id, 2, bob, 2), Ok(1000));
    assert_eq!(
        g.counting_module.proposal_votes(id),
        Ok(ProposalVote { against_votes: 0, for_votes: 1000, abstain_votes: 0 })
    );
    assert_eq!(g.cast_vote(id, 2, bob, 2), Err(GovernorError::VoteAlreadyCast));
    assert_eq!(g.cast_vote(id, 2, alice, 2), Ok(0));
}

#[test]
fn snapshot_ignores_later_power() {
    let alice = account(1);
    let carol = account(3);
    let mut g = build_token_governor();
    g.voting_module._after_token_transfer_votes(None, Some(alice), 1000, 0).unwrap();
    let id = g.propose(Proposal::default(), description(), alice, 1).unwrap();
    g.voting_module.delegate(alice, carol, 1000, 2).unwrap();
    assert_eq!(g.cast_vote(id, 1, carol, 2), Ok(0));
    assert_eq!(g.cast_vote(id, 1, alice, 2), Ok(1000));
}

#[test]
fn propose_beyond_last_block() {
    let mut g = build_group_governor();
    assert_eq!(
        g.propose(Proposal::default(), description(), account(2), u32::MAX - 1),
        Err(GovernorError::BlockNumberOverflow)
    );
    let id = g.propose(Proposal::default(), description(), account(2), u32::MAX - 2).unwrap();
    assert_eq!(g.proposal_snapshot(id), Ok(u32::MAX - 2));
    assert_eq!(g.proposal_deadline(id), Ok(u32::MAX));
    g.settings._set_proposal_threshold(5);
    assert_eq!(
        g.propose(Proposal::default(), vec![], account(2), u32::MAX),
        Err(GovernorError::BelowThreshold)
    );
}

#[test]
fn governor_updates_group_members() {
    let mut g = build_group_governor();
    let dave = VotingMember { account: account(4), voting_power: 3 };
    assert_eq!(
        g.update_members(account(2), vec![dave], vec![]),
        Err(VotingGroupError::OnlyAdminOrGovernance)
    );
    assert_eq!(g.update_members(account(GOVERNOR), vec![dave], vec![account(2)]), Ok(()));
    assert_eq!(g.get_votes(account(4), 0), Ok(3));
    assert_eq!(g.get_votes(account(2), 0), Err(GovernorError::NoVotes));
    assert_eq!(g.update_members(account(1), vec![], vec![account(4)]), Ok(()));
    assert_eq!(g.get_votes(account(4), 0), Err(GovernorError::NoVotes));
}
