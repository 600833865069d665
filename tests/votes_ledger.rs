use ink_governance::errors::{PSP22VotesError, VotesError};
use ink_governance::types::AccountId;
use ink_governance::votes::{balance_to_vote, u32_to_usize, usize_to_u32, Checkpoint, Data};

fn account(b: u8) -> AccountId {
    AccountId([b; 32])
}

fn minted(to: AccountId, amount: u128, now: u32) -> Data {
    let mut ledger = Data::new();
    ledger._after_token_transfer_votes(None, Some(to), amount, now).unwrap();
    ledger
}

#[test]
fn construction_works() {
    let alice = account(1);
    let ledger = minted(alice, 1000, 0);
    assert_eq!(ledger.get_votes(alice), Ok(1000));
    assert_eq!(ledger.get_past_total_supply(0, 0), Ok(1000));
    assert_eq!(ledger.delegates(alice), None);
}

#[test]
fn delegation_scenario() {
    let alice = account(1);
    let bob = account(2);
    let mut ledger = minted(alice, 1000, 0);
    assert_eq!(ledger.get_past_votes(alice, 0, 0), Ok(1000));
    ledger.delegate(alice, bob, 1000, 1).unwrap();
    assert_eq!(ledger.delegates(alice), Some(bob));
    assert_eq!(ledger.get_past_votes(alice, 0, 2), Ok(1000));
    assert_eq!(ledger.get_past_votes(alice, 2, 2), Ok(0));
    assert_eq!(ledger.get_past_votes(bob, 2, 2), Ok(1000));
    assert_eq!(ledger.get_past_votes(bob, 0, 2), Ok(0));
}

#[test]
fn checkpoint_round_trip() {
    let alice = account(1);
    let mut ledger = minted(alice, 10, 5);
    ledger._write_checkpoint(Some(alice), true, 7, 9).unwrap();
    assert_eq!(ledger.get_past_votes(alice, 9, 20), Ok(17));
    assert_eq!(ledger.get_past_votes(alice, 10, 20), Ok(17));
    assert_eq!(ledger.get_past_votes(alice, 20, 20), Ok(17));
    assert_eq!(ledger.get_past_votes(alice, 8, 20), Ok(10));
    assert_eq!(ledger.get_past_votes(alice, 4, 20), Ok(0));
    assert_eq!(ledger.get_past_votes(alice, 21, 20), Err(VotesError::NotMinedBlock));
    assert_eq!(ledger.get_past_total_supply(21, 20), Err(VotesError::NotMinedBlock));
}

#[test]
fn same_block_writes_coalesce() {
    let alice = account(1);
    let mut ledger = minted(alice, 10, 3);
    assert_eq!(ledger._write_checkpoint(Some(alice), true, 5, 3), Ok((10, 15)));
    assert_eq!(ledger._write_checkpoint(Some(alice), false, 2, 3), Ok((15, 13)));
    assert_eq!(ledger.num_checkpoints(alice), Ok(1));
    assert_eq!(ledger.checkpoints(alice, 0), Ok(Checkpoint { from_block: 3, votes: 13 }));
    ledger._write_checkpoint(Some(alice), true, 1, 4).unwrap();
    assert_eq!(ledger.num_checkpoints(alice), Ok(2));
    assert_eq!(ledger.checkpoints(alice, 1), Ok(Checkpoint { from_block: 4, votes: 14 }));
    assert_eq!(
        ledger.checkpoints(alice, 2),
        Err(PSP22VotesError::VotesError(VotesError::NoCheckpoint))
    );
}

#[test]
fn delegation_conserves_power() {
    let alice = account(1);
    let bob = account(2);
    let carol = account(3);
    let mut ledger = minted(alice, 1000, 0);
    ledger._after_token_transfer_votes(None, Some(bob), 500, 1).unwrap();
    ledger.delegate(alice, carol, 1000, 2).unwrap();
    ledger._after_token_transfer_votes(Some(alice), Some(bob), 300, 3).unwrap();
    ledger._after_token_transfer_votes(Some(bob), None, 200, 4).unwrap();
    let total: u64 = [alice, bob, carol]
        .iter()
        .map(|a| ledger.get_past_votes(*a, 4, 4).unwrap())
        .sum();
    assert_eq!(ledger.get_past_total_supply(4, 4), Ok(1300));
    assert_eq!(total, 1300);
    assert_eq!(ledger.get_past_votes(carol, 4, 4), Ok(700));
    assert_eq!(ledger.get_past_votes(bob, 4, 4), Ok(600));
    assert_eq!(ledger.get_past_votes(alice, 4, 4), Ok(0));
}

#[test]
fn move_errors() {
    let alice = account(1);
    let bob = account(2);
    let mut ledger = minted(alice, 100, 0);
    assert_eq!(
        ledger._move_voting_power(Some(alice), Some(bob), 0, 1),
        Err(VotesError::MovePowerAmountError)
    );
    assert_eq!(
        ledger._move_voting_power(Some(alice), Some(bob), 101, 1),
        Err(VotesError::BalanceToVoteErr)
    );
    assert_eq!(
        ledger._move_voting_power(Some(alice), Some(bob), u64::MAX as u128 + 1, 1),
        Err(VotesError::BalanceToVoteErr)
    );
    assert_eq!(
        ledger._after_token_transfer_votes(None, None, 5, 1),
        Err(PSP22VotesError::VotesError(VotesError::MovePowerAmountError))
    );
    assert_eq!(
        ledger._after_token_transfer_votes(Some(alice), None, 101, 1),
        Err(PSP22VotesError::VotesError(VotesError::BalanceToVoteErr))
    );
    assert_eq!(ledger.delegate(bob, alice, 0, 1), Err(VotesError::MovePowerAmountError));
    assert_eq!(ledger.get_votes(alice), Ok(100));
    assert_eq!(ledger.get_votes(bob), Err(VotesError::ZeroCheckpoints));
    assert_eq!(
        ledger.num_checkpoints(bob),
        Err(PSP22VotesError::VotesError(VotesError::NoCheckpoint))
    );
}

#[test]
fn conversions() {
    assert_eq!(u32_to_usize(7), Some(7));
    assert_eq!(usize_to_u32(7), Some(7));
    assert_eq!(usize_to_u32(u32::MAX as usize + 1), None);
    assert_eq!(balance_to_vote(u64::MAX as u128), Some(u64::MAX));
    assert_eq!(balance_to_vote(u64::MAX as u128 + 1), None);
}

#[test]
fn binary_search_of_history() {
    let h = vec![
        Checkpoint { from_block: 2, votes: 5 },
        Checkpoint { from_block: 4, votes: 6 },
        Checkpoint { from_block: 9, votes: 7 },
    ];
    assert_eq!(ink_governance::votes::_get_past_votes(&h, 1), 0);
    assert_eq!(ink_governance::votes::_get_past_votes(&h, 2), 5);
    assert_eq!(ink_governance::votes::_get_past_votes(&h, 8), 6);
    assert_eq!(ink_governance::votes::_get_past_votes(&h, 9), 7);
    assert_eq!(ink_governance::votes::_get_past_votes(&h, 100), 7);
    assert_eq!(ink_governance::votes::_get_past_votes(&[], 100), 0);
}
