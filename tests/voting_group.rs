use ink_governance::errors::VotingGroupError;
use ink_governance::types::AccountId;
use ink_governance::voter::Voter;
use ink_governance::voting_group::{validate_unique_members, Voting, VotingMember};

fn account(b: u8) -> AccountId {
    AccountId([b; 32])
}

fn group() -> Voting {
    let mut v = Voting::default();
    v._init_members(
        account(1),
        &[
            VotingMember { account: account(1), voting_power: 1 },
            VotingMember { account: account(2), voting_power: 1 },
        ],
    )
    .unwrap();
    v
}

#[test]
fn contruction_works() {
    let v = group();
    assert_eq!(
        v.get_members(vec![account(1)]),
        Ok(vec![VotingMember { account: account(1), voting_power: 1 }])
    );
    assert_eq!(v.get_members(vec![account(3)]), Err(VotingGroupError::NoMember));
    assert_eq!(v._get_votes(&account(2), 0, &[]), Some(1));
    assert_eq!(v._get_votes(&account(3), 0, &[]), None);
}

#[test]
fn init_errors() {
    let mut v = Voting::default();
    assert_eq!(v._init_members(account(1), &[]), Err(VotingGroupError::ZeroMembers));
    let m = VotingMember { account: account(4), voting_power: 2 };
    assert_eq!(
        v._init_members(account(1), &[m, m]),
        Err(VotingGroupError::DuplicatedMember { member: account(4) })
    );
    assert_eq!(v.get_members(vec![account(4)]), Err(VotingGroupError::NoMember));
}

#[test]
fn update_members_works() {
    let mut v = group();
    let executor = account(9);
    let updated_alice = VotingMember { account: account(1), voting_power: 2 };
    let bob = VotingMember { account: account(2), voting_power: 1 };
    let charlie = VotingMember { account: account(3), voting_power: 1 };
    assert_eq!(
        v.update_members(account(2), executor, vec![updated_alice, bob], vec![]),
        Err(VotingGroupError::OnlyAdminOrGovernance)
    );
    v.update_members(account(1), executor, vec![updated_alice, bob], vec![]).unwrap();
    assert_eq!(v.get_members(vec![account(1)]), Ok(vec![updated_alice]));
    v.update_members(executor, executor, vec![charlie], vec![]).unwrap();
    assert!(v.get_members(vec![account(3)]).unwrap().contains(&charlie));
    v.update_members(account(1), executor, vec![], vec![account(3)]).unwrap();
    assert_eq!(v.get_members(vec![account(3)]), Err(VotingGroupError::NoMember));
}

#[test]
fn update_members_errors_change_nothing() {
    let mut v = group();
    let executor = account(9);
    assert_eq!(
        v.update_members(account(1), executor, vec![], vec![]),
        Err(VotingGroupError::ZeroMembers)
    );
    let d = VotingMember { account: account(5), voting_power: 3 };
    assert_eq!(
        v.update_members(account(1), executor, vec![d], vec![account(1), account(1)]),
        Err(VotingGroupError::NoMember)
    );
    assert_eq!(v.get_members(vec![account(5)]), Err(VotingGroupError::NoMember));
    assert_eq!(
        v.get_members(vec![account(1)]),
        Ok(vec![VotingMember { account: account(1), voting_power: 1 }])
    );
    let e = VotingMember { account: account(6), voting_power: 1 };
    assert_eq!(
        v.update_members(account(1), executor, vec![d, e, d], vec![]),
        Err(VotingGroupError::DuplicatedMember { member: account(5) })
    );
    v.update_members(account(1), executor, vec![d], vec![account(5)]).unwrap();
    assert_eq!(v.get_members(vec![account(5)]), Err(VotingGroupError::NoMember));
}

#[test]
fn duplicate_detection() {
    let a = VotingMember { account: account(1), voting_power: 1 };
    let b = VotingMember { account: account(2), voting_power: 1 };
    assert_eq!(
        validate_unique_members(&[a, b, a]),
        Err(VotingGroupError::DuplicatedMember { member: account(1) })
    );
    let c = VotingMember { account: account(3), voting_power: 1 };
    assert_eq!(validate_unique_members(&[a, b, c]), Ok(()));
    assert_eq!(
        validate_unique_members(&[c, a, b, b, a]),
        Err(VotingGroupError::DuplicatedMember { member: account(1) })
    );
    assert_eq!(
        validate_unique_members(&[a, b, b]),
        Err(VotingGroupError::DuplicatedMember { member: account(2) })
    );
    assert_eq!(validate_unique_members(&[]), Ok(()));
}
