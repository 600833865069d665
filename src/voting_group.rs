//! A voting-power source for closed groups: a table of members and their
//! weights, kept by an admin or by governance.

use vstd::prelude::*;
use crate::errors::VotingGroupError;
use crate::table::{keys_unique, lookup, table_view, lemma_table_push, lemma_table_remove, lemma_table_update};
use crate::types::{AccountId, BlockNumber, TableKey};
use crate::counting::Counter;
use crate::governor::Data as Governor;
use crate::voter::Voter;

verus! {

/// A member of a voting group.
#[derive(Clone, Copy, Debug, PartialEq, Eq)]
pub struct VotingMember {
    /// The account of the member.
    pub account: AccountId,
    /// The weight of one vote of this member.
    pub voting_power: u64,
}

impl Default for VotingMember {
    fn default() -> (r: Self)
        ensures
            r.account.0@ == Seq::new(32, |i: int| 0u8),
            r.voting_power == 0,
    {
        let r = VotingMember { account: AccountId([0u8; 32]), voting_power: 0 };
        assert(r.account.0@ =~= Seq::new(32, |i: int| 0u8));
        r
    }
}

/// The table after the members of `s` were added in order; a later entry for
/// an account overwrites an earlier one.
pub open spec fn with_members(m: Map<AccountId, u64>, s: Seq<VotingMember>) -> Map<AccountId, u64>
    decreases s.len(),
{
    if s.len() == 0 {
        m
    } else {
        with_members(m, s.drop_last()).insert(s.last().account, s.last().voting_power)
    }
}

/// The table after the accounts of `s` were removed in order, `None` where one of
/// them is not a member when its turn comes.
pub open spec fn without_members(m: Map<AccountId, u64>, s: Seq<AccountId>) -> Option<Map<AccountId, u64>>
    decreases s.len(),
{
    if s.len() == 0 {
        Some(m)
    } else {
        match without_members(m, s.drop_last()) {
            None => None,
            Some(m2) => if m2.contains_key(s.last()) {
                Some(m2.remove(s.last()))
            } else {
                None
            },
        }
    }
}

/// The first account of the list, from position `i` on, that occurs again
/// later in it.
pub open spec fn duplicate_from(s: Seq<VotingMember>, i: int) -> Option<AccountId>
    decreases s.len() - i,
{
    if i < 0 || i >= s.len() {
        None
    } else if exists|j: int| i < j < s.len() && s[j].account == s[i].account {
        Some(s[i].account)
    } else {
        duplicate_from(s, i + 1)
    }
}

/// No account occurs twice in the list.
pub open spec fn accounts_distinct(s: Seq<VotingMember>) -> bool {
    forall|i: int, j: int| 0 <= i < j < s.len() ==> s[i].account != s[j].account
}

/// Checks that no account occurs twice in a list of members;
/// `DuplicatedMember` names the first account that occurs again later.
pub fn validate_unique_members(members: &[VotingMember]) -> (r: Result<(), VotingGroupError>)
    ensures
        r is Ok <==> accounts_distinct(members@),
        match duplicate_from(members@, 0) {
            None => r is Ok,
            Some(a) => r == Err::<(), VotingGroupError>(VotingGroupError::DuplicatedMember { member: a }),
        },
{
    let mut i: usize = 0;
    while i < members.len()
        invariant
            0 <= i <= members@.len(),
            duplicate_from(members@, 0) == duplicate_from(members@, i as int),
            forall|a: int, b: int| 0 <= a < i && a < b < members@.len() ==> members@[a].account
                != members@[b].account,
        decreases members@.len() - i,
    {
        let mut j: usize = i + 1;
        while j < members.len()
            invariant
                0 <= i < members@.len(),
                i + 1 <= j <= members@.len(),
                duplicate_from(members@, 0) == duplicate_from(members@, i as int),
                forall|a: int, b: int| 0 <= a < i && a < b < members@.len() ==> members@[a].account
                    != members@[b].account,
                forall|k: int| i < k < j ==> members@[k].account != members@[i as int].account,
            decreases members@.len() - j,
        {
            if members[j].account.same(&members[i].account) {
                assert(members@[j as int].account == members@[i as int].account);
                return Err(VotingGroupError::DuplicatedMember { member: members[i].account });
            }
            j = j + 1;
        }
        i = i + 1;
    }
    Ok(())
}

/// The voting group: members with their weights, and an admin.
pub struct Voting {
    /// The weight of each member.
    pub members: Vec<(AccountId, u64)>,
    /// The account that may update the members besides governance.
    pub admin: AccountId,
}

impl Default for Voting {
    /// A group with no members, whose admin is the zero address.
    fn default() -> (r: Voting)
        ensures
            r.wf(),
            r.member_view() == Map::<AccountId, u64>::empty(),
            r.admin.0@ == Seq::new(32, |i: int| 0u8),
    {
        let r = Voting { members: Vec::new(), admin: AccountId([0u8; 32]) };
        assert(r.admin.0@ =~= Seq::new(32, |i: int| 0u8));
        r
    }
}

impl Voting {
    /// The members and their weights.
    pub open spec fn member_view(&self) -> Map<AccountId, u64> {
        table_view(self.members@)
    }

    /// Storage is well formed: no member twice.
    pub open spec fn wf(&self) -> bool {
        keys_unique(self.members@)
    }

    /// Sets the admin and the first members; `ZeroMembers` for an empty list,
    /// `DuplicatedMember` where an account occurs twice.
    pub fn _init_members(&mut self, admin: AccountId, init_members: &[VotingMember]) -> (r: Result<
        (),
        VotingGroupError,
    >)
        requires
            old(self).wf(),
        ensures
            final(self).wf(),
            init_members@.len() == 0 ==> r == Err::<(), VotingGroupError>(VotingGroupError::ZeroMembers)
                && *final(self) == *old(self),
            init_members@.len() > 0 && duplicate_from(init_members@, 0) is Some ==> r == Err::<
                (),
                VotingGroupError,
            >(VotingGroupError::DuplicatedMember { member: duplicate_from(init_members@, 0)->0 })
                && *final(self) == *old(self),
            init_members@.len() > 0 && duplicate_from(init_members@, 0) is None ==> r is Ok
                && final(self).admin == admin && final(self).member_view() == with_members(
                old(self).member_view(),
                init_members@,
            ),
    {
        if init_members.len() == 0 {
            return Err(VotingGroupError::ZeroMembers);
        }
        match validate_unique_members(init_members) {
            Ok(()) => {},
            Err(e) => return Err(e),
        }
        self.admin = admin;
        let mut i: usize = 0;
        while i < init_members.len()
            invariant
                0 <= i <= init_members@.len(),
                self.wf(),
                self.admin == admin,
                self.member_view() == with_members(old(self).member_view(), init_members@.subrange(0, i as int)),
            decreases init_members@.len() - i,
        {
            proof {
                assert(init_members@.subrange(0, i + 1 as int).drop_last() =~= init_members@.subrange(0, i as int));
            }
            self._add_member(&init_members[i]);
            i = i + 1;
        }
        assert(init_members@.subrange(0, init_members@.len() as int) =~= init_members@);
        Ok(())
    }

    /// Adds a member, or sets the weight of an existing one.
    pub fn _add_member(&mut self, member: &VotingMember)
        requires
            old(self).wf(),
        ensures
            final(self).wf(),
            final(self).admin == old(self).admin,
            final(self).member_view() == old(self).member_view().insert(member.account, member.voting_power),
    {
        put_member(&mut self.members, member);
    }

    /// Removes a member; `NoMember` where the account is not one.
    pub fn _remove_member(&mut self, member: &AccountId) -> (r: Result<(), VotingGroupError>)
        requires
            old(self).wf(),
        ensures
            final(self).wf(),
            final(self).admin == old(self).admin,
            old(self).member_view().contains_key(*member) ==> r is Ok && final(self).member_view()
                == old(self).member_view().remove(*member),
            !old(self).member_view().contains_key(*member) ==> r == Err::<(), VotingGroupError>(
                VotingGroupError::NoMember,
            ) && *final(self) == *old(self),
    {
        take_member(&mut self.members, member)
    }

    /// The weight of a member; `NoMember` where the account is not one.
    pub fn _get_member(&self, account: &AccountId) -> (r: Result<u64, VotingGroupError>)
        requires
            self.wf(),
        ensures
            self.member_view().contains_key(*account) ==> r == Ok::<u64, VotingGroupError>(
                self.member_view()[*account],
            ),
            !self.member_view().contains_key(*account) ==> r == Err::<u64, VotingGroupError>(
                VotingGroupError::NoMember,
            ),
    {
        match lookup(&self.members, account) {
            Some(i) => Ok(self.members[i].1),
            None => Err(VotingGroupError::NoMember),
        }
    }

    /// Whether the account is the admin.
    pub fn _is_admin(&self, account: AccountId) -> (r: bool)
        ensures
            r == (self.admin == account),
    {
        self.admin.same(&account)
    }

    /// Fails `OnlyAdminOrGovernance` unless the caller is the executor or the admin.
    pub fn only_governance_or_admin(&self, caller: AccountId, executor: AccountId) -> (r: Result<
        (),
        VotingGroupError,
    >)
        ensures
            (caller == executor || caller == self.admin) ==> r is Ok,
            (caller != executor && caller != self.admin) ==> r == Err::<(), VotingGroupError>(
                VotingGroupError::OnlyAdminOrGovernance,
            ),
    {
        if caller.same(&executor) || self._is_admin(caller) {
            Ok(())
        } else {
            Err(VotingGroupError::OnlyAdminOrGovernance)
        }
    }

    /// How an update of the members relates the group before and after it, and
    /// what it returns.
    pub open spec fn members_updated(
        &self,
        next: Voting,
        caller: AccountId,
        executor: AccountId,
        members: Seq<VotingMember>,
        members_to_remove: Seq<AccountId>,
        r: Result<(), VotingGroupError>,
    ) -> bool {
        &&& next.admin == self.admin
        &&& r is Err ==> next == *self
        &&& if caller != executor && caller != self.admin {
            r == Err::<(), VotingGroupError>(VotingGroupError::OnlyAdminOrGovernance)
        } else if members.len() == 0 && members_to_remove.len() == 0 {
            r == Err::<(), VotingGroupError>(VotingGroupError::ZeroMembers)
        } else {
            match duplicate_from(members, 0) {
                Some(a) => r == Err::<(), VotingGroupError>(VotingGroupError::DuplicatedMember { member: a }),
                None => match without_members(with_members(self.member_view(), members), members_to_remove) {
                    None => r == Err::<(), VotingGroupError>(VotingGroupError::NoMember),
                    Some(m) => r is Ok && next.member_view() == m,
                },
            }
        }
    }

    /// Updates, adds, then removes members. Only the admin or the executor may
    /// (`OnlyAdminOrGovernance`); both lists empty is `ZeroMembers`; an account
    /// that occurs twice in `members` is `DuplicatedMember`; removing
    /// an account that is not a member at that point is `NoMember`. On an error
    /// nothing changes.
    pub fn update_members(
        &mut self,
        caller: AccountId,
        executor: AccountId,
        members: Vec<VotingMember>,
        members_to_remove: Vec<AccountId>,
    ) -> (r: Result<(), VotingGroupError>)
        requires
            old(self).wf(),
        ensures
            final(self).wf(),
            old(self).members_updated(*final(self), caller, executor, members@, members_to_remove@, r),
    {
        match self.only_governance_or_admin(caller, executor) {
            Ok(()) => {},
            Err(e) => return Err(e),
        }
        if members.len() == 0 && members_to_remove.len() == 0 {
            return Err(VotingGroupError::ZeroMembers);
        }
        match validate_unique_members(members.as_slice()) {
            Ok(()) => {},
            Err(e) => return Err(e),
        }
        let mut work = copy_members(&self.members);
        let mut i: usize = 0;
        while i < members.len()
            invariant
                0 <= i <= members@.len(),
                *self == *old(self),
                keys_unique(work@),
                table_view(work@) == with_members(old(self).member_view(), members@.subrange(0, i as int)),
            decreases members@.len() - i,
        {
            proof {
                assert(members@.subrange(0, i + 1 as int).drop_last() =~= members@.subrange(0, i as int));
            }
            put_member(&mut work, &members[i]);
            i = i + 1;
        }
        assert(members@.subrange(0, members@.len() as int) =~= members@);
        let ghost added = table_view(work@);
        let mut j: usize = 0;
        while j < members_to_remove.len()
            invariant
                0 <= j <= members_to_remove@.len(),
                *self == *old(self),
                old(self).wf(),
                !(caller != executor && caller != old(self).admin),
                !(members@.len() == 0 && members_to_remove@.len() == 0),
                duplicate_from(members@, 0) is None,
                added == with_members(old(self).member_view(), members@),
                keys_unique(work@),
                without_members(added, members_to_remove@.subrange(0, j as int)) == Some(table_view(work@)),
            decreases members_to_remove@.len() - j,
        {
            proof {
                assert(members_to_remove@.subrange(0, j + 1 as int).drop_last() =~= members_to_remove@.subrange(
                    0,
                    j as int,
                ));
            }
            match take_member(&mut work, &members_to_remove[j]) {
                Ok(()) => {},
                Err(e) => {
                    proof {
                        lemma_without_members_fails(added, members_to_remove@, j as int + 1);
                    }
                    return Err(e);
                },
            }
            j = j + 1;
        }
        assert(members_to_remove@.subrange(0, members_to_remove@.len() as int) =~= members_to_remove@);
        self.members = work;
        Ok(())
    }

    /// The weights of the given accounts, in order; `NoMember` where one is not a member.
    pub fn get_members(&self, members: Vec<AccountId>) -> (r: Result<Vec<VotingMember>, VotingGroupError>)
        requires
            self.wf(),
        ensures
            (forall|i: int| 0 <= i < members@.len() ==> self.member_view().contains_key(#[trigger] members@[i]))
                ==> (r matches Ok(v) && v@.len() == members@.len() && forall|i: int|
                0 <= i < members@.len() ==> #[trigger] v@[i] == (VotingMember {
                account: members@[i],
                voting_power: self.member_view()[members@[i]],
            })),
            !(forall|i: int| 0 <= i < members@.len() ==> self.member_view().contains_key(#[trigger] members@[i]))
                ==> r == Err::<Vec<VotingMember>, VotingGroupError>(VotingGroupError::NoMember),
    {
        let mut out: Vec<VotingMember> = Vec::new();
        let mut i: usize = 0;
        while i < members.len()
            invariant
                0 <= i <= members@.len(),
                self.wf(),
                out@.len() == i,
                forall|k: int| 0 <= k < i ==> self.member_view().contains_key(#[trigger] members@[k]),
                forall|k: int| 0 <= k < i ==> #[trigger] out@[k] == (VotingMember {
                    account: members@[k],
                    voting_power: self.member_view()[members@[k]],
                }),
            decreases members@.len() - i,
        {
            let voting_power = match self._get_member(&members[i]) {
                Ok(p) => p,
                Err(e) => return Err(e),
            };
            out.push(VotingMember { account: members[i], voting_power });
            i = i + 1;
        }
        Ok(out)
    }
}

proof fn lemma_without_members_fails(m: Map<AccountId, u64>, s: Seq<AccountId>, n: int)
    requires
        0 < n <= s.len(),
        match without_members(m, s.subrange(0, n - 1)) {
            None => true,
            Some(m2) => !m2.contains_key(s[n - 1]),
        },
    ensures
        without_members(m, s) is None,
    decreases s.len(),
{
    if n == s.len() {
        assert(s.drop_last() =~= s.subrange(0, n - 1));
    } else {
        assert(s.drop_last().subrange(0, n - 1) =~= s.subrange(0, n - 1));
        lemma_without_members_fails(m, s.drop_last(), n);
    }
}

/// Sets the weight of a member in a table.
fn put_member(table: &mut Vec<(AccountId, u64)>, member: &VotingMember)
    requires
        keys_unique(old(table)@),
    ensures
        keys_unique(final(table)@),
        table_view(final(table)@) == table_view(old(table)@).insert(member.account, member.voting_power),
{
    match lookup(table, &member.account) {
        Some(i) => {
            proof {
                lemma_table_update(table@, i as int, member.voting_power);
            }
            table.set(i, (member.account, member.voting_power));
        },
        None => {
            proof {
                lemma_table_push(table@, member.account, member.voting_power);
            }
            table.push((member.account, member.voting_power));
        },
    }
}

/// Removes a member from a table; `NoMember` where it is not one.
fn take_member(table: &mut Vec<(AccountId, u64)>, account: &AccountId) -> (r: Result<(), VotingGroupError>)
    requires
        keys_unique(old(table)@),
    ensures
        keys_unique(final(table)@),
        table_view(old(table)@).contains_key(*account) ==> r is Ok && table_view(final(table)@)
            == table_view(old(table)@).remove(*account),
        !table_view(old(table)@).contains_key(*account) ==> r == Err::<(), VotingGroupError>(
            VotingGroupError::NoMember,
        ) && *final(table) == *old(table),
{
    match lookup(table, account) {
        Some(i) => {
            proof {
                lemma_table_remove(table@, i as int);
            }
            table.remove(i);
            Ok(())
        },
        None => Err(VotingGroupError::NoMember),
    }
}

/// Copies a table of members.
fn copy_members(table: &Vec<(AccountId, u64)>) -> (r: Vec<(AccountId, u64)>)
    ensures
        r@ == table@,
{
    let mut r: Vec<(AccountId, u64)> = Vec::new();
    let mut i: usize = 0;
    while i < table.len()
        invariant
            0 <= i <= table@.len(),
            r@ == table@.subrange(0, i as int),
        decreases table@.len() - i,
    {
        r.push(table[i]);
        i = i + 1;
        assert(r@ =~= table@.subrange(0, i as int));
    }
    assert(r@ =~= table@);
    r
}

impl Voter for Voting {
    open spec fn voter_wf(&self) -> bool {
        self.wf()
    }

    /// The member's weight whatever the block; `None` for an account that is not a member.
    open spec fn votes_at(&self, account: AccountId, block_number: BlockNumber, params: Seq<u8>) -> Option<u64> {
        if self.member_view().contains_key(account) {
            Some(self.member_view()[account])
        } else {
            None
        }
    }

    fn _get_votes(&self, account: &AccountId, block_number: BlockNumber, params: &[u8]) -> (r: Option<u64>) {
        match lookup(&self.members, account) {
            Some(i) => Some(self.members[i].1),
            None => None,
        }
    }
}

impl<C: Counter> Governor<C, Voting> {
    /// Updates the members of the governor's voting group; the admin of the
    /// group or the governor's executor may.
    pub fn update_members(
        &mut self,
        caller: AccountId,
        members: Vec<VotingMember>,
        members_to_remove: Vec<AccountId>,
    ) -> (r: Result<(), VotingGroupError>)
        requires
            old(self).wf(),
        ensures
            final(self).wf(),
            old(self).voting_module.members_updated(
                final(self).voting_module,
                caller,
                old(self).executor,
                members@,
                members_to_remove@,
                r,
            ),
            *final(self) == (Governor { voting_module: final(self).voting_module, ..*old(self) }),
    {
        let executor = self.executor;
        self.voting_module.update_members(caller, executor, members, members_to_remove)
    }
}

} // verus!
