//! The checkpoint ledger: per-account histories of voting power, delegation,
//! and the history of the total supply.

use vstd::prelude::*;
use crate::errors::{PSP22VotesError, VotesError};
use crate::table::{keys_unique, lookup, table_view, lemma_table_index, lemma_table_push, lemma_table_update};
use crate::types::{AccountId, Balance, BlockNumber, TableKey, Vote};
use crate::voter::Voter;

verus! {

/// Voting power `votes` holds from block `from_block` until the next checkpoint.
#[derive(Clone, Copy, Debug, PartialEq, Eq, Structural)]
pub struct Checkpoint {
    /// The block number at which the checkpoint was saved.
    pub from_block: BlockNumber,
    /// The number of votes.
    pub votes: Vote,
}

/// The votes of a history at block `b`: those of its last checkpoint from
/// `b` or earlier, zero where there is none.
pub open spec fn past_votes(h: Seq<Checkpoint>, b: BlockNumber) -> Vote
    decreases h.len(),
{
    if h.len() == 0 {
        0
    } else if h.last().from_block <= b {
        h.last().votes
    } else {
        past_votes(h.drop_last(), b)
    }
}

/// The current votes of a history: those of its last checkpoint, zero where it is empty.
pub open spec fn latest(h: Seq<Checkpoint>) -> Vote {
    if h.len() == 0 {
        0
    } else {
        h.last().votes
    }
}

/// Block numbers strictly increase along the history.
pub open spec fn sorted(h: Seq<Checkpoint>) -> bool {
    forall|i: int, j: int| 0 <= i < j < h.len() ==> h[i].from_block < h[j].from_block
}

/// No checkpoint of the history lies after block `now`.
pub open spec fn not_after(h: Seq<Checkpoint>, now: BlockNumber) -> bool {
    forall|i: int| 0 <= i < h.len() ==> h[i].from_block <= now
}

/// A history after its weight became `w` at block `now`: the last checkpoint is
/// overwritten where it is from the same block, else one is appended.
pub open spec fn written(h: Seq<Checkpoint>, now: BlockNumber, w: Vote) -> Seq<Checkpoint> {
    if h.len() > 0 && h.last().from_block == now {
        h.update(h.len() - 1, Checkpoint { from_block: now, votes: w })
    } else {
        h.push(Checkpoint { from_block: now, votes: w })
    }
}

/// The weight after adding (or subtracting) `delta`, where the amount and the
/// result are representable as votes.
pub open spec fn apply_delta(old: Vote, increase: bool, delta: Balance) -> Option<Vote> {
    if delta > u64::MAX {
        None
    } else if increase {
        if old + delta <= u64::MAX {
            Some((old + delta) as u64)
        } else {
            None
        }
    } else {
        if old >= delta {
            Some((old - delta) as u64)
        } else {
            None
        }
    }
}

/// The sum of the current votes of all histories of a table.
pub open spec fn sum_latest(s: Seq<(AccountId, Vec<Checkpoint>)>) -> int
    decreases s.len(),
{
    if s.len() == 0 {
        0
    } else {
        sum_latest(s.drop_last()) + latest(s.last().1@)
    }
}

proof fn lemma_sum_update(s: Seq<(AccountId, Vec<Checkpoint>)>, i: int, e: (AccountId, Vec<Checkpoint>))
    requires
        0 <= i < s.len(),
    ensures
        sum_latest(s.update(i, e)) == sum_latest(s) - latest(s[i].1@) + latest(e.1@),
    decreases s.len(),
{
    let t = s.update(i, e);
    if i == s.len() - 1 {
        assert(t.drop_last() =~= s.drop_last());
    } else {
        lemma_sum_update(s.drop_last(), i, e);
        assert(t.drop_last() =~= s.drop_last().update(i, e));
    }
}

proof fn lemma_sum_push(s: Seq<(AccountId, Vec<Checkpoint>)>, e: (AccountId, Vec<Checkpoint>))
    ensures
        sum_latest(s.push(e)) == sum_latest(s) + latest(e.1@),
{
    assert(s.push(e).drop_last() =~= s);
}

/// In a sorted history, the checkpoints from block `b` or earlier form the first `k`.
proof fn lemma_past_votes_prefix(h: Seq<Checkpoint>, b: BlockNumber, k: int)
    requires
        sorted(h),
        0 <= k <= h.len(),
        forall|i: int| 0 <= i < k ==> h[i].from_block <= b,
        forall|i: int| k <= i < h.len() ==> h[i].from_block > b,
    ensures
        past_votes(h, b) == if k == 0 { 0 } else { h[k - 1].votes },
    decreases h.len(),
{
    if h.len() > 0 && k < h.len() {
        let t = h.drop_last();
        assert forall|i: int, j: int| 0 <= i < j < t.len() implies t[i].from_block < t[j].from_block by {
            assert(t[i] == h[i] && t[j] == h[j]);
        }
        lemma_past_votes_prefix(t, b, k);
        if k > 0 {
            assert(t[k - 1] == h[k - 1]);
        }
    }
}

/// The votes of a sorted history at a block, found by binary search.
pub fn _get_past_votes(checkpoints: &[Checkpoint], block_number: BlockNumber) -> (r: Vote)
    requires
        sorted(checkpoints@),
    ensures
        r == past_votes(checkpoints@, block_number),
{
    let mut lo: usize = 0;
    let mut hi: usize = checkpoints.len();
    while lo < hi
        invariant
            0 <= lo <= hi <= checkpoints@.len(),
            sorted(checkpoints@),
            forall|i: int| 0 <= i < lo ==> checkpoints@[i].from_block <= block_number,
            forall|i: int| hi <= i < checkpoints@.len() ==> checkpoints@[i].from_block > block_number,
        decreases hi - lo,
    {
        let mid = lo + (hi - lo) / 2;
        if checkpoints[mid].from_block <= block_number {
            lo = mid + 1;
        } else {
            hi = mid;
        }
    }
    proof {
        lemma_past_votes_prefix(checkpoints@, block_number, lo as int);
    }
    if lo == 0 {
        0
    } else {
        checkpoints[lo - 1].votes
    }
}

/// Copies a history.
fn copy_history(h: &Vec<Checkpoint>) -> (r: Vec<Checkpoint>)
    ensures
        r@ == h@,
{
    let mut r: Vec<Checkpoint> = Vec::new();
    let mut i: usize = 0;
    while i < h.len()
        invariant
            0 <= i <= h@.len(),
            r@ == h@.subrange(0, i as int),
        decreases h@.len() - i,
    {
        r.push(h[i]);
        i = i + 1;
        assert(r@ =~= h@.subrange(0, i as int));
    }
    assert(r@ =~= h@);
    r
}

/// Overwrites or appends the checkpoint of block `now`.
fn write_history(h: &mut Vec<Checkpoint>, now: BlockNumber, w: Vote)
    ensures
        final(h)@ == written(old(h)@, now, w),
{
    let n = h.len();
    if n > 0 && h[n - 1].from_block == now {
        h.set(n - 1, Checkpoint { from_block: now, votes: w });
    } else {
        h.push(Checkpoint { from_block: now, votes: w });
    }
}

proof fn lemma_written_keeps_order(h: Seq<Checkpoint>, now: BlockNumber, w: Vote)
    requires
        sorted(h),
        not_after(h, now),
    ensures
        sorted(written(h, now, w)),
        not_after(written(h, now, w), now),
        written(h, now, w).len() > 0,
        latest(written(h, now, w)) == w,
        written(h, now, w).last().from_block == now,
{
    let t = written(h, now, w);
    if h.len() > 0 && h.last().from_block == now {
        assert forall|i: int, j: int| 0 <= i < j < t.len() implies t[i].from_block < t[j].from_block by {
            if j == t.len() - 1 {
                assert(h[i].from_block < h[j].from_block);
            }
        }
    } else {
        assert forall|i: int, j: int| 0 <= i < j < t.len() implies t[i].from_block < t[j].from_block by {
            if j == t.len() - 1 {
                assert(h[i].from_block <= now);
                assert(h[i].from_block <= h.last().from_block);
            }
        }
    }
}

/// The history of account `x` after `amount` votes moved from `source` to `destination`.
pub open spec fn moved(
    h: Seq<Checkpoint>,
    x: AccountId,
    source: Option<AccountId>,
    destination: Option<AccountId>,
    amount: Vote,
    now: BlockNumber,
) -> Seq<Checkpoint> {
    let h1 = if source == Some(x) {
        written(h, now, (latest(h) - amount) as u64)
    } else {
        h
    };
    if destination == Some(x) {
        written(h1, now, (latest(h1) + amount) as u64)
    } else {
        h1
    }
}

/// The ledger of the token-integrated votes extension.
pub struct Data {
    /// The delegate that each account chose.
    pub delegates: Vec<(AccountId, AccountId)>,
    /// The history of each account's voting power.
    pub checkpoints: Vec<(AccountId, Vec<Checkpoint>)>,
    /// The history of the total supply.
    pub total_supply_checkpoints: Vec<Checkpoint>,
}

impl Data {
    /// The history of an account: empty where it has none.
    pub open spec fn history(&self, account: AccountId) -> Seq<Checkpoint> {
        if table_view(self.checkpoints@).contains_key(account) {
            table_view(self.checkpoints@)[account]@
        } else {
            Seq::empty()
        }
    }

    /// Whether the account has a history.
    pub open spec fn has_history(&self, account: AccountId) -> bool {
        table_view(self.checkpoints@).contains_key(account)
    }

    /// The history of the total supply.
    pub open spec fn supply_history(&self) -> Seq<Checkpoint> {
        self.total_supply_checkpoints@
    }

    /// The delegate that the account chose, if any.
    pub open spec fn delegate_of(&self, account: AccountId) -> Option<AccountId> {
        if table_view(self.delegates@).contains_key(account) {
            Some(table_view(self.delegates@)[account])
        } else {
            None
        }
    }

    /// The account that holds the account's voting power: its delegate, else itself.
    pub open spec fn power_holder(&self, account: AccountId) -> AccountId {
        match self.delegate_of(account) {
            Some(d) => d,
            None => account,
        }
    }

    /// The sum of the current voting power of all accounts.
    pub open spec fn total_power(&self) -> int {
        sum_latest(self.checkpoints@)
    }

    /// The current total supply.
    pub open spec fn current_supply(&self) -> int {
        latest(self.supply_history()) as int
    }

    /// Voting power is conserved: it sums to the total supply.
    pub open spec fn conserves(&self) -> bool {
        self.total_power() == self.current_supply()
    }

    /// Storage is well formed: keys unique, every stored history non-empty and
    /// sorted by block.
    pub open spec fn wf(&self) -> bool {
        &&& keys_unique(self.delegates@)
        &&& keys_unique(self.checkpoints@)
        &&& sorted(self.supply_history())
        &&& forall|i: int|
            0 <= i < self.checkpoints@.len() ==> sorted(#[trigger] self.checkpoints@[i].1@)
                && self.checkpoints@[i].1@.len() > 0
    }

    /// No checkpoint lies after block `now`.
    pub open spec fn not_after(&self, now: BlockNumber) -> bool {
        &&& not_after(self.supply_history(), now)
        &&& forall|i: int|
            0 <= i < self.checkpoints@.len() ==> not_after(#[trigger] self.checkpoints@[i].1@, now)
    }

    /// The error that moving `amount` from `source` to `destination` meets, if any.
    pub open spec fn move_error(
        &self,
        source: Option<AccountId>,
        destination: Option<AccountId>,
        amount: Balance,
    ) -> Option<VotesError> {
        if amount == 0 {
            Some(VotesError::MovePowerAmountError)
        } else if amount > u64::MAX {
            Some(VotesError::BalanceToVoteErr)
        } else if source is Some && latest(self.history(source->0)) < amount {
            Some(VotesError::BalanceToVoteErr)
        } else if destination is Some && source != destination && latest(
            self.history(destination->0),
        ) + amount > u64::MAX {
            Some(VotesError::BalanceToVoteErr)
        } else {
            None
        }
    }

    pub proof fn lemma_history(&self, account: AccountId)
        requires
            self.wf(),
        ensures
            sorted(self.history(account)),
            self.has_history(account) ==> self.history(account).len() > 0,
            forall|now: BlockNumber| #[trigger] self.not_after(now) ==> not_after(self.history(account), now),
    {
        if self.has_history(account) {
            crate::table::lemma_table_dom(self.checkpoints@, account);
            let i = choose|i: int| 0 <= i < self.checkpoints@.len() && self.checkpoints@[i].0 == account;
            lemma_table_index(self.checkpoints@, i);
            assert(self.history(account) == self.checkpoints@[i].1@);
        }
    }

    /// An empty ledger.
    pub fn new() -> (r: Data)
        ensures
            r.wf(),
            r.conserves(),
            forall|now: BlockNumber| #[trigger] r.not_after(now),
            forall|a: AccountId| #[trigger] r.history(a) == Seq::<Checkpoint>::empty(),
            forall|a: AccountId| #[trigger] r.delegate_of(a) == None::<AccountId>,
            r.supply_history() == Seq::<Checkpoint>::empty(),
    {
        Data { delegates: Vec::new(), checkpoints: Vec::new(), total_supply_checkpoints: Vec::new() }
    }

    /// The history of an account, copied.
    fn history_of(&self, account: &AccountId) -> (r: Vec<Checkpoint>)
        requires
            self.wf(),
        ensures
            r@ == self.history(*account),
    {
        match lookup(&self.checkpoints, account) {
            Some(i) => copy_history(&self.checkpoints[i].1),
            None => Vec::new(),
        }
    }

    /// The current votes of an account, zero where it has no history.
    fn current_votes(&self, account: &AccountId) -> (r: Vote)
        requires
            self.wf(),
        ensures
            r == latest(self.history(*account)),
    {
        match lookup(&self.checkpoints, account) {
            Some(i) => {
                let h = &self.checkpoints[i].1;
                if h.len() == 0 {
                    0
                } else {
                    h[h.len() - 1].votes
                }
            },
            None => 0,
        }
    }

    /// Sets the history of an account.
    fn store_history(&mut self, account: &AccountId, h: Vec<Checkpoint>)
        requires
            old(self).wf(),
            sorted(h@),
            h@.len() > 0,
        ensures
            final(self).wf(),
            final(self).history(*account) == h@,
            forall|b: AccountId| b != *account ==> #[trigger] final(self).history(b) == old(self).history(b),
            final(self).supply_history() == old(self).supply_history(),
            forall|b: AccountId| #[trigger] final(self).delegate_of(b) == old(self).delegate_of(b),
            final(self).total_power() == old(self).total_power() - latest(old(self).history(*account))
                + latest(h@),
            forall|now: BlockNumber| #[trigger] old(self).not_after(now) && not_after(h@, now) ==> final(self).not_after(now),
    {
        let ghost hv = h@;
        match lookup(&self.checkpoints, account) {
            Some(i) => {
                proof {
                    lemma_table_update(self.checkpoints@, i as int, h);
                    lemma_sum_update(self.checkpoints@, i as int, (*account, h));
                }
                self.checkpoints.set(i, (*account, h));
            },
            None => {
                proof {
                    lemma_table_push(self.checkpoints@, *account, h);
                    lemma_sum_push(self.checkpoints@, (*account, h));
                }
                self.checkpoints.push((*account, h));
            },
        }
        assert(self.history(*account) == hv);
    }

    /// Writes the weight of an account (or, with `None`, of the total supply):
    /// the current weight plus or minus `delta`, as of block `now`. Returns the
    /// weights before and after.
    pub fn _write_checkpoint(
        &mut self,
        account: Option<AccountId>,
        increase: bool,
        delta: Balance,
        now: BlockNumber,
    ) -> (r: Result<(Vote, Vote), VotesError>)
        requires
            old(self).wf(),
            old(self).not_after(now),
        ensures
            final(self).wf(),
            final(self).not_after(now),
            ({
                let h = match account {
                    Some(a) => old(self).history(a),
                    None => old(self).supply_history(),
                };
                match apply_delta(latest(h), increase, delta) {
                    None => r == Err::<(Vote, Vote), VotesError>(VotesError::BalanceToVoteErr)
                        && *final(self) == *old(self),
                    Some(w) => {
                        &&& r == Ok::<(Vote, Vote), VotesError>((latest(h), w))
                        &&& forall|x: AccountId| #[trigger]
                            final(self).history(x) == if account == Some(x) {
                                written(h, now, w)
                            } else {
                                old(self).history(x)
                            }
                        &&& final(self).supply_history() == if account is None {
                            written(h, now, w)
                        } else {
                            old(self).supply_history()
                        }
                        &&& forall|b: AccountId| #[trigger] final(self).delegate_of(b) == old(self).delegate_of(b)
                        &&& final(self).total_power() == if account is Some {
                            old(self).total_power() - latest(h) + w
                        } else {
                            old(self).total_power()
                        }
                    },
                }
            }),
    {
        let mut h = match account {
            Some(a) => self.history_of(&a),
            None => copy_history(&self.total_supply_checkpoints),
        };
        proof {
            if let Some(a) = account {
                self.lemma_history(a);
            }
        }
        let old_weight: Vote = if h.len() == 0 {
            0
        } else {
            h[h.len() - 1].votes
        };
        let d = match balance_to_vote(delta) {
            Some(d) => d,
            None => return Err(VotesError::BalanceToVoteErr),
        };
        let new_weight: Vote = if increase {
            match old_weight.checked_add(d) {
                Some(w) => w,
                None => return Err(VotesError::BalanceToVoteErr),
            }
        } else {
            if old_weight < d {
                return Err(VotesError::BalanceToVoteErr);
            }
            old_weight - d
        };
        proof {
            lemma_written_keeps_order(h@, now, new_weight);
        }
        write_history(&mut h, now, new_weight);
        match account {
            Some(a) => self.store_history(&a, h),
            None => self.total_supply_checkpoints = h,
        }
        Ok((old_weight, new_weight))
    }

    /// Moves `amount` of voting power from `source` to `destination`; `None`
    /// stands for no account (a mint or a burn).
    pub fn _move_voting_power(
        &mut self,
        source: Option<AccountId>,
        destination: Option<AccountId>,
        amount: Balance,
        now: BlockNumber,
    ) -> (r: Result<(), VotesError>)
        requires
            old(self).wf(),
            old(self).not_after(now),
        ensures
            final(self).wf(),
            final(self).not_after(now),
            match old(self).move_error(source, destination, amount) {
                Some(e) => r == Err::<(), VotesError>(e) && *final(self) == *old(self),
                None => {
                    &&& r is Ok
                    &&& forall|x: AccountId| #[trigger]
                        final(self).history(x) == moved(
                            old(self).history(x),
                            x,
                            source,
                            destination,
                            amount as u64,
                            now,
                        )
                    &&& final(self).supply_history() == old(self).supply_history()
                    &&& forall|b: AccountId| #[trigger] final(self).delegate_of(b) == old(self).delegate_of(b)
                    &&& final(self).total_power() == old(self).total_power() - (if source is Some {
                        amount as int
                    } else {
                        0
                    }) + (if destination is Some {
                        amount as int
                    } else {
                        0
                    })
                },
            },
    {
        if amount == 0 {
            return Err(VotesError::MovePowerAmountError);
        }
        if amount > u64::MAX as u128 {
            return Err(VotesError::BalanceToVoteErr);
        }
        let a = amount as u64;
        if let Some(s) = source {
            if self.current_votes(&s) < a {
                return Err(VotesError::BalanceToVoteErr);
            }
        }
        if let Some(d) = destination {
            let same = match source {
                Some(s) => s.same(&d),
                None => false,
            };
            if !same && self.current_votes(&d) as u128 + a as u128 > u64::MAX as u128 {
                return Err(VotesError::BalanceToVoteErr);
            }
        }
        let ghost s0 = *self;
        if let Some(s) = source {
            let w = self._write_checkpoint(Some(s), false, amount, now);
        }
        let ghost s1 = *self;
        if let Some(d) = destination {
            proof {
                if source == Some(d) {
                    s0.lemma_history(d);
                    lemma_written_keeps_order(s0.history(d), now, (latest(s0.history(d)) - a) as u64);
                }
            }
            let w = self._write_checkpoint(Some(d), true, amount, now);
        }
        proof {
            assert forall|x: AccountId| #[trigger] self.history(x) == moved(s0.history(x), x, source, destination, a, now) by {
                assert(s1.history(x) == if source == Some(x) {
                    written(s0.history(x), now, (latest(s0.history(x)) - a) as u64)
                } else {
                    s0.history(x)
                });
            }
        }
        Ok(())
    }

    /// The delegate that `account` chose, if any.
    pub fn delegates(&self, account: AccountId) -> (r: Option<AccountId>)
        requires
            self.wf(),
        ensures
            r == self.delegate_of(account),
    {
        self._delegates(&account)
    }

    fn _delegates(&self, account: &AccountId) -> (r: Option<AccountId>)
        requires
            self.wf(),
        ensures
            r == self.delegate_of(*account),
    {
        match lookup(&self.delegates, account) {
            Some(i) => Some(self.delegates[i].1),
            None => None,
        }
    }

    /// The account that holds the voting power of `account`.
    fn holder(&self, account: &AccountId) -> (r: AccountId)
        requires
            self.wf(),
        ensures
            r == self.power_holder(*account),
    {
        match self._delegates(account) {
            Some(d) => d,
            None => *account,
        }
    }

    /// How a delegation relates the ledger before and after it, and what it
    /// returns: the delegator's balance worth of power moves from its current
    /// holder to the delegatee, which becomes its delegate.
    pub open spec fn delegated(
        &self,
        next: Data,
        delegator: AccountId,
        delegatee: AccountId,
        delegator_balance: Balance,
        now: BlockNumber,
        r: Result<(), VotesError>,
    ) -> bool {
        let from = self.power_holder(delegator);
        match self.move_error(Some(from), Some(delegatee), delegator_balance) {
            Some(e) => r == Err::<(), VotesError>(e) && next == *self,
            None => {
                &&& r is Ok
                &&& next.delegate_of(delegator) == Some(delegatee)
                &&& forall|b: AccountId| b != delegator ==> #[trigger] next.delegate_of(b) == self.delegate_of(b)
                &&& forall|x: AccountId| #[trigger]
                    next.history(x) == moved(
                        self.history(x),
                        x,
                        Some(from),
                        Some(delegatee),
                        delegator_balance as u64,
                        now,
                    )
                &&& next.supply_history() == self.supply_history()
                &&& next.total_power() == self.total_power()
            },
        }
    }

    /// Makes `delegatee` the delegate of `delegator`, moving the delegator's
    /// balance worth of voting power from its current holder to the delegatee.
    pub fn _delegate(
        &mut self,
        delegator: &AccountId,
        delegatee: &AccountId,
        delegator_balance: Balance,
        now: BlockNumber,
    ) -> (r: Result<(), VotesError>)
        requires
            old(self).wf(),
            old(self).not_after(now),
        ensures
            final(self).wf(),
            final(self).not_after(now),
            old(self).delegated(*final(self), *delegator, *delegatee, delegator_balance, now, r),
            old(self).conserves() ==> final(self).conserves(),
    {
        let from = self.holder(delegator);
        if delegator_balance == 0 {
            return Err(VotesError::MovePowerAmountError);
        }
        if delegator_balance > u64::MAX as u128 {
            return Err(VotesError::BalanceToVoteErr);
        }
        let a = delegator_balance as u64;
        if self.current_votes(&from) < a {
            return Err(VotesError::BalanceToVoteErr);
        }
        if !from.same(delegatee) && self.current_votes(delegatee) as u128 + a as u128 > u64::MAX as u128 {
            return Err(VotesError::BalanceToVoteErr);
        }
        let ghost s0 = *self;
        match lookup(&self.delegates, delegator) {
            Some(i) => {
                proof {
                    lemma_table_update(self.delegates@, i as int, *delegatee);
                }
                self.delegates.set(i, (*delegator, *delegatee));
            },
            None => {
                proof {
                    lemma_table_push(self.delegates@, *delegator, *delegatee);
                }
                self.delegates.push((*delegator, *delegatee));
            },
        }
        assert(forall|x: AccountId| #[trigger] self.history(x) == s0.history(x));
        assert(self.total_power() == s0.total_power());
        let r = self._move_voting_power(Some(from), Some(*delegatee), delegator_balance, now);
        r
    }

    /// Delegates the caller's voting power to `delegatee`; `caller_balance` is
    /// the caller's token balance.
    pub fn delegate(
        &mut self,
        caller: AccountId,
        delegatee: AccountId,
        caller_balance: Balance,
        now: BlockNumber,
    ) -> (r: Result<(), VotesError>)
        requires
            old(self).wf(),
            old(self).not_after(now),
        ensures
            final(self).wf(),
            final(self).not_after(now),
            old(self).delegated(*final(self), caller, delegatee, caller_balance, now, r),
            old(self).conserves() ==> final(self).conserves(),
    {
        self._delegate(&caller, &delegatee, caller_balance, now)
    }

    /// The error that a token transfer of `amount` from `from` to `to` meets in
    /// the ledger, if any: `None` on either side stands for a mint or a burn.
    pub open spec fn transfer_error(
        &self,
        from: Option<AccountId>,
        to: Option<AccountId>,
        amount: Balance,
    ) -> Option<VotesError> {
        match (from, to) {
            (Some(f), Some(t)) => self.move_error(
                Some(self.power_holder(f)),
                Some(self.power_holder(t)),
                amount,
            ),
            (Some(f), None) => if apply_delta(latest(self.supply_history()), false, amount) is None {
                Some(VotesError::BalanceToVoteErr)
            } else {
                self.move_error(Some(self.power_holder(f)), None, amount)
            },
            (None, Some(t)) => if apply_delta(latest(self.supply_history()), true, amount) is None {
                Some(VotesError::BalanceToVoteErr)
            } else {
                self.move_error(None, Some(self.power_holder(t)), amount)
            },
            (None, None) => Some(VotesError::MovePowerAmountError),
        }
    }

    /// Follows a change of token balances: a mint (`from` is `None`) adds to the
    /// total supply and to the voting power of the recipient's holder, a burn
    /// (`to` is `None`) takes from both, a transfer moves power between the
    /// holders of the two accounts.
    pub fn _after_token_transfer_votes(
        &mut self,
        from: Option<AccountId>,
        to: Option<AccountId>,
        amount: Balance,
        now: BlockNumber,
    ) -> (r: Result<(), PSP22VotesError>)
        requires
            old(self).wf(),
            old(self).not_after(now),
        ensures
            final(self).wf(),
            final(self).not_after(now),
            match old(self).transfer_error(from, to, amount) {
                Some(e) => r == Err::<(), PSP22VotesError>(PSP22VotesError::VotesError(e))
                    && *final(self) == *old(self),
                None => {
                    &&& r is Ok
                    &&& forall|x: AccountId| #[trigger]
                        final(self).history(x) == moved(
                            old(self).history(x),
                            x,
                            match from {
                                Some(f) => Some(old(self).power_holder(f)),
                                None => None,
                            },
                            match to {
                                Some(t) => Some(old(self).power_holder(t)),
                                None => None,
                            },
                            amount as u64,
                            now,
                        )
                    &&& final(self).supply_history() == match (from, to) {
                        (Some(_), Some(_)) => old(self).supply_history(),
                        (Some(_), None) => written(
                            old(self).supply_history(),
                            now,
                            (latest(old(self).supply_history()) - amount) as u64,
                        ),
                        _ => written(
                            old(self).supply_history(),
                            now,
                            (latest(old(self).supply_history()) + amount) as u64,
                        ),
                    }
                    &&& forall|b: AccountId| #[trigger] final(self).delegate_of(b) == old(self).delegate_of(b)
                },
            },
            old(self).conserves() ==> final(self).conserves(),
    {
        match (from, to) {
            (Some(f), Some(t)) => {
                let hf = self.holder(&f);
                let ht = self.holder(&t);
                match self._move_voting_power(Some(hf), Some(ht), amount, now) {
                    Ok(()) => Ok(()),
                    Err(e) => Err(PSP22VotesError::from(e)),
                }
            },
            (Some(f), None) => {
                let hf = self.holder(&f);
                let supply = if self.total_supply_checkpoints.len() == 0 {
                    0
                } else {
                    self.total_supply_checkpoints[self.total_supply_checkpoints.len() - 1].votes
                };
                if amount > supply as u128 {
                    return Err(PSP22VotesError::VotesError(VotesError::BalanceToVoteErr));
                }
                if amount == 0 {
                    return Err(PSP22VotesError::VotesError(VotesError::MovePowerAmountError));
                }
                if self.current_votes(&hf) < amount as u64 {
                    return Err(PSP22VotesError::VotesError(VotesError::BalanceToVoteErr));
                }
                let w = self._write_checkpoint(None, false, amount, now);
                let m = self._move_voting_power(Some(hf), None, amount, now);
                Ok(())
            },
            (None, Some(t)) => {
                let ht = self.holder(&t);
                let supply = if self.total_supply_checkpoints.len() == 0 {
                    0
                } else {
                    self.total_supply_checkpoints[self.total_supply_checkpoints.len() - 1].votes
                };
                if amount > u64::MAX as u128 || supply as u128 + amount > u64::MAX as u128 {
                    return Err(PSP22VotesError::VotesError(VotesError::BalanceToVoteErr));
                }
                if amount == 0 {
                    return Err(PSP22VotesError::VotesError(VotesError::MovePowerAmountError));
                }
                if self.current_votes(&ht) as u128 + amount > u64::MAX as u128 {
                    return Err(PSP22VotesError::VotesError(VotesError::BalanceToVoteErr));
                }
                let w = self._write_checkpoint(None, true, amount, now);
                let m = self._move_voting_power(None, Some(ht), amount, now);
                Ok(())
            },
            (None, None) => Err(PSP22VotesError::VotesError(VotesError::MovePowerAmountError)),
        }
    }

    /// The current votes of `account`; `ZeroCheckpoints` where it has no history.
    pub fn get_votes(&self, account: AccountId) -> (r: Result<Vote, VotesError>)
        requires
            self.wf(),
        ensures
            self.has_history(account) ==> r == Ok::<Vote, VotesError>(latest(self.history(account))),
            !self.has_history(account) ==> r == Err::<Vote, VotesError>(VotesError::ZeroCheckpoints),
    {
        match lookup(&self.checkpoints, &account) {
            Some(i) => {
                proof {
                    lemma_table_index(self.checkpoints@, i as int);
                }
                let h = &self.checkpoints[i].1;
                Ok(h[h.len() - 1].votes)
            },
            None => Err(VotesError::ZeroCheckpoints),
        }
    }

    /// The votes of `account` at the end of block `block_number`; zero before its
    /// first checkpoint; `NotMinedBlock` for a block after `now`.
    pub fn get_past_votes(&self, account: AccountId, block_number: BlockNumber, now: BlockNumber) -> (r:
        Result<Vote, VotesError>)
        requires
            self.wf(),
        ensures
            block_number > now ==> r == Err::<Vote, VotesError>(VotesError::NotMinedBlock),
            block_number <= now ==> r == Ok::<Vote, VotesError>(
                past_votes(self.history(account), block_number),
            ),
    {
        if block_number > now {
            return Err(VotesError::NotMinedBlock);
        }
        proof {
            self.lemma_history(account);
        }
        match lookup(&self.checkpoints, &account) {
            Some(i) => Ok(_get_past_votes(self.checkpoints[i].1.as_slice(), block_number)),
            None => Ok(0),
        }
    }

    /// The total supply at the end of block `block_number`; `NotMinedBlock` for a
    /// block after `now`.
    pub fn get_past_total_supply(&self, block_number: BlockNumber, now: BlockNumber) -> (r: Result<
        Vote,
        VotesError,
    >)
        requires
            self.wf(),
        ensures
            block_number > now ==> r == Err::<Vote, VotesError>(VotesError::NotMinedBlock),
            block_number <= now ==> r == Ok::<Vote, VotesError>(
                past_votes(self.supply_history(), block_number),
            ),
    {
        if block_number > now {
            return Err(VotesError::NotMinedBlock);
        }
        Ok(_get_past_votes(self.total_supply_checkpoints.as_slice(), block_number))
    }

    /// The checkpoint of `account` at position `pos`; `NoCheckpoint` where there is none.
    pub fn checkpoints(&self, account: AccountId, pos: u32) -> (r: Result<Checkpoint, PSP22VotesError>)
        requires
            self.wf(),
        ensures
            pos < self.history(account).len() ==> r == Ok::<Checkpoint, PSP22VotesError>(
                self.history(account)[pos as int],
            ),
            pos >= self.history(account).len() ==> r == Err::<Checkpoint, PSP22VotesError>(
                PSP22VotesError::VotesError(VotesError::NoCheckpoint),
            ),
    {
        match lookup(&self.checkpoints, &account) {
            Some(i) => {
                let h = &self.checkpoints[i].1;
                let index = match u32_to_usize(pos) {
                    Some(index) => index,
                    None => return Err(PSP22VotesError::VotesError(VotesError::NoCheckpoint)),
                };
                if index >= h.len() {
                    return Err(PSP22VotesError::VotesError(VotesError::NoCheckpoint));
                }
                Ok(h[index])
            },
            None => Err(PSP22VotesError::VotesError(VotesError::NoCheckpoint)),
        }
    }

    /// The number of checkpoints of `account`; `NoCheckpoint` where it has none.
    pub fn num_checkpoints(&self, account: AccountId) -> (r: Result<u32, PSP22VotesError>)
        requires
            self.wf(),
        ensures
            !self.has_history(account) ==> r == Err::<u32, PSP22VotesError>(
                PSP22VotesError::VotesError(VotesError::NoCheckpoint),
            ),
            self.has_history(account) && self.history(account).len() <= u32::MAX ==> r == Ok::<
                u32,
                PSP22VotesError,
            >(self.history(account).len() as u32),
            self.has_history(account) && self.history(account).len() > u32::MAX ==> r matches Err(
                PSP22VotesError::ConvertionError { .. },
            ),
    {
        match lookup(&self.checkpoints, &account) {
            Some(i) => match usize_to_u32(self.checkpoints[i].1.len()) {
                Some(n) => Ok(n),
                None => Err(
                    PSP22VotesError::ConvertionError {
                        from: <String as vstd::string::StringExecFns>::from_str("usize"),
                        to: <String as vstd::string::StringExecFns>::from_str("u32"),
                    },
                ),
            },
            None => Err(PSP22VotesError::VotesError(VotesError::NoCheckpoint)),
        }
    }
}

impl Voter for Data {
    open spec fn voter_wf(&self) -> bool {
        self.wf()
    }

    /// Token voting: the votes held at the end of the block, zero where there
    /// were none.
    open spec fn votes_at(&self, account: AccountId, block_number: BlockNumber, params: Seq<u8>) -> Option<u64> {
        Some(past_votes(self.history(account), block_number))
    }

    fn _get_votes(&self, account: &AccountId, block_number: BlockNumber, params: &[u8]) -> (r: Option<u64>) {
        proof {
            self.lemma_history(*account);
        }
        match lookup(&self.checkpoints, account) {
            Some(i) => Some(_get_past_votes(self.checkpoints[i].1.as_slice(), block_number)),
            None => Some(0),
        }
    }
}

/// Converts a `u32` to a `usize`, where it fits.
pub fn u32_to_usize(input: u32) -> (r: Option<usize>)
    ensures
        r == Some(input as usize),
{
    Some(input as usize)
}

/// Converts a `usize` to a `u32`, where it fits.
pub fn usize_to_u32(input: usize) -> (r: Option<u32>)
    ensures
        input <= u32::MAX ==> r == Some(input as u32),
        input > u32::MAX ==> r is None,
{
    if input <= u32::MAX as usize {
        Some(input as u32)
    } else {
        None
    }
}

/// Converts a token balance to a vote weight, where it fits.
pub fn balance_to_vote(input: Balance) -> (r: Option<Vote>)
    ensures
        input <= u64::MAX ==> r == Some(input as u64),
        input > u64::MAX ==> r is None,
{
    if input <= u64::MAX as u128 {
        Some(input as u64)
    } else {
        None
    }
}

/// A weight written at block `now` is what the history gives at `now` and at
/// every later block, until the next write.
pub proof fn lemma_checkpoint_round_trip(h: Seq<Checkpoint>, now: BlockNumber, w: Vote, b: BlockNumber)
    requires
        now <= b,
    ensures
        past_votes(written(h, now, w), b) == w,
{
}

/// Before the first checkpoint of a sorted history its votes are zero.
pub proof fn lemma_votes_before_first_checkpoint(h: Seq<Checkpoint>, b: BlockNumber)
    requires
        sorted(h),
        h.len() > 0,
        b < h[0].from_block,
    ensures
        past_votes(h, b) == 0,
{
    lemma_past_votes_prefix(h, b, 0);
}

/// Two writes in the same block leave one checkpoint for that block, holding
/// the second weight: the same history as the second write alone.
pub proof fn lemma_same_block_coalescing(h: Seq<Checkpoint>, now: BlockNumber, w1: Vote, w2: Vote)
    ensures
        written(written(h, now, w1), now, w2) == written(h, now, w2),
        written(written(h, now, w1), now, w2).len() == written(h, now, w1).len(),
{
    if h.len() > 0 && h.last().from_block == now {
        assert(written(written(h, now, w1), now, w2) =~= written(h, now, w2));
    } else {
        assert(written(written(h, now, w1), now, w2) =~= written(h, now, w2));
    }
}

} // verus!
