//! Counting strategies: the `Counter` capability and simple counting with
//! three buckets (against, for, abstain).

use vstd::prelude::*;
use crate::errors::{CountingError, CountingSimpleError};
use crate::table::{keys_unique, lookup, table_view, lemma_table_push, lemma_table_update};
use crate::types::{AccountId, ProposalId};

verus! {

/// A counting strategy: records votes and decides quorum and outcome.
pub trait Counter: Sized {
    /// The strategy's own invariant.
    spec fn counter_wf(&self) -> bool;

    /// Whether enough votes were cast on the proposal.
    spec fn quorum_reached_spec(&self, proposal_id: ProposalId) -> bool;

    /// Whether the votes cast on the proposal make it succeed.
    spec fn vote_succeeded_spec(&self, proposal_id: ProposalId) -> bool;

    /// What recording a vote returns.
    spec fn count_vote_result(
        &self,
        proposal_id: ProposalId,
        account: AccountId,
        support: u8,
        weight: u64,
    ) -> Result<(), CountingError>;

    /// How the state after a recorded vote relates to the state before.
    spec fn counted(
        &self,
        next: Self,
        proposal_id: ProposalId,
        account: AccountId,
        support: u8,
        weight: u64,
    ) -> bool;

    /// Whether the account voted on the proposal.
    spec fn has_voted_spec(&self, proposal_id: ProposalId, account: AccountId) -> bool;

    /// An account that voted on a proposal cannot vote on it again.
    proof fn lemma_voted_rejects(&self, proposal_id: ProposalId, account: AccountId, support: u8, weight: u64)
        requires
            self.has_voted_spec(proposal_id, account),
        ensures
            self.count_vote_result(proposal_id, account, support, weight) == Err::<(), CountingError>(
                CountingError::VoteAlreadyCast,
            ),
    ;

    fn _quorum_reached(&self, proposal_id: &ProposalId) -> (r: bool)
        requires
            self.counter_wf(),
        ensures
            r == self.quorum_reached_spec(*proposal_id),
    ;

    fn _vote_succeeded(&self, proposal_id: &ProposalId) -> (r: bool)
        requires
            self.counter_wf(),
        ensures
            r == self.vote_succeeded_spec(*proposal_id),
    ;

    /// Records a vote of `account` on the proposal; an account votes at most once.
    fn _count_vote(
        &mut self,
        proposal_id: &ProposalId,
        account: &AccountId,
        support: u8,
        weight: u64,
        params: &[u8],
    ) -> (r: Result<(), CountingError>)
        requires
            old(self).counter_wf(),
        ensures
            final(self).counter_wf(),
            r == old(self).count_vote_result(*proposal_id, *account, support, weight),
            r is Ok ==> old(self).counted(*final(self), *proposal_id, *account, support, weight),
            r is Err ==> *final(self) == *old(self),
            old(self).has_voted_spec(*proposal_id, *account) ==> r == Err::<(), CountingError>(
                CountingError::VoteAlreadyCast,
            ),
            r is Ok ==> final(self).has_voted_spec(*proposal_id, *account),
    ;
}

/// The choices available to vote on a proposal.
#[derive(Clone, Copy, Debug, PartialEq, Eq, Structural)]
pub enum VoteType {
    Against,
    For,
    Abstain,
}

/// The vote type that a support value names: 1, 2 and 3 in the order of the variants.
pub open spec fn vote_type_of(value: u8) -> Option<VoteType> {
    if value == 1 {
        Some(VoteType::Against)
    } else if value == 2 {
        Some(VoteType::For)
    } else if value == 3 {
        Some(VoteType::Abstain)
    } else {
        None
    }
}

impl VoteType {
    /// The vote type of a support value; any other value is `InvalidVoteType`.
    pub fn try_from(value: u8) -> (r: Result<VoteType, CountingError>)
        ensures
            match vote_type_of(value) {
                Some(t) => r == Ok::<VoteType, CountingError>(t),
                None => r == Err::<VoteType, CountingError>(CountingError::InvalidVoteType),
            },
    {
        match value {
            1 => Ok(VoteType::Against),
            2 => Ok(VoteType::For),
            3 => Ok(VoteType::Abstain),
            _ => Err(CountingError::InvalidVoteType),
        }
    }
}

/// The votes that a proposal has received.
#[derive(Clone, Copy, Debug, PartialEq, Eq, Structural)]
pub struct ProposalVote {
    /// The votes against the proposal.
    pub against_votes: u64,
    /// The votes in favour of the proposal.
    pub for_votes: u64,
    /// The abstain votes.
    pub abstain_votes: u64,
}

/// No votes.
pub open spec fn zero_votes() -> ProposalVote {
    ProposalVote { against_votes: 0, for_votes: 0, abstain_votes: 0 }
}

impl Default for ProposalVote {
    fn default() -> (r: Self)
        ensures
            r == zero_votes(),
    {
        ProposalVote { against_votes: 0, for_votes: 0, abstain_votes: 0 }
    }
}

/// The tally after adding `weight` to the bucket of `vote`, where it fits in a `u64`.
pub open spec fn add_vote(v: ProposalVote, vote: VoteType, weight: u64) -> Option<ProposalVote> {
    match vote {
        VoteType::Against => if v.against_votes + weight <= u64::MAX {
            Some(ProposalVote { against_votes: (v.against_votes + weight) as u64, ..v })
        } else {
            None
        },
        VoteType::For => if v.for_votes + weight <= u64::MAX {
            Some(ProposalVote { for_votes: (v.for_votes + weight) as u64, ..v })
        } else {
            None
        },
        VoteType::Abstain => if v.abstain_votes + weight <= u64::MAX {
            Some(ProposalVote { abstain_votes: (v.abstain_votes + weight) as u64, ..v })
        } else {
            None
        },
    }
}

/// The minimum of for and abstain votes that a proposal needs.
pub const QUORUM: u64 = 1;

/// Simple counting: for, against and abstain votes, one vote per account and proposal.
pub struct Counting {
    /// The tally of each proposal that received a vote.
    pub proposal_votes: Vec<(ProposalId, ProposalVote)>,
    /// The accounts that voted, with the proposal they voted on.
    pub has_voted: Vec<((AccountId, ProposalId), bool)>,
}

impl Counting {
    /// The tally of a proposal: zero where no vote was cast.
    pub open spec fn votes_of(&self, proposal_id: ProposalId) -> ProposalVote {
        if table_view(self.proposal_votes@).contains_key(proposal_id) {
            table_view(self.proposal_votes@)[proposal_id]
        } else {
            zero_votes()
        }
    }

    /// Whether the account voted on the proposal.
    pub open spec fn voted(&self, proposal_id: ProposalId, account: AccountId) -> bool {
        table_view(self.has_voted@).contains_key((account, proposal_id)) && table_view(
            self.has_voted@,
        )[(account, proposal_id)]
    }

    /// Storage is well formed: no key twice.
    pub open spec fn wf(&self) -> bool {
        keys_unique(self.proposal_votes@) && keys_unique(self.has_voted@)
    }

    /// Counting with no votes.
    pub fn new() -> (r: Counting)
        ensures
            r.wf(),
            forall|id: ProposalId| #[trigger] r.votes_of(id) == zero_votes(),
            forall|id: ProposalId, a: AccountId| !#[trigger] r.voted(id, a),
    {
        Counting { proposal_votes: Vec::new(), has_voted: Vec::new() }
    }

    /// The minimum of for and abstain votes that a proposal needs.
    pub fn quorum(&self) -> (r: u64)
        ensures
            r == QUORUM,
    {
        QUORUM
    }

    /// Whether `account` voted on the proposal.
    pub fn has_voted(&self, proposal_id: ProposalId, account: AccountId) -> (r: bool)
        requires
            self.wf(),
        ensures
            r == self.voted(proposal_id, account),
    {
        match lookup(&self.has_voted, &(account, proposal_id)) {
            Some(i) => self.has_voted[i].1,
            None => false,
        }
    }

    /// The votes that a proposal received; `NoProposal` where no vote was cast on it.
    pub fn proposal_votes(&self, proposal_id: ProposalId) -> (r: Result<ProposalVote, CountingSimpleError>)
        requires
            self.wf(),
        ensures
            table_view(self.proposal_votes@).contains_key(proposal_id) ==> r == Ok::<
                ProposalVote,
                CountingSimpleError,
            >(self.votes_of(proposal_id)),
            !table_view(self.proposal_votes@).contains_key(proposal_id) ==> r == Err::<
                ProposalVote,
                CountingSimpleError,
            >(CountingSimpleError::NoProposal),
    {
        match lookup(&self.proposal_votes, &proposal_id) {
            Some(i) => Ok(self.proposal_votes[i].1),
            None => Err(CountingSimpleError::NoProposal),
        }
    }

    fn tally(&self, proposal_id: &ProposalId) -> (r: ProposalVote)
        requires
            self.wf(),
        ensures
            r == self.votes_of(*proposal_id),
    {
        match lookup(&self.proposal_votes, proposal_id) {
            Some(i) => self.proposal_votes[i].1,
            None => ProposalVote::default(),
        }
    }
}

impl Counter for Counting {
    open spec fn counter_wf(&self) -> bool {
        self.wf()
    }

    open spec fn quorum_reached_spec(&self, proposal_id: ProposalId) -> bool {
        QUORUM <= self.votes_of(proposal_id).for_votes + self.votes_of(proposal_id).abstain_votes
    }

    open spec fn vote_succeeded_spec(&self, proposal_id: ProposalId) -> bool {
        self.votes_of(proposal_id).for_votes > self.votes_of(proposal_id).against_votes
    }

    open spec fn has_voted_spec(&self, proposal_id: ProposalId, account: AccountId) -> bool {
        self.voted(proposal_id, account)
    }

    open spec fn count_vote_result(
        &self,
        proposal_id: ProposalId,
        account: AccountId,
        support: u8,
        weight: u64,
    ) -> Result<(), CountingError> {
        if self.voted(proposal_id, account) {
            Err(CountingError::VoteAlreadyCast)
        } else {
            match vote_type_of(support) {
                None => Err(CountingError::InvalidVoteType),
                Some(t) => match add_vote(self.votes_of(proposal_id), t, weight) {
                    None => Err(CountingError::VoteOverflow),
                    Some(v) => Ok(()),
                },
            }
        }
    }

    open spec fn counted(
        &self,
        next: Self,
        proposal_id: ProposalId,
        account: AccountId,
        support: u8,
        weight: u64,
    ) -> bool {
        &&& vote_type_of(support) is Some
        &&& add_vote(self.votes_of(proposal_id), vote_type_of(support)->0, weight) == Some(
            next.votes_of(proposal_id),
        )
        &&& forall|id: ProposalId| id != proposal_id ==> #[trigger] next.votes_of(id) == self.votes_of(id)
        &&& next.voted(proposal_id, account)
        &&& forall|id: ProposalId, a: AccountId|
            (id != proposal_id || a != account) ==> #[trigger] next.voted(id, a) == self.voted(id, a)
    }

    proof fn lemma_voted_rejects(&self, proposal_id: ProposalId, account: AccountId, support: u8, weight: u64) {
    }

    fn _quorum_reached(&self, proposal_id: &ProposalId) -> (r: bool) {
        let v = self.tally(proposal_id);
        QUORUM as u128 <= v.for_votes as u128 + v.abstain_votes as u128
    }

    fn _vote_succeeded(&self, proposal_id: &ProposalId) -> (r: bool) {
        let v = self.tally(proposal_id);
        v.for_votes > v.against_votes
    }

    fn _count_vote(
        &mut self,
        proposal_id: &ProposalId,
        account: &AccountId,
        support: u8,
        weight: u64,
        params: &[u8],
    ) -> (r: Result<(), CountingError>) {
        if self.has_voted(*proposal_id, *account) {
            return Err(CountingError::VoteAlreadyCast);
        }
        let t = match VoteType::try_from(support) {
            Ok(t) => t,
            Err(e) => return Err(e),
        };
        let v = self.tally(proposal_id);
        let updated = match t {
            VoteType::Against => match v.against_votes.checked_add(weight) {
                Some(n) => ProposalVote { against_votes: n, ..v },
                None => return Err(CountingError::VoteOverflow),
            },
            VoteType::For => match v.for_votes.checked_add(weight) {
                Some(n) => ProposalVote { for_votes: n, ..v },
                None => return Err(CountingError::VoteOverflow),
            },
            VoteType::Abstain => match v.abstain_votes.checked_add(weight) {
                Some(n) => ProposalVote { abstain_votes: n, ..v },
                None => return Err(CountingError::VoteOverflow),
            },
        };
        assert(add_vote(v, t, weight) == Some(updated));
        let ghost old_self = *self;
        match lookup(&self.proposal_votes, proposal_id) {
            Some(i) => {
                proof {
                    lemma_table_update(self.proposal_votes@, i as int, updated);
                }
                self.proposal_votes.set(i, (*proposal_id, updated));
            },
            None => {
                proof {
                    lemma_table_push(self.proposal_votes@, *proposal_id, updated);
                }
                self.proposal_votes.push((*proposal_id, updated));
            },
        }
        match lookup(&self.has_voted, &(*account, *proposal_id)) {
            Some(i) => {
                proof {
                    lemma_table_update(self.has_voted@, i as int, true);
                }
                self.has_voted.set(i, ((*account, *proposal_id), true));
            },
            None => {
                proof {
                    lemma_table_push(self.has_voted@, (*account, *proposal_id), true);
                }
                self.has_voted.push(((*account, *proposal_id), true));
            },
        }
        assert(table_view(self.proposal_votes@) == table_view(old_self.proposal_votes@).insert(
            *proposal_id,
            updated,
        ));
        Ok(())
    }
}

} // verus!
