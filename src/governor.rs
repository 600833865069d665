//! The governor: proposals, their states, votes and execution.

use vstd::prelude::*;
use crate::counting::Counter;
use crate::errors::{CountingError, GovernorError};
use crate::governor_settings::Data as Settings;
use crate::hashing::{description_hash_of, hash_description, hash_proposal, proposal_id_of};
use crate::table::{keys_unique, lookup, table_view, lemma_table_push, lemma_table_update};
use crate::types::{AccountId, BlockNumber, Hash256, Proposal, ProposalId, TableKey};
use crate::voter::Voter;

verus! {

/// The states of a proposal.
#[derive(Clone, Copy, Debug, PartialEq, Eq, Structural)]
pub enum ProposalState {
    Pending,
    Active,
    Canceled,
    Defeated,
    Succeeded,
    Queued,
    Expired,
    Executed,
}

/// What the governor stores of a proposal.
#[derive(Clone, Copy, Debug, PartialEq, Eq, Structural)]
pub struct ProposalCore {
    /// The block number when voting for a proposal start
    pub vote_start: BlockNumber,
    /// The block number when voting for a proposal end
    pub vote_end: BlockNumber,
    /// Whether the proposal was executed.
    pub executed: bool,
    /// Whether the proposal was canceled.
    pub canceled: bool,
}

/// The governor, with its counting module `C` and its source of voting power `V`.
pub struct Data<C, V> {
    /// The stored proposals.
    pub proposals: Vec<(ProposalId, ProposalCore)>,
    /// Selectors that an execution in progress allows to be called through
    /// governance; empty outside an execution.
    pub governance_call: Vec<[u8; 4]>,
    /// The module that counts votes.
    pub counting_module: C,
    /// The module that gives voting power.
    pub voting_module: V,
    /// Voting delay, voting period and proposal threshold.
    pub settings: Settings,
    /// The address of the governor itself.
    pub account_id: AccountId,
    /// The address through which the governor executes actions.
    pub executor: AccountId,
}

/// Whether a proposal in a given state may be executed.
pub open spec fn executable(s: ProposalState) -> bool {
    s == ProposalState::Succeeded || s == ProposalState::Queued
}

/// Whether a proposal in a given state may be canceled.
pub open spec fn cancelable(s: ProposalState) -> bool {
    !(s == ProposalState::Canceled || s == ProposalState::Expired || s == ProposalState::Executed)
}

impl<C: Counter, V: Voter> Data<C, V> {
    /// The stored proposal of an id, if any.
    pub open spec fn proposal_of(&self, proposal_id: ProposalId) -> Option<ProposalCore> {
        if table_view(self.proposals@).contains_key(proposal_id) {
            Some(table_view(self.proposals@)[proposal_id])
        } else {
            None
        }
    }

    /// Storage is well formed.
    pub open spec fn wf(&self) -> bool {
        &&& keys_unique(self.proposals@)
        &&& forall|i: int|
            0 <= i < self.proposals@.len() ==> #[trigger] self.proposals@[i].1.vote_start
                <= self.proposals@[i].1.vote_end
        &&& self.counting_module.counter_wf()
        &&& self.voting_module.voter_wf()
    }

    /// The state of a proposal at block `now`: derived from its flags, its
    /// voting window and the counting module.
    pub open spec fn state_at(&self, proposal_id: ProposalId, now: BlockNumber) -> Result<ProposalState, GovernorError> {
        match self.proposal_of(proposal_id) {
            None => Err(GovernorError::ProposalNotFound),
            Some(p) => Ok(
                if p.executed {
                    ProposalState::Executed
                } else if p.canceled {
                    ProposalState::Canceled
                } else if now <= p.vote_start {
                    ProposalState::Pending
                } else if now <= p.vote_end {
                    ProposalState::Active
                } else if self.counting_module.quorum_reached_spec(proposal_id)
                    && self.counting_module.vote_succeeded_spec(proposal_id) {
                    ProposalState::Succeeded
                } else {
                    ProposalState::Defeated
                },
            ),
        }
    }

    /// The error that a vote meets, if any: checked in the order proposal,
    /// voting power at the proposal's snapshot, state, counting module.
    pub open spec fn cast_vote_error(
        &self,
        proposal_id: ProposalId,
        account: AccountId,
        support: u8,
        params: Seq<u8>,
        now: BlockNumber,
    ) -> Option<GovernorError> {
        match self.proposal_of(proposal_id) {
            None => Some(GovernorError::ProposalNotFound),
            Some(p) => match self.voting_module.votes_at(account, p.vote_start, params) {
                None => Some(GovernorError::NoVotes),
                Some(w) => if self.state_at(proposal_id, now) != Ok::<ProposalState, GovernorError>(
                    ProposalState::Active,
                ) {
                    Some(GovernorError::ProposalNotActive)
                } else {
                    match self.counting_module.count_vote_result(proposal_id, account, support, w) {
                        Ok(()) => None,
                        Err(e) => Some(governor_error_of(e)),
                    }
                },
            },
        }
    }

    /// Every stored proposal's vote starts no later than it ends.
    pub proof fn lemma_core_ordered(&self, proposal_id: ProposalId)
        requires
            self.wf(),
        ensures
            self.proposal_of(proposal_id) matches Some(p) ==> p.vote_start <= p.vote_end,
    {
        if self.proposal_of(proposal_id) is Some {
            crate::table::lemma_table_dom(self.proposals@, proposal_id);
            let i = choose|i: int| 0 <= i < self.proposals@.len() && self.proposals@[i].0 == proposal_id;
            crate::table::lemma_table_index(self.proposals@, i);
        }
    }

    /// A governor with no proposals; the executor is the governor itself.
    pub fn new(counting_module: C, voting_module: V, account_id: AccountId, settings: Settings) -> (r: Self)
        requires
            counting_module.counter_wf(),
            voting_module.voter_wf(),
        ensures
            r.wf(),
            forall|id: ProposalId| #[trigger] r.proposal_of(id) == None::<ProposalCore>,
            r.governance_call@.len() == 0,
            r.counting_module == counting_module,
            r.voting_module == voting_module,
            r.settings == settings,
            r.account_id == account_id,
            r.executor == account_id,
    {
        Data {
            proposals: Vec::new(),
            governance_call: Vec::new(),
            counting_module,
            voting_module,
            settings,
            account_id,
            executor: account_id,
        }
    }

    fn core_of(&self, proposal_id: &ProposalId) -> (r: Option<ProposalCore>)
        requires
            self.wf(),
        ensures
            r == self.proposal_of(*proposal_id),
    {
        match lookup(&self.proposals, proposal_id) {
            Some(i) => Some(self.proposals[i].1),
            None => None,
        }
    }

    fn store_core(&mut self, proposal_id: &ProposalId, core: ProposalCore)
        requires
            old(self).wf(),
            core.vote_start <= core.vote_end,
        ensures
            final(self).wf(),
            final(self).proposal_of(*proposal_id) == Some(core),
            forall|id: ProposalId| id != *proposal_id ==> #[trigger] final(self).proposal_of(id) == old(self).proposal_of(id),
            final(self).counting_module == old(self).counting_module,
            final(self).voting_module == old(self).voting_module,
            final(self).settings == old(self).settings,
            final(self).governance_call == old(self).governance_call,
            final(self).account_id == old(self).account_id,
            final(self).executor == old(self).executor,
    {
        match lookup(&self.proposals, proposal_id) {
            Some(i) => {
                proof {
                    lemma_table_update(self.proposals@, i as int, core);
                }
                self.proposals.set(i, (*proposal_id, core));
            },
            None => {
                proof {
                    lemma_table_push(self.proposals@, *proposal_id, core);
                }
                self.proposals.push((*proposal_id, core));
            },
        }
    }

    /// The id of a proposal with the given description hash.
    pub fn hash_proposal(&self, proposal: &Proposal, description_hash: Hash256) -> (r: ProposalId)
        requires
            proposal.input@.len() <= u32::MAX,
        ensures
            r == proposal_id_of(*proposal, description_hash),
    {
        hash_proposal(proposal, &description_hash)
    }

    /// The state of a proposal at block `now`; `ProposalNotFound` where there is none.
    pub fn state(&self, proposal_id: ProposalId, now: BlockNumber) -> (r: Result<ProposalState, GovernorError>)
        requires
            self.wf(),
        ensures
            r == self.state_at(proposal_id, now),
    {
        let p = match self.core_of(&proposal_id) {
            Some(p) => p,
            None => return Err(GovernorError::ProposalNotFound),
        };
        if p.executed {
            return Ok(ProposalState::Executed);
        }
        if p.canceled {
            return Ok(ProposalState::Canceled);
        }
        if now <= p.vote_start {
            return Ok(ProposalState::Pending);
        }
        if now <= p.vote_end {
            return Ok(ProposalState::Active);
        }
        if self.counting_module._quorum_reached(&proposal_id) && self.counting_module._vote_succeeded(
            &proposal_id,
        ) {
            Ok(ProposalState::Succeeded)
        } else {
            Ok(ProposalState::Defeated)
        }
    }

    /// The block at which the vote on a proposal starts; `ProposalNotFound` where there is none.
    pub fn proposal_snapshot(&self, proposal_id: ProposalId) -> (r: Result<BlockNumber, GovernorError>)
        requires
            self.wf(),
        ensures
            match self.proposal_of(proposal_id) {
                Some(p) => r == Ok::<BlockNumber, GovernorError>(p.vote_start),
                None => r == Err::<BlockNumber, GovernorError>(GovernorError::ProposalNotFound),
            },
    {
        match self.core_of(&proposal_id) {
            Some(p) => Ok(p.vote_start),
            None => Err(GovernorError::ProposalNotFound),
        }
    }

    /// The block at which the vote on a proposal ends; `ProposalNotFound` where there is none.
    pub fn proposal_deadline(&self, proposal_id: ProposalId) -> (r: Result<BlockNumber, GovernorError>)
        requires
            self.wf(),
        ensures
            match self.proposal_of(proposal_id) {
                Some(p) => r == Ok::<BlockNumber, GovernorError>(p.vote_end),
                None => r == Err::<BlockNumber, GovernorError>(GovernorError::ProposalNotFound),
            },
    {
        match self.core_of(&proposal_id) {
            Some(p) => Ok(p.vote_end),
            None => Err(GovernorError::ProposalNotFound),
        }
    }

    /// The description of the vote options for user interfaces: none is given.
    pub fn counting_mode(&self) -> (r: String)
        ensures
            r@.len() == 0,
    {
        String::new()
    }

    /// The number of blocks from a proposal to the start of its vote.
    pub fn voting_delay(&self) -> (r: BlockNumber)
        ensures
            r == self.settings.voting_delay,
    {
        self.settings.voting_delay
    }

    /// The number of blocks that a vote lasts.
    pub fn voting_period(&self) -> (r: BlockNumber)
        ensures
            r == self.settings.voting_period,
    {
        self.settings.voting_period
    }

    /// The voting power that a proposer must exceed.
    pub fn proposal_threshold(&self) -> (r: u64)
        ensures
            r == self.settings.proposal_threshold,
    {
        self.settings.proposal_threshold
    }

    /// The address through which the governor executes actions.
    pub fn _executor(&self) -> (r: AccountId)
        ensures
            r == self.executor,
    {
        self.executor
    }

    /// Fails `OnlyGovernance` unless the caller is the executor.
    pub fn only_governance(&self, caller: AccountId) -> (r: Result<(), GovernorError>)
        ensures
            caller == self.executor ==> r is Ok,
            caller != self.executor ==> r == Err::<(), GovernorError>(GovernorError::OnlyGovernance),
    {
        if caller.same(&self.executor) {
            Ok(())
        } else {
            Err(GovernorError::OnlyGovernance)
        }
    }

    /// The voting power of `account` at a block; `NoVotes` where the source has none.
    pub fn get_votes(&self, account: AccountId, block_number: BlockNumber) -> (r: Result<u64, GovernorError>)
        requires
            self.wf(),
        ensures
            match self.voting_module.votes_at(account, block_number, Seq::empty()) {
                Some(w) => r == Ok::<u64, GovernorError>(w),
                None => r == Err::<u64, GovernorError>(GovernorError::NoVotes),
            },
    {
        let params: Vec<u8> = Vec::new();
        assert(params@ =~= Seq::<u8>::empty());
        self._get_votes(&account, block_number, params.as_slice())
    }

    /// The voting power of `account` at a block for a vote described by `params`;
    /// `NoVotes` where the source has none.
    pub fn get_votes_with_params(&self, account: AccountId, block_number: BlockNumber, params: Vec<u8>) -> (r:
        Result<u64, GovernorError>)
        requires
            self.wf(),
        ensures
            match self.voting_module.votes_at(account, block_number, params@) {
                Some(w) => r == Ok::<u64, GovernorError>(w),
                None => r == Err::<u64, GovernorError>(GovernorError::NoVotes),
            },
    {
        self._get_votes(&account, block_number, params.as_slice())
    }

    fn _get_votes(&self, account: &AccountId, block_number: BlockNumber, params: &[u8]) -> (r: Result<
        u64,
        GovernorError,
    >)
        requires
            self.wf(),
        ensures
            match self.voting_module.votes_at(*account, block_number, params@) {
                Some(w) => r == Ok::<u64, GovernorError>(w),
                None => r == Err::<u64, GovernorError>(GovernorError::NoVotes),
            },
    {
        match self.voting_module._get_votes(account, block_number, params) {
            Some(w) => Ok(w),
            None => Err(GovernorError::NoVotes),
        }
    }
}

/// The governor error that a counting error stands for.
pub open spec fn governor_error_of(e: CountingError) -> GovernorError {
    match e {
        CountingError::Custom(s) => GovernorError::Custom(s),
        CountingError::GovernorError(g) => g,
        CountingError::VoteAlreadyCast => GovernorError::VoteAlreadyCast,
        CountingError::InvalidVoteType => GovernorError::InvalidVoteType,
        CountingError::VoteOverflow => GovernorError::VoteOverflow,
    }
}

impl<C: Counter, V: Voter> Data<C, V> {
    /// Creates a proposal on behalf of `caller` at block `now`. Fails `NoVotes`
    /// where the voting-power source has no weight for the caller at the block
    /// before `now`, `BelowThreshold` where that weight does not exceed the
    /// threshold, `ProposalAlreadyExist` where the id is taken,
    /// `BlockNumberOverflow` where the end of the vote would not fit in a block
    /// number. Else the vote starts after the voting delay and lasts the voting
    /// period. The input of the proposal is bounded by its SCALE encoding.
    pub fn propose(&mut self, proposal: Proposal, description: Vec<u8>, caller: AccountId, now: BlockNumber) -> (r:
        Result<ProposalId, GovernorError>)
        requires
            old(self).wf(),
            proposal.input@.len() <= u32::MAX,
        ensures
            final(self).wf(),
            ({
                let id = proposal_id_of(proposal, description_hash_of(description@));
                let snapshot = if now == 0 { 0 } else { (now - 1) as u32 };
                match old(self).voting_module.votes_at(caller, snapshot, Seq::empty()) {
                    None => r == Err::<ProposalId, GovernorError>(GovernorError::NoVotes) && *final(self) == *old(self),
                    Some(w) => if w <= old(self).settings.proposal_threshold {
                        r == Err::<ProposalId, GovernorError>(GovernorError::BelowThreshold)
                            && *final(self) == *old(self)
                    } else if old(self).proposal_of(id) is Some {
                        r == Err::<ProposalId, GovernorError>(GovernorError::ProposalAlreadyExist)
                            && *final(self) == *old(self)
                    } else if now + old(self).settings.voting_delay + old(self).settings.voting_period
                        > u32::MAX {
                        r == Err::<ProposalId, GovernorError>(GovernorError::BlockNumberOverflow)
                            && *final(self) == *old(self)
                    } else {
                        &&& r == Ok::<ProposalId, GovernorError>(id)
                        &&& final(self).proposal_of(id) == Some(
                            ProposalCore {
                                vote_start: (now + old(self).settings.voting_delay) as u32,
                                vote_end: (now + old(self).settings.voting_delay
                                    + old(self).settings.voting_period) as u32,
                                executed: false,
                                canceled: false,
                            },
                        )
                        &&& forall|other: ProposalId|
                            other != id ==> #[trigger] final(self).proposal_of(other) == old(self).proposal_of(other)
                        &&& final(self).counting_module == old(self).counting_module
                        &&& final(self).voting_module == old(self).voting_module
                        &&& final(self).settings == old(self).settings
                        &&& final(self).governance_call == old(self).governance_call
                        &&& final(self).executor == old(self).executor
                    },
                }
            }),
    {
        let snapshot = now.saturating_sub(1);
        let weight = match self.get_votes(caller, snapshot) {
            Ok(w) => w,
            Err(e) => return Err(e),
        };
        if weight <= self.settings.proposal_threshold {
            return Err(GovernorError::BelowThreshold);
        }
        let description_hash = hash_description(&description);
        let proposal_id = hash_proposal(&proposal, &description_hash);
        if self.core_of(&proposal_id).is_some() {
            return Err(GovernorError::ProposalAlreadyExist);
        }
        if now as u64 + self.settings.voting_delay as u64 + self.settings.voting_period as u64
            > u32::MAX as u64 {
            return Err(GovernorError::BlockNumberOverflow);
        }
        let vote_start = now + self.settings.voting_delay;
        let vote_end = vote_start + self.settings.voting_period;
        let core = ProposalCore { vote_start, vote_end, executed: false, canceled: false };
        self.store_core(&proposal_id, core);
        Ok(proposal_id)
    }

    /// Casts the vote of `caller` on a proposal at block `now`; returns its weight.
    pub fn cast_vote(&mut self, proposal_id: ProposalId, support: u8, caller: AccountId, now: BlockNumber) -> (r:
        Result<u64, GovernorError>)
        requires
            old(self).wf(),
        ensures
            final(self).wf(),
            old(self).voted(proposal_id, caller, support, Seq::empty(), now, *final(self), r),
    {
        let params: Vec<u8> = Vec::new();
        assert(params@ =~= Seq::<u8>::empty());
        let reason: Vec<u8> = Vec::new();
        self._cast_vote_with_params(&proposal_id, &caller, support, &reason, params.as_slice(), now)
    }

    /// Casts a vote with a reason, for the record of the host.
    pub fn cast_vote_with_reason(
        &mut self,
        proposal_id: ProposalId,
        support: u8,
        reason: Vec<u8>,
        caller: AccountId,
        now: BlockNumber,
    ) -> (r: Result<u64, GovernorError>)
        requires
            old(self).wf(),
        ensures
            final(self).wf(),
            old(self).voted(proposal_id, caller, support, Seq::empty(), now, *final(self), r),
    {
        let params: Vec<u8> = Vec::new();
        assert(params@ =~= Seq::<u8>::empty());
        self._cast_vote_with_params(&proposal_id, &caller, support, &reason, params.as_slice(), now)
    }

    /// Casts a vote with a reason and parameters for the voting-power source.
    pub fn cast_vote_with_reason_and_params(
        &mut self,
        proposal_id: ProposalId,
        support: u8,
        reason: Vec<u8>,
        params: Vec<u8>,
        caller: AccountId,
        now: BlockNumber,
    ) -> (r: Result<u64, GovernorError>)
        requires
            old(self).wf(),
        ensures
            final(self).wf(),
            old(self).voted(proposal_id, caller, support, params@, now, *final(self), r),
    {
        self._cast_vote_with_params(&proposal_id, &caller, support, &reason, params.as_slice(), now)
    }

    /// How a vote relates the governor before and after it, and what it returns:
    /// the error of `cast_vote_error` with nothing changed, or the weight of the
    /// account at the proposal's snapshot block, counted by the counting module.
    pub open spec fn voted(
        &self,
        proposal_id: ProposalId,
        account: AccountId,
        support: u8,
        params: Seq<u8>,
        now: BlockNumber,
        next: Self,
        r: Result<u64, GovernorError>,
    ) -> bool {
        match self.cast_vote_error(proposal_id, account, support, params, now) {
            Some(e) => r == Err::<u64, GovernorError>(e) && next == *self,
            None => {
                let w = self.voting_module.votes_at(account, self.proposal_of(proposal_id)->0.vote_start, params)->0;
                &&& r == Ok::<u64, GovernorError>(w)
                &&& self.counting_module.counted(next.counting_module, proposal_id, account, support, w)
                &&& next.counting_module.has_voted_spec(proposal_id, account)
                &&& next.proposals == self.proposals
                &&& next.voting_module == self.voting_module
                &&& next.settings == self.settings
                &&& next.governance_call == self.governance_call
                &&& next.account_id == self.account_id
                &&& next.executor == self.executor
            },
        }
    }

    fn _cast_vote_with_params(
        &mut self,
        proposal_id: &ProposalId,
        account: &AccountId,
        support: u8,
        reason: &Vec<u8>,
        params: &[u8],
        now: BlockNumber,
    ) -> (r: Result<u64, GovernorError>)
        requires
            old(self).wf(),
        ensures
            final(self).wf(),
            old(self).voted(*proposal_id, *account, support, params@, now, *final(self), r),
    {
        let core = match self.core_of(proposal_id) {
            Some(p) => p,
            None => return Err(GovernorError::ProposalNotFound),
        };
        let weight = match self._get_votes(account, core.vote_start, params) {
            Ok(w) => w,
            Err(e) => return Err(e),
        };
        match self.state(*proposal_id, now) {
            Ok(ProposalState::Active) => {},
            _ => return Err(GovernorError::ProposalNotActive),
        }
        match self.counting_module._count_vote(proposal_id, account, support, weight, params) {
            Ok(()) => Ok(weight),
            Err(e) => Err(GovernorError::from(e)),
        }
    }

    /// First step of an execution, before the outside call: recomputes the id,
    /// requires the proposal to have succeeded (`ProposalNotSuccessful`
    /// otherwise), and, where the executor is not the governor itself, allows
    /// the proposal's selector to pass the governance check during the call.
    pub fn begin_execute(&mut self, proposal: &Proposal, description_hash: Hash256, now: BlockNumber) -> (r: Result<
        ProposalId,
        GovernorError,
    >)
        requires
            old(self).wf(),
            proposal.input@.len() <= u32::MAX,
        ensures
            final(self).wf(),
            ({
                let id = proposal_id_of(*proposal, description_hash);
                match old(self).state_at(id, now) {
                    Err(e) => r == Err::<ProposalId, GovernorError>(e) && *final(self) == *old(self),
                    Ok(s) => if !executable(s) {
                        r == Err::<ProposalId, GovernorError>(GovernorError::ProposalNotSuccessful)
                            && *final(self) == *old(self)
                    } else {
                        &&& r == Ok::<ProposalId, GovernorError>(id)
                        &&& final(self).governance_call@ == if old(self).executor != old(self).account_id {
                            old(self).governance_call@.push(proposal.selector)
                        } else {
                            old(self).governance_call@
                        }
                        &&& final(self).proposals == old(self).proposals
                        &&& final(self).counting_module == old(self).counting_module
                        &&& final(self).voting_module == old(self).voting_module
                        &&& final(self).settings == old(self).settings
                        &&& final(self).account_id == old(self).account_id
                        &&& final(self).executor == old(self).executor
                    },
                }
            }),
    {
        let proposal_id = hash_proposal(proposal, &description_hash);
        let status = match self.state(proposal_id, now) {
            Ok(s) => s,
            Err(e) => return Err(e),
        };
        match status {
            ProposalState::Succeeded | ProposalState::Queued => {},
            _ => return Err(GovernorError::ProposalNotSuccessful),
        }
        self._before_execute(proposal);
        Ok(proposal_id)
    }

    /// Second step of an execution, after the outside call: the allowance of
    /// `begin_execute` is withdrawn whatever the outcome; a failed call is
    /// `CallRevertedWithoutMessage`; else the proposal is marked executed.
    pub fn finish_execute(&mut self, proposal_id: ProposalId, call_succeeded: bool) -> (r: Result<
        ProposalId,
        GovernorError,
    >)
        requires
            old(self).wf(),
        ensures
            final(self).wf(),
            final(self).governance_call@.len() == 0,
            final(self).counting_module == old(self).counting_module,
            final(self).voting_module == old(self).voting_module,
            final(self).settings == old(self).settings,
            final(self).executor == old(self).executor,
            !call_succeeded ==> r == Err::<ProposalId, GovernorError>(GovernorError::CallRevertedWithoutMessage)
                && final(self).proposals == old(self).proposals,
            call_succeeded && old(self).proposal_of(proposal_id) is None ==> r == Err::<ProposalId, GovernorError>(
                GovernorError::ProposalNotFound,
            ) && final(self).proposals == old(self).proposals,
            call_succeeded && old(self).proposal_of(proposal_id) is Some ==> {
                &&& r == Ok::<ProposalId, GovernorError>(proposal_id)
                &&& final(self).proposal_of(proposal_id) == Some(
                    ProposalCore { executed: true, ..old(self).proposal_of(proposal_id)->0 },
                )
                &&& forall|other: ProposalId|
                    other != proposal_id ==> #[trigger] final(self).proposal_of(other) == old(self).proposal_of(other)
            },
    {
        self._after_execute();
        if !call_succeeded {
            return Err(GovernorError::CallRevertedWithoutMessage);
        }
        let mut core = match self.core_of(&proposal_id) {
            Some(p) => p,
            None => return Err(GovernorError::ProposalNotFound),
        };
        proof {
            self.lemma_core_ordered(proposal_id);
        }
        core.executed = true;
        self.store_core(&proposal_id, core);
        Ok(proposal_id)
    }

    /// Allows the proposal's selector through the governance check where the
    /// executor is not the governor itself.
    fn _before_execute(&mut self, proposal: &Proposal)
        ensures
            final(self).governance_call@ == if old(self).executor != old(self).account_id {
                old(self).governance_call@.push(proposal.selector)
            } else {
                old(self).governance_call@
            },
            final(self).proposals == old(self).proposals,
            final(self).counting_module == old(self).counting_module,
            final(self).voting_module == old(self).voting_module,
            final(self).settings == old(self).settings,
            final(self).account_id == old(self).account_id,
            final(self).executor == old(self).executor,
    {
        if !self.executor.same(&self.account_id) {
            self.governance_call.push(proposal.selector);
        }
    }

    /// Withdraws every allowance of the governance check.
    fn _after_execute(&mut self)
        ensures
            final(self).governance_call@.len() == 0,
            final(self).proposals == old(self).proposals,
            final(self).counting_module == old(self).counting_module,
            final(self).voting_module == old(self).voting_module,
            final(self).settings == old(self).settings,
            final(self).account_id == old(self).account_id,
            final(self).executor == old(self).executor,
    {
        self.governance_call.clear();
    }

    /// Cancels a proposal at block `now`: fails where it is not found, and
    /// `ProposalNotActive` where it is canceled, expired or executed already.
    pub fn _cancel(&mut self, proposal: &Proposal, description_hash: &Hash256, now: BlockNumber) -> (r: Result<
        ProposalId,
        GovernorError,
    >)
        requires
            old(self).wf(),
            proposal.input@.len() <= u32::MAX,
        ensures
            final(self).wf(),
            ({
                let id = proposal_id_of(*proposal, *description_hash);
                match old(self).state_at(id, now) {
                    Err(e) => r == Err::<ProposalId, GovernorError>(e) && *final(self) == *old(self),
                    Ok(s) => if !cancelable(s) {
                        r == Err::<ProposalId, GovernorError>(GovernorError::ProposalNotActive)
                            && *final(self) == *old(self)
                    } else {
                        &&& r == Ok::<ProposalId, GovernorError>(id)
                        &&& final(self).proposal_of(id) == Some(
                            ProposalCore { canceled: true, ..old(self).proposal_of(id)->0 },
                        )
                        &&& forall|other: ProposalId|
                            other != id ==> #[trigger] final(self).proposal_of(other) == old(self).proposal_of(other)
                        &&& final(self).counting_module == old(self).counting_module
                        &&& final(self).voting_module == old(self).voting_module
                        &&& final(self).governance_call == old(self).governance_call
                        &&& final(self).settings == old(self).settings
                    },
                }
            }),
    {
        let proposal_id = hash_proposal(proposal, description_hash);
        let status = match self.state(proposal_id, now) {
            Ok(s) => s,
            Err(e) => return Err(e),
        };
        let mut core = match self.core_of(&proposal_id) {
            Some(p) => p,
            None => return Err(GovernorError::ProposalNotFound),
        };
        match status {
            ProposalState::Canceled | ProposalState::Expired | ProposalState::Executed => {
                return Err(GovernorError::ProposalNotActive);
            },
            _ => {},
        }
        proof {
            self.lemma_core_ordered(proposal_id);
        }
        core.canceled = true;
        self.store_core(&proposal_id, core);
        Ok(proposal_id)
    }
}

/// An executed or canceled proposal keeps its state at every later (or
/// earlier) block: time moves only the other states.
pub proof fn lemma_terminal_states_sticky<C: Counter, V: Voter>(
    g: Data<C, V>,
    proposal_id: ProposalId,
    t1: BlockNumber,
    t2: BlockNumber,
)
    requires
        g.state_at(proposal_id, t1) == Ok::<ProposalState, GovernorError>(ProposalState::Executed)
            || g.state_at(proposal_id, t1) == Ok::<ProposalState, GovernorError>(ProposalState::Canceled),
    ensures
        g.state_at(proposal_id, t2) == g.state_at(proposal_id, t1),
{
}

/// Before its vote starts a live proposal is pending, up to its deadline
/// (inclusive) active, and after it succeeded exactly where quorum is reached
/// and the vote succeeded, else defeated.
pub proof fn lemma_state_by_time<C: Counter, V: Voter>(g: Data<C, V>, proposal_id: ProposalId, now: BlockNumber)
    requires
        g.wf(),
        g.proposal_of(proposal_id) matches Some(p) && !p.executed && !p.canceled,
    ensures
        ({
            let p = g.proposal_of(proposal_id)->0;
            &&& now <= p.vote_start ==> g.state_at(proposal_id, now) == Ok::<ProposalState, GovernorError>(
                ProposalState::Pending,
            )
            &&& p.vote_start < now <= p.vote_end ==> g.state_at(proposal_id, now) == Ok::<
                ProposalState,
                GovernorError,
            >(ProposalState::Active)
            &&& p.vote_end < now ==> g.state_at(proposal_id, now) == Ok::<
                ProposalState,
                GovernorError,
            >(
                if g.counting_module.quorum_reached_spec(proposal_id) && g.counting_module.vote_succeeded_spec(
                    proposal_id,
                ) {
                    ProposalState::Succeeded
                } else {
                    ProposalState::Defeated
                },
            )
        }),
{
    g.lemma_core_ordered(proposal_id);
}

/// An account that voted on a proposal cannot vote on it again: wherever the
/// proposal is found, the account has weight and the vote is active, a second
/// vote fails `VoteAlreadyCast`, and it fails in any case.
pub proof fn lemma_vote_at_most_once<C: Counter, V: Voter>(
    g: Data<C, V>,
    proposal_id: ProposalId,
    account: AccountId,
    support: u8,
    params: Seq<u8>,
    now: BlockNumber,
)
    requires
        g.counting_module.has_voted_spec(proposal_id, account),
    ensures
        g.cast_vote_error(proposal_id, account, support, params, now) is Some,
        g.proposal_of(proposal_id) is Some && g.voting_module.votes_at(
            account,
            g.proposal_of(proposal_id)->0.vote_start,
            params,
        ) is Some && g.state_at(proposal_id, now) == Ok::<ProposalState, GovernorError>(ProposalState::Active)
            ==> g.cast_vote_error(proposal_id, account, support, params, now) == Some(
            GovernorError::VoteAlreadyCast,
        ),
{
    if let Some(p) = g.proposal_of(proposal_id) {
        if let Some(w) = g.voting_module.votes_at(account, p.vote_start, params) {
            g.counting_module.lemma_voted_rejects(proposal_id, account, support, w);
        }
    }
}

} // verus!
