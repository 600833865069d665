//! Settings of the governor that only governance may change.

use vstd::prelude::*;
use crate::counting::Counter;
use crate::errors::GovernorError;
use crate::governor::Data as Governor;
use crate::types::{AccountId, BlockNumber};
use crate::voter::Voter;

verus! {

/// Voting delay, voting period and proposal threshold.
#[derive(Clone, Copy, Debug, PartialEq, Eq, Structural)]
pub struct Data {
    /// The number of blocks from a proposal to the start of its vote.
    pub voting_delay: BlockNumber,
    /// The number of blocks that a vote lasts.
    pub voting_period: BlockNumber,
    /// The voting power that a proposer must exceed.
    pub proposal_threshold: u64,
}

impl Data {
    /// Settings with the given values.
    pub fn _init_with_settings(voting_delay: BlockNumber, voting_period: BlockNumber, proposal_threshold: u64) -> (r: Data)
        ensures
            r.voting_delay == voting_delay,
            r.voting_period == voting_period,
            r.proposal_threshold == proposal_threshold,
    {
        Data { voting_delay, voting_period, proposal_threshold }
    }
}

impl Data {
    /// Sets the voting delay.
    pub fn _set_voting_delay(&mut self, new_voting_delay: BlockNumber)
        ensures
            *final(self) == (Data { voting_delay: new_voting_delay, ..*old(self) }),
    {
        self.voting_delay = new_voting_delay;
    }

    /// Sets the voting period.
    pub fn _set_voting_period(&mut self, new_voting_period: BlockNumber)
        ensures
            *final(self) == (Data { voting_period: new_voting_period, ..*old(self) }),
    {
        self.voting_period = new_voting_period;
    }

    /// Sets the proposal threshold.
    pub fn _set_proposal_threshold(&mut self, new_proposal_threshold: u64)
        ensures
            *final(self) == (Data { proposal_threshold: new_proposal_threshold, ..*old(self) }),
    {
        self.proposal_threshold = new_proposal_threshold;
    }
}

impl<C: Counter, V: Voter> Governor<C, V> {
    /// Sets the voting delay; only the executor may (`OnlyGovernance`).
    pub fn set_voting_delay(&mut self, caller: AccountId, new_voting_delay: BlockNumber) -> (r: Result<
        (),
        GovernorError,
    >)
        ensures
            caller != old(self).executor ==> r == Err::<(), GovernorError>(GovernorError::OnlyGovernance)
                && *final(self) == *old(self),
            caller == old(self).executor ==> r is Ok && *final(self) == (Governor {
                settings: Data { voting_delay: new_voting_delay, ..old(self).settings },
                ..*old(self)
            }),
    {
        match self.only_governance(caller) {
            Ok(()) => {},
            Err(e) => return Err(e),
        }
        self.settings._set_voting_delay(new_voting_delay);
        Ok(())
    }

    /// Sets the voting period; only the executor may (`OnlyGovernance`).
    pub fn set_voting_period(&mut self, caller: AccountId, new_voting_period: BlockNumber) -> (r: Result<
        (),
        GovernorError,
    >)
        ensures
            caller != old(self).executor ==> r == Err::<(), GovernorError>(GovernorError::OnlyGovernance)
                && *final(self) == *old(self),
            caller == old(self).executor ==> r is Ok && *final(self) == (Governor {
                settings: Data { voting_period: new_voting_period, ..old(self).settings },
                ..*old(self)
            }),
    {
        match self.only_governance(caller) {
            Ok(()) => {},
            Err(e) => return Err(e),
        }
        self.settings._set_voting_period(new_voting_period);
        Ok(())
    }

    /// Sets the proposal threshold; only the executor may (`OnlyGovernance`).
    pub fn set_proposal_threshold(&mut self, caller: AccountId, new_proposal_threshold: u64) -> (r: Result<
        (),
        GovernorError,
    >)
        ensures
            caller != old(self).executor ==> r == Err::<(), GovernorError>(GovernorError::OnlyGovernance)
                && *final(self) == *old(self),
            caller == old(self).executor ==> r is Ok && *final(self) == (Governor {
                settings: Data { proposal_threshold: new_proposal_threshold, ..old(self).settings },
                ..*old(self)
            }),
    {
        match self.only_governance(caller) {
            Ok(()) => {},
            Err(e) => return Err(e),
        }
        self.settings._set_proposal_threshold(new_proposal_threshold);
        Ok(())
    }
}

} // verus!
