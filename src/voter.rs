//! The voting-power source: the weight of an account at a block.

use vstd::prelude::*;
use crate::types::{AccountId, BlockNumber};

verus! {

/// A source of voting power.
pub trait Voter {
    /// The source's own invariant.
    spec fn voter_wf(&self) -> bool;

    /// The weight of `account` at `block_number` for a vote described by `params`,
    /// or `None` where the source has none for it.
    spec fn votes_at(&self, account: AccountId, block_number: BlockNumber, params: Seq<u8>) -> Option<u64>;

    fn _get_votes(&self, account: &AccountId, block_number: BlockNumber, params: &[u8]) -> (r: Option<u64>)
        requires
            self.voter_wf(),
        ensures
            r == self.votes_at(*account, block_number, params@),
    ;
}

} // verus!
