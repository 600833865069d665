//! Error types, one per component.

use vstd::prelude::*;
use crate::types::AccountId;

verus! {

/// Errors of the governor.
#[derive(Clone, Debug, PartialEq, Eq)]
pub enum GovernorError {
    /// Custom error type for cases if writer of traits added own restrictions
    Custom(String),
    /// The proposal was not found.
    ProposalNotFound,
    /// The proposal submitted has invalid parameters.
    InvalidProposalLength,
    /// Neither a selector nor a description was given.
    EmptyProposal,
    /// A proposal with the same id exists already.
    ProposalAlreadyExist,
    /// The proposer's voting power does not exceed the proposal threshold.
    BelowThreshold,
    /// The proposal has not succeeded.
    ProposalNotSuccessful,
    /// The outside call of an execution failed.
    CallRevertedWithoutMessage,
    /// The proposal is not active (or, for a cancel, cannot be canceled).
    ProposalNotActive,
    /// The caller is not the executor.
    OnlyGovernance,
    /// The voting-power source has no weight for the account.
    NoVotes,
    /// The account voted on the proposal already.
    VoteAlreadyCast,
    /// The support value names no vote type of the counting module.
    InvalidVoteType,
    /// A tally would exceed the largest vote weight.
    VoteOverflow,
    /// The end of a vote would lie beyond the largest block number.
    BlockNumberOverflow,
}

/// Errors of a counting module.
#[derive(Clone, Debug, PartialEq, Eq)]
pub enum CountingError {
    /// Custom error type for cases if writer of traits added own restrictions
    Custom(String),
    /// Error from Governor
    GovernorError(GovernorError),
    /// The account voted on the proposal already.
    VoteAlreadyCast,
    /// The support value names no vote type.
    InvalidVoteType,
    /// A tally would exceed the largest vote weight.
    VoteOverflow,
}

/// Errors of the simple counting module's queries.
#[derive(Clone, Debug, PartialEq, Eq)]
pub enum CountingSimpleError {
    /// Custom error type for cases if writer of traits added own restrictions
    Custom(String),
    /// Error from Governor
    GovernorError(GovernorError),
    /// No vote of the account was found for the proposal.
    NoResult,
    /// No votes were recorded for the proposal.
    NoProposal,
}

/// Errors of the votes ledger.
#[derive(Clone, Debug, PartialEq, Eq)]
pub enum VotesError {
    /// Custom error type for cases if writer of traits added own restrictions
    Custom(String),
    /// The block is not mined yet.
    NotMinedBlock,
    /// The account has no checkpoints.
    ZeroCheckpoints,
    /// No checkpoint at that position.
    NoCheckpoint,
    /// The source and destination of a move of voting power are equal.
    MovePowerAccountsError,
    /// The amount of a move of voting power is zero.
    MovePowerAmountError,
    /// An amount, or the weight it leads to, is not representable as a vote.
    BalanceToVoteErr,
}

/// Errors of the token-integrated votes extension.
#[derive(Clone, Debug, PartialEq, Eq)]
pub enum PSP22VotesError {
    /// Custom error type for cases if writer of traits added own restrictions
    Custom(String),
    /// Errors from Votes
    VotesError(VotesError),
    /// A conversion between integer types failed.
    ConvertionError { from: String, to: String },
}

/// Errors of the voting group.
#[derive(Clone, Debug, PartialEq, Eq)]
pub enum VotingGroupError {
    /// Custom error type for cases if writer of traits added own restrictions
    Custom(String),
    /// Error from Governor
    GovernorError(GovernorError),
    /// An account occurs twice in a row of members.
    DuplicatedMember { member: AccountId },
    /// No members were given.
    ZeroMembers,
    /// The account is not a member.
    NoMember,
    /// The caller is neither the executor nor the admin of the group.
    OnlyAdminOrGovernance,
}

impl From<GovernorError> for CountingError {
    fn from(e: GovernorError) -> (r: Self) {
        CountingError::GovernorError(e)
    }
}

impl vstd::std_specs::convert::FromSpecImpl<GovernorError> for CountingError {
    open spec fn obeys_from_spec() -> bool {
        true
    }

    open spec fn from_spec(e: GovernorError) -> Self {
        CountingError::GovernorError(e)
    }
}

impl From<GovernorError> for CountingSimpleError {
    fn from(e: GovernorError) -> (r: Self) {
        CountingSimpleError::GovernorError(e)
    }
}

impl vstd::std_specs::convert::FromSpecImpl<GovernorError> for CountingSimpleError {
    open spec fn obeys_from_spec() -> bool {
        true
    }

    open spec fn from_spec(e: GovernorError) -> Self {
        CountingSimpleError::GovernorError(e)
    }
}

impl From<GovernorError> for VotingGroupError {
    fn from(e: GovernorError) -> (r: Self) {
        VotingGroupError::GovernorError(e)
    }
}

impl vstd::std_specs::convert::FromSpecImpl<GovernorError> for VotingGroupError {
    open spec fn obeys_from_spec() -> bool {
        true
    }

    open spec fn from_spec(e: GovernorError) -> Self {
        VotingGroupError::GovernorError(e)
    }
}

impl From<VotesError> for PSP22VotesError {
    fn from(e: VotesError) -> (r: Self) {
        PSP22VotesError::VotesError(e)
    }
}

impl vstd::std_specs::convert::FromSpecImpl<VotesError> for PSP22VotesError {
    open spec fn obeys_from_spec() -> bool {
        true
    }

    open spec fn from_spec(e: VotesError) -> Self {
        PSP22VotesError::VotesError(e)
    }
}

impl From<CountingError> for GovernorError {
    fn from(e: CountingError) -> (r: Self) {
        match e {
            CountingError::Custom(s) => GovernorError::Custom(s),
            CountingError::GovernorError(g) => g,
            CountingError::VoteAlreadyCast => GovernorError::VoteAlreadyCast,
            CountingError::InvalidVoteType => GovernorError::InvalidVoteType,
            CountingError::VoteOverflow => GovernorError::VoteOverflow,
        }
    }
}

impl vstd::std_specs::convert::FromSpecImpl<CountingError> for GovernorError {
    open spec fn obeys_from_spec() -> bool {
        true
    }

    open spec fn from_spec(e: CountingError) -> Self {
        match e {
            CountingError::Custom(s) => GovernorError::Custom(s),
            CountingError::GovernorError(g) => g,
            CountingError::VoteAlreadyCast => GovernorError::VoteAlreadyCast,
            CountingError::InvalidVoteType => GovernorError::InvalidVoteType,
            CountingError::VoteOverflow => GovernorError::VoteOverflow,
        }
    }
}

} // verus!
