//! On-chain governance: proposal lifecycle, vote counting, and a checkpointed
//! ledger of voting power with delegation.
//!
//! The host environment (block number, caller, cross-contract calls, events)
//! stays outside: every operation takes the values it needs from it as
//! arguments, and `governor::Data::begin_execute` and
//! `governor::Data::finish_execute` bracket the outside call that executes a
//! proposal.

pub mod types;
pub mod table;
pub mod errors;
pub mod hashing;
pub mod counting;
pub mod voter;
pub mod votes;
pub mod voting_group;
pub mod governor_settings;
pub mod governor;
