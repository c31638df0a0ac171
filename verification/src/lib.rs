//! A threshold-authorization engine: a group of owners collectively
//! controls execution of arbitrary multi-step actions. A proposal
//! gathers owner approvals; once the group's threshold is reached the
//! proposal's steps are materialized into concrete instructions for the
//! host to run, exactly once.
//!
//! The engine itself is a pure state machine over two records, the
//! owner group ([`Multisig`]) and the pending action ([`Transaction`]).
//! Signature verification, account storage and the actual dispatch of
//! the materialized instructions are the host's concern: the engine is
//! handed plain identities that the host has already authenticated, and
//! hands back the instructions it wants run.

pub mod engine;
pub mod laws;
pub mod model;
pub mod types;

pub use engine::approval_count;
pub use engine::approve;
pub use engine::create_multisig;
pub use engine::create_transaction;
pub use engine::find_owner_index;
pub use engine::mark_executed;
pub use types::AccountMeta;
pub use types::ApproveOutcome;
pub use types::ErrorCode;
pub use types::Identity;
pub use types::Instruction;
pub use types::Multisig;
pub use types::Transaction;
pub use types::TransactionAccount;
