//! The engine's records: the owner group, the pending action, and the
//! values exchanged with the host around an approval.

use vstd::prelude::*;

use crate::model::count_true;

verus! {

/// A principal address: 32 bytes, carried as four 64-bit words. The
/// host authenticates callers and hands the engine their identities;
/// the engine only ever compares identities for equality, it never
/// inspects or verifies them.
#[derive(Clone, Copy, PartialEq, Eq, Structural, Debug)]
pub struct Identity {
    pub w0: u64,
    pub w1: u64,
    pub w2: u64,
    pub w3: u64,
}

/// Why an operation was refused.
#[derive(Clone, Copy, PartialEq, Eq, Structural, Debug)]
pub enum ErrorCode {
    /// The given owner is not part of this multisig.
    InvalidOwner,
    /// Not enough owners signed this transaction. Reserved: the
    /// under-threshold path reports success without execution instead.
    NotEnoughSigners,
    /// The given transaction has already been executed.
    AlreadyExecuted,
    /// Threshold must be at least one and no more than the number of
    /// owners.
    InvalidThreshold,
    /// The parallel step descriptions disagree in length.
    ParamLength,
}

/// One account touched by a step, as stored in a proposal.
#[derive(Clone, Copy, PartialEq, Eq, Structural, Debug)]
pub struct TransactionAccount {
    pub pubkey: Identity,
    pub is_signer: bool,
    pub is_writable: bool,
}

/// One account reference of a materialized instruction, as handed to
/// the host for execution.
#[derive(Clone, Copy, PartialEq, Eq, Structural, Debug)]
pub struct AccountMeta {
    pub pubkey: Identity,
    pub is_signer: bool,
    pub is_writable: bool,
}

/// One concrete invocation, ready for the host to dispatch.
#[derive(Clone, Debug)]
pub struct Instruction {
    pub program_id: Identity,
    pub accounts: Vec<AccountMeta>,
    pub data: Vec<u8>,
}

/// The owner group: who may approve, and how many approvals execution
/// requires. Immutable once registered.
#[derive(Clone, Debug)]
pub struct Multisig {
    /// The owner identities, in the order that indexes every approval
    /// bitmap of the group's proposals. This order never changes.
    pub owners: Vec<Identity>,
    /// How many distinct owner approvals execution requires.
    pub threshold: u64,
    /// The seed with which the host derives the group's signing
    /// identity.
    pub nonce: u8,
}

impl Multisig {
    /// A registered group's threshold is at least one and no more than
    /// the number of owners.
    pub open spec fn wf(self) -> bool {
        0 < self.threshold <= self.owners@.len()
    }
}

/// A pending or executed action proposal: the steps, the per-owner
/// approval bitmap, and the one-time execution flag.
#[derive(Clone, Debug)]
pub struct Transaction {
    /// The identity of the owner group this proposal belongs to; never
    /// reassigned.
    pub multisig: Identity,
    /// Per step, the identity of the program to invoke.
    pub program_id: Vec<Identity>,
    /// Per step, the accounts the invocation touches.
    pub accounts: Vec<Vec<TransactionAccount>>,
    /// Per step, the opaque instruction payload.
    pub data: Vec<Vec<u8>>,
    /// `signers[i]` is true iff the group's `owners[i]` has approved.
    pub signers: Vec<bool>,
    /// True once the steps have been handed to the executor; never
    /// reset.
    pub did_execute: bool,
}

impl Transaction {
    /// The three parallel step sequences agree in length.
    pub open spec fn steps_wf(self) -> bool {
        &&& self.program_id@.len() == self.accounts@.len()
        &&& self.program_id@.len() == self.data@.len()
    }

    /// The proposal is well formed for its group: the bitmap indexes
    /// the group's owners one to one, and an executed proposal reached
    /// the group's threshold.
    pub open spec fn wf_for(self, group: Multisig) -> bool {
        &&& self.steps_wf()
        &&& self.signers@.len() == group.owners@.len()
        &&& (self.did_execute ==> count_true(self.signers@) >= group.threshold)
    }
}

/// What an accepted approval asks the host to do next.
#[derive(Clone, Debug)]
pub enum ApproveOutcome {
    /// The approval was recorded but the threshold is not reached yet;
    /// nothing is to be executed.
    Deferred,
    /// The threshold is reached: run these instructions, in order, with
    /// the group's signing identity asserted, then record the execution
    /// with [`crate::engine::mark_executed`].
    Execute(Vec<Instruction>),
}

} // verus!
