//! Laws of the engine, stated over the model that the operations'
//! contracts speak of and proved once and for all.

use vstd::prelude::*;

use crate::model::approve_executes;
use crate::model::count_true;
use crate::model::lemma_contains_first_index;
use crate::model::lemma_count_true_update;
use crate::model::signers_after;
use crate::types::Identity;
use crate::types::Multisig;
use crate::types::Transaction;

verus! {

/// Idempotence: recording the same owner's approval twice leaves the
/// same bitmap as recording it once.
pub proof fn lemma_approve_idempotent(s: Seq<bool>, owners: Seq<Identity>, owner: Identity)
    requires
        owners.contains(owner),
        s.len() == owners.len(),
    ensures
        signers_after(signers_after(s, owners, owner), owners, owner) == signers_after(
            s,
            owners,
            owner,
        ),
{
    lemma_contains_first_index(owners, owner);
    assert(signers_after(signers_after(s, owners, owner), owners, owner) =~= signers_after(
        s,
        owners,
        owner,
    ));
}

/// Monotonicity of the bitmap: recording an approval never clears a
/// bit.
pub proof fn lemma_approve_monotone(s: Seq<bool>, owners: Seq<Identity>, owner: Identity)
    requires
        owners.contains(owner),
        s.len() == owners.len(),
    ensures
        forall|i: int| 0 <= i < s.len() && s[i] ==> signers_after(s, owners, owner)[i],
        count_true(signers_after(s, owners, owner)) >= count_true(s),
{
    lemma_contains_first_index(owners, owner);
    lemma_count_true_update(s, crate::model::first_index_of(owners, owner));
}

/// Exactly-once execution: once a completed execution is recorded — the
/// `did_execute` flag is set, and no operation of the engine ever clears
/// it — no approval call by any owner hands the step batch to the
/// executor again. Until an execution completes, a batch whose
/// invocation failed may be handed back for a retry.
pub proof fn lemma_execute_at_most_once(group: Multisig, tx: Transaction, owner: Identity)
    requires
        tx.did_execute,
    ensures
        !approve_executes(group, tx, owner),
{
}

} // verus!
