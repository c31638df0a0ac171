//! The three operations of the engine: registering an owner group,
//! proposing an action, and approving it — the last of which, at
//! threshold, materializes the proposal's steps for the host to run.

use vstd::prelude::*;

use crate::model::count_true;
use crate::model::first_index_of;
use crate::model::is_first_index_of;
use crate::model::is_materialized;
use crate::model::lemma_count_true_all_false;
use crate::model::lemma_count_true_bound;
use crate::model::lemma_count_true_update;
use crate::model::lemma_is_first_index_of;
use crate::model::signers_after;
use crate::model::adjusted_meta;
use crate::model::approve_executes;
use crate::types::AccountMeta;
use crate::types::ApproveOutcome;
use crate::types::ErrorCode;
use crate::types::Identity;
use crate::types::Instruction;
use crate::types::Multisig;
use crate::types::Transaction;
use crate::types::TransactionAccount;

verus! {

/// Registers a new owner group. Rejects a threshold of zero or one
/// exceeding the number of owners; otherwise the group is created
/// exactly as given and is well formed.
pub fn create_multisig(owners: Vec<Identity>, threshold: u64, nonce: u8) -> (r: Result<
    Multisig,
    ErrorCode,
>)
    ensures
        (1 <= threshold <= owners@.len()) <==> r is Ok,
        r matches Ok(m) ==> {
            &&& m.owners@ == owners@
            &&& m.threshold == threshold
            &&& m.nonce == nonce
            &&& m.wf()
        },
        r matches Err(e) ==> e == ErrorCode::InvalidThreshold,
{
    if threshold == 0 || threshold > owners.len() as u64 {
        return Err(ErrorCode::InvalidThreshold);
    }
    Ok(Multisig { owners, threshold, nonce })
}

/// Resolves an identity to its position in the owner list: the first
/// matching index, or `None` when the identity is not an owner.
pub fn find_owner_index(owners: &Vec<Identity>, who: Identity) -> (r: Option<usize>)
    ensures
        r matches Some(i) ==> is_first_index_of(owners@, who, i as int) && i as int
            == first_index_of(owners@, who),
        r is None <==> !owners@.contains(who),
{
    let mut k: usize = 0;
    while k < owners.len()
        invariant
            k <= owners@.len(),
            forall|j: int| 0 <= j < k ==> owners@[j] != who,
        decreases owners@.len() - k,
    {
        if owners[k] == who {
            proof {
                lemma_is_first_index_of(owners@, who, k as int);
            }
            return Some(k);
        }
        k += 1;
    }
    None
}

/// Counts the approvals recorded in a bitmap: the number of true bits.
pub fn approval_count(signers: &Vec<bool>) -> (n: usize)
    ensures
        n == count_true(signers@),
{
    let mut n: usize = 0;
    let mut k: usize = 0;
    while k < signers.len()
        invariant
            k <= signers@.len(),
            n <= k,
            n == count_true(signers@.subrange(0, k as int)),
        decreases signers@.len() - k,
    {
        proof {
            assert(signers@.subrange(0, k + 1 as int).drop_last() =~= signers@.subrange(
                0,
                k as int,
            ));
        }
        if signers[k] {
            n += 1;
        }
        k += 1;
    }
    proof {
        assert(signers@.subrange(0, signers@.len() as int) =~= signers@);
    }
    n
}

/// A private, verified copy of a payload byte sequence.
fn copy_bytes(src: &Vec<u8>) -> (r: Vec<u8>)
    ensures
        r@ == src@,
{
    let mut r: Vec<u8> = Vec::new();
    let mut k: usize = 0;
    while k < src.len()
        invariant
            k <= src@.len(),
            r@ == src@.subrange(0, k as int),
        decreases src@.len() - k,
    {
        r.push(src[k]);
        proof {
            assert(src@.subrange(0, k as int).push(src@[k as int]) =~= src@.subrange(
                0,
                k + 1 as int,
            ));
        }
        k += 1;
    }
    proof {
        assert(src@.subrange(0, src@.len() as int) =~= src@);
    }
    r
}

impl TransactionAccount {
    /// The account reference as handed to the executor: the group's
    /// signing identity is asserted as a signer; every other flag
    /// passes through unchanged.
    pub fn to_account_meta(&self, signing_identity: Identity) -> (m: AccountMeta)
        ensures
            m == adjusted_meta(*self, signing_identity),
    {
        AccountMeta {
            pubkey: self.pubkey,
            is_signer: if self.pubkey == signing_identity {
                true
            } else {
                self.is_signer
            },
            is_writable: self.is_writable,
        }
    }
}

impl Transaction {
    /// Materializes the proposal's steps into concrete instructions:
    /// one per step, in stored order, each with its step's program,
    /// payload and accounts, the group's signing identity asserted as a
    /// signer wherever it appears.
    pub fn materialize(&self, signing_identity: Identity) -> (ixs: Vec<Instruction>)
        requires
            self.steps_wf(),
        ensures
            is_materialized(ixs@, *self, signing_identity),
    {
        let mut ixs: Vec<Instruction> = Vec::new();
        let mut i: usize = 0;
        while i < self.program_id.len()
            invariant
                self.steps_wf(),
                i <= self.program_id@.len(),
                ixs@.len() == i,
                forall|p: int|
                    0 <= p < i ==> (#[trigger] ixs@[p]).program_id == self.program_id@[p],
                forall|p: int| 0 <= p < i ==> (#[trigger] ixs@[p]).data@ == self.data@[p]@,
                forall|p: int|
                    0 <= p < i ==> (#[trigger] ixs@[p]).accounts@.len() == self.accounts@[p]@.len(),
                forall|p: int, q: int|
                    0 <= p < i && 0 <= q < self.accounts@[p]@.len() ==> (#[trigger] (
                    ixs@[p].accounts@[q])) == adjusted_meta(
                        self.accounts@[p]@[q],
                        signing_identity,
                    ),
            decreases self.program_id@.len() - i,
        {
            let step_accounts = &self.accounts[i];
            let mut metas: Vec<AccountMeta> = Vec::new();
            let mut j: usize = 0;
            while j < step_accounts.len()
                invariant
                    step_accounts@ == self.accounts@[i as int]@,
                    i < self.accounts@.len(),
                    j <= step_accounts@.len(),
                    metas@.len() == j,
                    forall|q: int|
                        0 <= q < j ==> #[trigger] metas@[q] == adjusted_meta(
                            step_accounts@[q],
                            signing_identity,
                        ),
                decreases step_accounts@.len() - j,
            {
                metas.push(step_accounts[j].to_account_meta(signing_identity));
                j += 1;
            }
            let data_copy = copy_bytes(&self.data[i]);
            ixs.push(
                Instruction { program_id: self.program_id[i], accounts: metas, data: data_copy },
            );
            i += 1;
        }
        ixs
    }
}

/// Proposes a new action for the group: the three parallel step
/// sequences must agree in length, the proposer must be an owner, and
/// the proposal is created pre-approved by its proposer alone, not yet
/// executed.
pub fn create_transaction(
    group: &Multisig,
    multisig_key: Identity,
    pid: Vec<Identity>,
    accs: Vec<Vec<TransactionAccount>>,
    data: Vec<Vec<u8>>,
    proposer: Identity,
) -> (r: Result<Transaction, ErrorCode>)
    ensures
        pid@.len() != accs@.len() || pid@.len() != data@.len() ==> r == Err::<
            Transaction,
            ErrorCode,
        >(ErrorCode::ParamLength),
        pid@.len() == accs@.len() && pid@.len() == data@.len() && !group.owners@.contains(proposer)
            ==> r == Err::<Transaction, ErrorCode>(ErrorCode::InvalidOwner),
        pid@.len() == accs@.len() && pid@.len() == data@.len() && group.owners@.contains(proposer)
            ==> (r matches Ok(tx) && {
            &&& tx.multisig == multisig_key
            &&& tx.program_id@ == pid@
            &&& tx.accounts@ == accs@
            &&& tx.data@ == data@
            &&& tx.did_execute == false
            &&& tx.signers@.len() == group.owners@.len()
            &&& forall|i: int|
                0 <= i < tx.signers@.len() ==> (#[trigger] tx.signers@[i]) == (i == first_index_of(
                    group.owners@,
                    proposer,
                ))
            &&& count_true(tx.signers@) == 1
            &&& tx.wf_for(*group)
        }),
{
    if pid.len() != accs.len() || pid.len() != data.len() {
        return Err(ErrorCode::ParamLength);
    }
    let owner_index = match find_owner_index(&group.owners, proposer) {
        Some(i) => i,
        None => {
            return Err(ErrorCode::InvalidOwner);
        },
    };
    let mut signers: Vec<bool> = Vec::new();
    while signers.len() < group.owners.len()
        invariant
            signers@.len() <= group.owners@.len(),
            forall|i: int| 0 <= i < signers@.len() ==> !(#[trigger] signers@[i]),
        decreases group.owners@.len() - signers@.len(),
    {
        signers.push(false);
    }
    proof {
        lemma_count_true_all_false(signers@);
        lemma_count_true_update(signers@, owner_index as int);
    }
    signers[owner_index] = true;
    Ok(
        Transaction {
            multisig: multisig_key,
            program_id: pid,
            accounts: accs,
            data,
            signers,
            did_execute: false,
        },
    )
}

/// Records `owner`'s approval of the proposal and evaluates the group's
/// threshold. Under threshold the approval is recorded and nothing is
/// executed; at or above threshold, on a not-yet-executed proposal, the
/// approval is recorded and the materialized step batch is handed back
/// for execution, while an already-executed proposal is rejected
/// untouched — its bitmap keeps the value it had.
pub fn approve(
    group: &Multisig,
    signing_identity: Identity,
    tx: &mut Transaction,
    owner: Identity,
) -> (r: Result<ApproveOutcome, ErrorCode>)
    requires
        old(tx).steps_wf(),
        old(tx).signers@.len() == group.owners@.len(),
    ensures
        final(tx).multisig == old(tx).multisig,
        final(tx).program_id == old(tx).program_id,
        final(tx).accounts == old(tx).accounts,
        final(tx).data == old(tx).data,
        final(tx).did_execute == old(tx).did_execute,
        final(tx).signers@.len() == old(tx).signers@.len(),
        forall|i: int|
            0 <= i < old(tx).signers@.len() && old(tx).signers@[i] ==> final(tx).signers@[i],
        !group.owners@.contains(owner) ==> r == Err::<ApproveOutcome, ErrorCode>(
            ErrorCode::InvalidOwner,
        ) && *final(tx) == *old(tx),
        group.owners@.contains(owner) ==> ({
            let new_s = signers_after(old(tx).signers@, group.owners@, owner);
            &&& (count_true(new_s) < group.threshold ==> (r matches Ok(o) && o is Deferred
                && final(tx).signers@ == new_s))
            &&& (count_true(new_s) >= group.threshold && old(tx).did_execute ==> r == Err::<
                ApproveOutcome,
                ErrorCode,
            >(ErrorCode::AlreadyExecuted) && *final(tx) == *old(tx))
            &&& (count_true(new_s) >= group.threshold && !old(tx).did_execute ==> (r matches Ok(o)
                && o matches ApproveOutcome::Execute(ixs) && is_materialized(
                ixs@,
                *old(tx),
                signing_identity,
            ) && final(tx).signers@ == new_s))
        }),
        (r matches Ok(o) && o is Execute) <==> approve_executes(*group, *old(tx), owner),
        old(tx).wf_for(*group) ==> final(tx).wf_for(*group),
{
    let owner_index = match find_owner_index(&group.owners, owner) {
        Some(i) => i,
        None => {
            return Err(ErrorCode::InvalidOwner);
        },
    };
    let already = tx.signers[owner_index];
    let n_owners = tx.signers.len();
    let cnt = approval_count(&tx.signers);
    proof {
        lemma_count_true_update(tx.signers@, owner_index as int);
        lemma_count_true_bound(signers_after(tx.signers@, group.owners@, owner));
        assert(signers_after(tx.signers@, group.owners@, owner).len() == n_owners);
    }
    let new_cnt = if already {
        cnt
    } else {
        cnt + 1
    };
    if (new_cnt as u64) < group.threshold {
        tx.signers[owner_index] = true;
        return Ok(ApproveOutcome::Deferred);
    }
    if tx.did_execute {
        return Err(ErrorCode::AlreadyExecuted);
    }
    tx.signers[owner_index] = true;
    let ixs = tx.materialize(signing_identity);
    Ok(ApproveOutcome::Execute(ixs))
}

/// Records that the host has run the whole materialized batch of a
/// proposal that reached its threshold: the one-time execution flag is
/// set, and nothing else moves. To be called exactly when an approval
/// returned the batch and the executor accepted every step of it.
pub fn mark_executed(group: &Multisig, tx: &mut Transaction)
    requires
        !old(tx).did_execute,
        count_true(old(tx).signers@) >= group.threshold,
    ensures
        final(tx).did_execute,
        final(tx).multisig == old(tx).multisig,
        final(tx).program_id == old(tx).program_id,
        final(tx).accounts == old(tx).accounts,
        final(tx).data == old(tx).data,
        final(tx).signers == old(tx).signers,
        old(tx).wf_for(*group) ==> final(tx).wf_for(*group),
{
    tx.did_execute = true;
}

} // verus!
