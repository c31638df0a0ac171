//! The mathematical model the contracts speak of: approval counting,
//! owner resolution, the bitmap after an approval, and the shape of the
//! materialized instruction batch.

use vstd::prelude::*;

use crate::types::AccountMeta;
use crate::types::Identity;
use crate::types::Instruction;
use crate::types::Multisig;
use crate::types::Transaction;
use crate::types::TransactionAccount;

verus! {

/// How many owners have approved: the number of true bits in the
/// bitmap.
pub open spec fn count_true(s: Seq<bool>) -> nat
    decreases s.len(),
{
    if s.len() == 0 {
        0
    } else {
        count_true(s.drop_last()) + if s.last() {
            1nat
        } else {
            0nat
        }
    }
}

/// `i` is the first position of `x` in `s`. Owners are always resolved
/// to the first matching index.
pub open spec fn is_first_index_of(s: Seq<Identity>, x: Identity, i: int) -> bool {
    &&& 0 <= i < s.len()
    &&& s[i] == x
    &&& forall|j: int| 0 <= j < i ==> s[j] != x
}

/// The first position of `x` in `s`; meaningful only when `s`
/// contains `x`.
pub open spec fn first_index_of(s: Seq<Identity>, x: Identity) -> int
    decreases s.len(),
{
    if s.len() == 0 {
        0
    } else if s[0] == x {
        0
    } else {
        1 + first_index_of(s.drop_first(), x)
    }
}

/// The approval bitmap after `owner`'s approval is recorded: the bit at
/// the owner's position in the group's owner list is set, every other
/// bit is untouched.
pub open spec fn signers_after(s: Seq<bool>, owners: Seq<Identity>, owner: Identity) -> Seq<
    bool,
> {
    s.update(first_index_of(owners, owner), true)
}

/// The account reference as executed: on the group's signing identity
/// the signer flag is asserted; every other flag passes through
/// unchanged from the stored proposal.
pub open spec fn adjusted_meta(a: TransactionAccount, signing_identity: Identity) -> AccountMeta {
    AccountMeta {
        pubkey: a.pubkey,
        is_signer: if a.pubkey == signing_identity {
            true
        } else {
            a.is_signer
        },
        is_writable: a.is_writable,
    }
}

/// `ixs` materializes the proposal's steps: one instruction per step,
/// in stored order, each carrying its step's program, payload and
/// accounts, with the signing identity asserted on matching account
/// references.
pub open spec fn is_materialized(
    ixs: Seq<Instruction>,
    tx: Transaction,
    signing_identity: Identity,
) -> bool {
    &&& ixs.len() == tx.program_id@.len()
    &&& forall|i: int| 0 <= i < ixs.len() ==> (#[trigger] ixs[i]).program_id == tx.program_id@[i]
    &&& forall|i: int| 0 <= i < ixs.len() ==> (#[trigger] ixs[i]).data@ == tx.data@[i]@
    &&& forall|i: int|
        0 <= i < ixs.len() ==> (#[trigger] ixs[i]).accounts@.len() == tx.accounts@[i]@.len()
    &&& forall|i: int, j: int|
        0 <= i < ixs.len() && 0 <= j < tx.accounts@[i]@.len() ==> (#[trigger] (
        ixs[i].accounts@[j])) == adjusted_meta(tx.accounts@[i]@[j], signing_identity)
}

/// A bitmap never counts more approvals than it has bits.
pub proof fn lemma_count_true_bound(s: Seq<bool>)
    ensures
        count_true(s) <= s.len(),
    decreases s.len(),
{
    if s.len() > 0 {
        lemma_count_true_bound(s.drop_last());
    }
}

/// A bitmap with no bit set counts no approval.
pub proof fn lemma_count_true_all_false(s: Seq<bool>)
    requires
        forall|i: int| 0 <= i < s.len() ==> !(#[trigger] s[i]),
    ensures
        count_true(s) == 0,
    decreases s.len(),
{
    if s.len() > 0 {
        lemma_count_true_all_false(s.drop_last());
    }
}

/// Setting one bit raises the count by one when the bit was clear and
/// leaves it unchanged when the bit was already set.
pub proof fn lemma_count_true_update(s: Seq<bool>, i: int)
    requires
        0 <= i < s.len(),
    ensures
        count_true(s.update(i, true)) == count_true(s) + if s[i] {
            0nat
        } else {
            1nat
        },
    decreases s.len(),
{
    let t = s.update(i, true);
    if i == s.len() - 1 {
        assert(t.drop_last() =~= s.drop_last());
    } else {
        assert(t.drop_last() =~= s.drop_last().update(i, true));
        lemma_count_true_update(s.drop_last(), i);
        assert(t.last() == s.last());
    }
}

/// A position that satisfies `is_first_index_of` is the value of
/// `first_index_of`.
pub proof fn lemma_is_first_index_of(s: Seq<Identity>, x: Identity, i: int)
    requires
        is_first_index_of(s, x, i),
    ensures
        first_index_of(s, x) == i,
    decreases s.len(),
{
    if s[0] == x {
        if i != 0 {
            assert(s[0] != x);
        }
    } else {
        let t = s.drop_first();
        assert(t[i - 1] == s[i]);
        assert(forall|j: int| 0 <= j < i - 1 ==> #[trigger] t[j] == s[j + 1]);
        lemma_is_first_index_of(t, x, i - 1);
    }
}

/// Whenever `s` contains `x`, `first_index_of` names a genuine first
/// position of `x` in `s`.
pub proof fn lemma_contains_first_index(s: Seq<Identity>, x: Identity)
    requires
        s.contains(x),
    ensures
        is_first_index_of(s, x, first_index_of(s, x)),
    decreases s.len(),
{
    if s[0] != x {
        let t = s.drop_first();
        let w = choose|k: int| 0 <= k < s.len() && s[k] == x;
        assert(t[w - 1] == s[w]);
        assert(t.contains(x));
        lemma_contains_first_index(t, x);
        let f = first_index_of(t, x);
        assert(s[1 + f] == t[f]);
        assert(forall|j: int| 1 <= j < 1 + f ==> #[trigger] s[j] == t[j - 1]);
    }
}

/// The exact condition under which an approval call hands the step
/// batch to the executor: the caller is an owner, the bitmap with the
/// caller's bit set reaches the group's threshold, and the proposal has
/// not been executed yet.
pub open spec fn approve_executes(group: Multisig, tx: Transaction, owner: Identity) -> bool {
    &&& group.owners@.contains(owner)
    &&& count_true(signers_after(tx.signers@, group.owners@, owner)) >= group.threshold
    &&& !tx.did_execute
}

} // verus!
