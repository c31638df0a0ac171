use multisig::approval_count;
use multisig::approve;
use multisig::create_multisig;
use multisig::create_transaction;
use multisig::find_owner_index;
use multisig::mark_executed;
use multisig::ApproveOutcome;
use multisig::ErrorCode;
use multisig::Identity;
use multisig::Multisig;
use multisig::Transaction;
use multisig::TransactionAccount;

fn id(value: u64) -> Identity {
    Identity { w0: value, w1: 0, w2: 0, w3: 0 }
}

fn abc_group(threshold: u64) -> Multisig {
    create_multisig(vec![id(1), id(2), id(3)], threshold, 7).unwrap()
}

fn simple_steps() -> (Vec<Identity>, Vec<Vec<TransactionAccount>>, Vec<Vec<u8>>) {
    let accounts = vec![
        TransactionAccount { pubkey: id(40), is_signer: false, is_writable: true },
        TransactionAccount { pubkey: id(99), is_signer: false, is_writable: false },
    ];
    (vec![id(9)], vec![accounts], vec![vec![1, 2, 3]])
}

fn propose(group: &Multisig, proposer: Identity) -> Transaction {
    let (pid, accs, data) = simple_steps();
    create_transaction(group, id(100), pid, accs, data, proposer).unwrap()
}

#[test]
fn register_rejects_zero_threshold() {
    let r = create_multisig(vec![id(1), id(2), id(3)], 0, 7);
    assert!(matches!(r, Err(ErrorCode::InvalidThreshold)));
}

#[test]
fn register_rejects_threshold_over_owner_count() {
    let r = create_multisig(vec![id(1), id(2), id(3)], 4, 7);
    assert!(matches!(r, Err(ErrorCode::InvalidThreshold)));
}

#[test]
fn register_accepts_full_threshold() {
    let g = create_multisig(vec![id(1), id(2), id(3)], 3, 7).unwrap();
    assert_eq!(g.owners, vec![id(1), id(2), id(3)]);
    assert_eq!(g.threshold, 3);
    assert_eq!(g.nonce, 7);
}

#[test]
fn register_rejects_empty_owner_set() {
    assert!(matches!(create_multisig(vec![], 1, 0), Err(ErrorCode::InvalidThreshold)));
}

#[test]
fn propose_records_proposer_approval_only() {
    let group = abc_group(2);
    let tx = propose(&group, id(1));
    assert_eq!(tx.signers, vec![true, false, false]);
    assert_eq!(tx.multisig, id(100));
    assert!(!tx.did_execute);
    assert_eq!(approval_count(&tx.signers), 1);
}

#[test]
fn propose_rejects_mismatched_step_lengths() {
    // two targets, two parameter lists, one payload
    let group = abc_group(2);
    let r = create_transaction(
        &group,
        id(100),
        vec![id(9), id(10)],
        vec![vec![], vec![]],
        vec![vec![1]],
        id(1),
    );
    assert!(matches!(r, Err(ErrorCode::ParamLength)));
}

#[test]
fn propose_rejects_non_owner() {
    let group = abc_group(2);
    let (pid, accs, data) = simple_steps();
    let r = create_transaction(&group, id(100), pid, accs, data, id(4));
    assert!(matches!(r, Err(ErrorCode::InvalidOwner)));
}

#[test]
fn approve_rejects_non_owner_and_changes_nothing() {
    let group = abc_group(2);
    let mut tx = propose(&group, id(1));
    let r = approve(&group, id(50), &mut tx, id(4));
    assert!(matches!(r, Err(ErrorCode::InvalidOwner)));
    assert_eq!(tx.signers, vec![true, false, false]);
    assert!(!tx.did_execute);
}

#[test]
fn approve_under_threshold_defers() {
    let group = abc_group(3);
    let mut tx = propose(&group, id(1));
    let r = approve(&group, id(50), &mut tx, id(2));
    assert!(matches!(r, Ok(ApproveOutcome::Deferred)));
    assert_eq!(tx.signers, vec![true, true, false]);
    assert!(!tx.did_execute);
}

#[test]
fn approve_is_idempotent_before_threshold() {
    let group = abc_group(3);
    let mut once = propose(&group, id(1));
    assert!(matches!(approve(&group, id(50), &mut once, id(2)), Ok(ApproveOutcome::Deferred)));
    let mut twice = propose(&group, id(1));
    assert!(matches!(approve(&group, id(50), &mut twice, id(2)), Ok(ApproveOutcome::Deferred)));
    assert!(matches!(approve(&group, id(50), &mut twice, id(2)), Ok(ApproveOutcome::Deferred)));
    assert_eq!(once.signers, twice.signers);
    assert_eq!(once.signers, vec![true, true, false]);
}

#[test]
fn threshold_reached_executes_exactly_the_stored_steps() {
    // owners [1,2,3], threshold 2: proposer 1, then owner 2 approves.
    let signing_identity = id(40);
    let group = abc_group(2);
    let mut tx = propose(&group, id(1));
    let r = approve(&group, signing_identity, &mut tx, id(2));
    let ixs = match r {
        Ok(ApproveOutcome::Execute(ixs)) => ixs,
        _ => panic!("expected the materialized batch"),
    };
    assert_eq!(tx.signers, vec![true, true, false]);
    assert_eq!(ixs.len(), 1);
    assert_eq!(ixs[0].program_id, id(9));
    assert_eq!(ixs[0].data, vec![1, 2, 3]);
    assert_eq!(ixs[0].accounts.len(), 2);
    // the signing identity's account is asserted as a signer
    assert_eq!(ixs[0].accounts[0].pubkey, id(40));
    assert!(ixs[0].accounts[0].is_signer);
    assert!(ixs[0].accounts[0].is_writable);
    // every other account's flags pass through unchanged
    assert_eq!(ixs[0].accounts[1].pubkey, id(99));
    assert!(!ixs[0].accounts[1].is_signer);
    assert!(!ixs[0].accounts[1].is_writable);
    // the execution flag is set only once the host reports success
    assert!(!tx.did_execute);
    mark_executed(&group, &mut tx);
    assert!(tx.did_execute);
}

#[test]
fn proposer_alone_meets_threshold_of_one_on_approve() {
    // with threshold 1 the proposal is already at threshold; execution
    // still waits for an approval call, and the proposer's repeated
    // approval adds no bit
    let group = abc_group(1);
    let mut tx = propose(&group, id(3));
    assert_eq!(tx.signers, vec![false, false, true]);
    assert!(!tx.did_execute);
    let r = approve(&group, id(50), &mut tx, id(3));
    assert!(matches!(r, Ok(ApproveOutcome::Execute(_))));
    assert_eq!(tx.signers, vec![false, false, true]);
}

#[test]
fn approve_after_execution_rejects_and_leaves_bitmap_unchanged() {
    let group = abc_group(2);
    let mut tx = propose(&group, id(1));
    assert!(matches!(
        approve(&group, id(50), &mut tx, id(2)),
        Ok(ApproveOutcome::Execute(_))
    ));
    mark_executed(&group, &mut tx);
    let r = approve(&group, id(50), &mut tx, id(3));
    assert!(matches!(r, Err(ErrorCode::AlreadyExecuted)));
    // the late approver's bit is not flipped: the replay guard rejects
    // before any further mutation
    assert_eq!(tx.signers, vec![true, true, false]);
    assert!(tx.did_execute);
}

#[test]
fn under_threshold_forever_never_executes() {
    // threshold 3 with 3 owners; only owners 1 and 2 ever approve.
    let group = abc_group(3);
    let mut tx = propose(&group, id(1));
    for _ in 0..5 {
        assert!(matches!(approve(&group, id(50), &mut tx, id(1)), Ok(ApproveOutcome::Deferred)));
        assert!(matches!(approve(&group, id(50), &mut tx, id(2)), Ok(ApproveOutcome::Deferred)));
        assert_eq!(tx.signers, vec![true, true, false]);
        assert!(!tx.did_execute);
    }
}

#[test]
fn retry_after_executor_failure_hands_the_batch_back() {
    // the host reports failure: did_execute stays false, and a later
    // approval call re-materializes the same batch
    let group = abc_group(2);
    let mut tx = propose(&group, id(1));
    assert!(matches!(
        approve(&group, id(50), &mut tx, id(2)),
        Ok(ApproveOutcome::Execute(_))
    ));
    assert!(!tx.did_execute);
    let r = approve(&group, id(50), &mut tx, id(2));
    match r {
        Ok(ApproveOutcome::Execute(ixs)) => {
            assert_eq!(ixs.len(), 1);
            assert_eq!(ixs[0].program_id, id(9));
        }
        _ => panic!("expected the batch again"),
    }
}

#[test]
fn bitmap_length_always_matches_owner_count() {
    let group = abc_group(2);
    let mut tx = propose(&group, id(1));
    assert_eq!(tx.signers.len(), group.owners.len());
    let _ = approve(&group, id(50), &mut tx, id(3));
    assert_eq!(tx.signers.len(), group.owners.len());
    let _ = approve(&group, id(50), &mut tx, id(4));
    assert_eq!(tx.signers.len(), group.owners.len());
}

#[test]
fn owner_resolution_takes_the_first_match() {
    let owners = vec![id(5), id(6), id(5)];
    assert_eq!(find_owner_index(&owners, id(5)), Some(0));
    assert_eq!(find_owner_index(&owners, id(6)), Some(1));
    assert_eq!(find_owner_index(&owners, id(7)), None);
}

#[test]
fn approval_count_counts_true_bits() {
    assert_eq!(approval_count(&vec![]), 0);
    assert_eq!(approval_count(&vec![false, false]), 0);
    assert_eq!(approval_count(&vec![true, false, true, true]), 3);
}

#[test]
fn materialize_keeps_step_order() {
    let group = abc_group(1);
    let pid = vec![id(9), id(10)];
    let accs = vec![
        vec![TransactionAccount { pubkey: id(40), is_signer: false, is_writable: false }],
        vec![],
    ];
    let data = vec![vec![1], vec![2, 2]];
    let tx = create_transaction(&group, id(100), pid, accs, data, id(1)).unwrap();
    let ixs = tx.materialize(id(41));
    assert_eq!(ixs.len(), 2);
    assert_eq!(ixs[0].program_id, id(9));
    assert_eq!(ixs[0].data, vec![1]);
    // identity 40 is not the signing identity: flags pass through
    assert!(!ixs[0].accounts[0].is_signer);
    assert_eq!(ixs[1].program_id, id(10));
    assert_eq!(ixs[1].data, vec![2, 2]);
    assert!(ixs[1].accounts.is_empty());
}
