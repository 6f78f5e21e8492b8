use multisig::Identity;
use multisig::ErrorCode;
use multisig::TransactionAccount;
use multisig::TransactionInstruction;
use multisig::config::change_threshold;
use multisig::config::create_multisig;
use multisig::config::set_owners;
use multisig::config::set_owners_and_change_threshold;
use multisig::engine::cancel_transaction;
use multisig::engine::execute_transaction;
use multisig::proposal::approve;
use multisig::proposal::count_signers;
use multisig::proposal::create_transaction;

fn ident(n: u64) -> Identity {
    Identity::new(n, 0, 0, 0)
}

fn simple_ix(target: Identity) -> TransactionInstruction {
    TransactionInstruction { program_id: target, accounts: Vec::new(), data: vec![1, 2, 3] }
}

#[test]
fn create_multisig_initializes_fields() {
    let m = create_multisig(vec![ident(1), ident(2), ident(3)], 2, 7).unwrap();
    assert_eq!(m.owners, vec![ident(1), ident(2), ident(3)]);
    assert_eq!(m.threshold, 2);
    assert_eq!(m.nonce, 7);
    assert_eq!(m.owner_set_seqno, 0);
}

#[test]
fn create_multisig_duplicate_owners_rejected() {
    let r = create_multisig(vec![ident(1), ident(2), ident(1)], 2, 0);
    assert_eq!(r.unwrap_err(), ErrorCode::UniqueOwners);
}

#[test]
fn create_multisig_threshold_zero_rejected() {
    let r = create_multisig(vec![ident(1), ident(2), ident(3)], 0, 0);
    assert_eq!(r.unwrap_err(), ErrorCode::InvalidThreshold);
}

#[test]
fn create_multisig_threshold_above_owner_count_rejected() {
    let r = create_multisig(vec![ident(1), ident(2), ident(3)], 4, 0);
    assert_eq!(r.unwrap_err(), ErrorCode::InvalidThreshold);
}

#[test]
fn create_multisig_threshold_equal_owner_count_accepted() {
    let m = create_multisig(vec![ident(1), ident(2), ident(3)], 3, 0).unwrap();
    assert_eq!(m.threshold, 3);
}

#[test]
fn create_multisig_no_owners_rejected() {
    // with no owners, no threshold can satisfy 1 <= t <= 0
    let r = create_multisig(Vec::new(), 1, 0);
    assert_eq!(r.unwrap_err(), ErrorCode::InvalidThreshold);
}

#[test]
fn create_transaction_auto_approves_proposer() {
    let m = create_multisig(vec![ident(1), ident(2), ident(3)], 2, 0).unwrap();
    let tx = create_transaction(&m, ident(100), ident(1), vec![simple_ix(ident(50))]).unwrap();
    assert_eq!(tx.signers, vec![true, false, false]);
    assert_eq!(tx.multisig, ident(100));
    assert_eq!(tx.owner_set_seqno, 0);
    assert_eq!(count_signers(&tx.signers), 1);
}

#[test]
fn create_transaction_empty_instructions_rejected() {
    let m = create_multisig(vec![ident(1), ident(2)], 1, 0).unwrap();
    let r = create_transaction(&m, ident(100), ident(1), Vec::new());
    assert_eq!(r.unwrap_err(), ErrorCode::MissingInstructions);
}

#[test]
fn create_transaction_non_owner_rejected() {
    let m = create_multisig(vec![ident(1), ident(2)], 1, 0).unwrap();
    let r = create_transaction(&m, ident(100), ident(9), vec![simple_ix(ident(50))]);
    assert_eq!(r.unwrap_err(), ErrorCode::InvalidOwner);
}

#[test]
fn approve_twice_same_owner_is_idempotent() {
    let m = create_multisig(vec![ident(1), ident(2), ident(3)], 2, 0).unwrap();
    let mut tx = create_transaction(&m, ident(100), ident(1), vec![simple_ix(ident(50))]).unwrap();
    approve(&m, &mut tx, ident(2)).unwrap();
    let once = tx.signers.clone();
    approve(&m, &mut tx, ident(2)).unwrap();
    assert_eq!(tx.signers, once);
    assert_eq!(tx.signers, vec![true, true, false]);
    assert_eq!(count_signers(&tx.signers), 2);
}

#[test]
fn approval_count_never_decreases() {
    let m = create_multisig(vec![ident(1), ident(2), ident(3)], 2, 0).unwrap();
    let mut tx = create_transaction(&m, ident(100), ident(2), vec![simple_ix(ident(50))]).unwrap();
    let mut last: usize = count_signers(&tx.signers);
    for owner in [ident(2), ident(1), ident(2), ident(3), ident(1)] {
        approve(&m, &mut tx, owner).unwrap();
        let now: usize = count_signers(&tx.signers);
        assert!(now >= last);
        last = now;
    }
    assert_eq!(last, 3);
}

#[test]
fn approve_non_owner_rejected() {
    let m = create_multisig(vec![ident(1), ident(2)], 1, 0).unwrap();
    let mut tx = create_transaction(&m, ident(100), ident(1), vec![simple_ix(ident(50))]).unwrap();
    let r = approve(&m, &mut tx, ident(9));
    assert_eq!(r.unwrap_err(), ErrorCode::InvalidOwner);
    assert_eq!(tx.signers, vec![true, false]);
}

#[test]
fn quorum_reached_execute_succeeds() {
    // owners = [A, B, C], threshold = 2; proposed by A, approved by B,
    // executed by C
    let a = ident(1);
    let b = ident(2);
    let c = ident(3);
    let m = create_multisig(vec![a, b, c], 2, 0).unwrap();
    let mut tx = create_transaction(&m, ident(100), a, vec![simple_ix(ident(50))]).unwrap();
    assert_eq!(tx.signers, vec![true, false, false]);
    approve(&m, &mut tx, b).unwrap();
    assert_eq!(tx.signers, vec![true, true, false]);
    let resolved = execute_transaction(&m, &tx, c, ident(200)).unwrap();
    assert_eq!(resolved.len(), 1);
    assert_eq!(resolved[0].program_id, ident(50));
    assert_eq!(resolved[0].data, vec![1, 2, 3]);
    // the transaction is retired by dropping it once every dispatch succeeded
    drop(tx);
}

#[test]
fn execute_below_threshold_rejected_then_allowed() {
    let m = create_multisig(vec![ident(1), ident(2), ident(3)], 2, 0).unwrap();
    let mut tx = create_transaction(&m, ident(100), ident(1), vec![simple_ix(ident(50))]).unwrap();
    let r = execute_transaction(&m, &tx, ident(1), ident(200));
    assert_eq!(r.unwrap_err(), ErrorCode::NotEnoughSigners);
    // the recorded approval is kept, so a later attempt can succeed
    approve(&m, &mut tx, ident(3)).unwrap();
    assert!(execute_transaction(&m, &tx, ident(1), ident(200)).is_ok());
}

#[test]
fn execute_non_owner_executor_rejected() {
    let m = create_multisig(vec![ident(1), ident(2)], 1, 0).unwrap();
    let tx = create_transaction(&m, ident(100), ident(1), vec![simple_ix(ident(50))]).unwrap();
    let r = execute_transaction(&m, &tx, ident(9), ident(200));
    assert_eq!(r.unwrap_err(), ErrorCode::InvalidExecutor);
}

#[test]
fn execute_marks_delegated_signer() {
    let delegated = ident(200);
    let m = create_multisig(vec![ident(1), ident(2)], 1, 0).unwrap();
    let ix = TransactionInstruction {
        program_id: ident(50),
        accounts: vec![
            TransactionAccount { pubkey: ident(60), is_signer: false, is_writable: true },
            TransactionAccount { pubkey: delegated, is_signer: false, is_writable: false },
            TransactionAccount { pubkey: ident(61), is_signer: true, is_writable: false },
        ],
        data: vec![9, 8],
    };
    let tx = create_transaction(&m, ident(100), ident(1), vec![ix]).unwrap();
    let resolved = execute_transaction(&m, &tx, ident(2), delegated).unwrap();
    assert_eq!(resolved.len(), 1);
    let accounts = &resolved[0].accounts;
    assert_eq!(
        accounts[0],
        TransactionAccount { pubkey: ident(60), is_signer: false, is_writable: true }
    );
    assert_eq!(
        accounts[1],
        TransactionAccount { pubkey: delegated, is_signer: true, is_writable: false }
    );
    assert_eq!(
        accounts[2],
        TransactionAccount { pubkey: ident(61), is_signer: true, is_writable: false }
    );
    assert_eq!(resolved[0].program_id, ident(50));
    assert_eq!(resolved[0].data, vec![9, 8]);
}

#[test]
fn membership_change_blocks_existing_transaction() {
    // owners = [A, B, C], threshold = 2; a pending proposal by A becomes
    // permanently stale once set_owners([A, B]) goes through
    let a = ident(1);
    let b = ident(2);
    let c = ident(3);
    let mut m = create_multisig(vec![a, b, c], 2, 0).unwrap();
    let mut tx = create_transaction(&m, ident(100), a, vec![simple_ix(ident(50))]).unwrap();
    set_owners(&mut m, vec![a, b]).unwrap();
    assert_eq!(m.owner_set_seqno, 1);
    let r = approve(&m, &mut tx, b);
    assert_eq!(r.unwrap_err(), ErrorCode::StaleTransaction);
    // even a fully approved stale transaction cannot execute
    let r = execute_transaction(&m, &tx, a, ident(200));
    assert_eq!(r.unwrap_err(), ErrorCode::StaleTransaction);
    // a fresh proposal under the new owner set works
    let mut tx2 = create_transaction(&m, ident(100), a, vec![simple_ix(ident(50))]).unwrap();
    approve(&m, &mut tx2, b).unwrap();
    assert!(execute_transaction(&m, &tx2, b, ident(200)).is_ok());
}

#[test]
fn set_owners_clamps_threshold_down() {
    let mut m = create_multisig(vec![ident(1), ident(2), ident(3)], 3, 0).unwrap();
    set_owners(&mut m, vec![ident(1), ident(2)]).unwrap();
    assert_eq!(m.threshold, 2);
    assert_eq!(m.owners, vec![ident(1), ident(2)]);
    assert_eq!(m.owner_set_seqno, 1);
}

#[test]
fn set_owners_cannot_grow_owner_set() {
    let mut m = create_multisig(vec![ident(1), ident(2)], 1, 0).unwrap();
    let r = set_owners(&mut m, vec![ident(1), ident(2), ident(3)]);
    assert_eq!(r.unwrap_err(), ErrorCode::TooManyOwners);
    assert_eq!(m.owners, vec![ident(1), ident(2)]);
    assert_eq!(m.owner_set_seqno, 0);
}

#[test]
fn set_owners_empty_rejected() {
    let mut m = create_multisig(vec![ident(1), ident(2)], 1, 0).unwrap();
    let r = set_owners(&mut m, Vec::new());
    assert_eq!(r.unwrap_err(), ErrorCode::NotEnoughOwners);
    assert_eq!(m.owner_set_seqno, 0);
}

#[test]
fn set_owners_duplicates_rejected() {
    let mut m = create_multisig(vec![ident(1), ident(2)], 1, 0).unwrap();
    let r = set_owners(&mut m, vec![ident(3), ident(3)]);
    assert_eq!(r.unwrap_err(), ErrorCode::UniqueOwners);
    assert_eq!(m.owners, vec![ident(1), ident(2)]);
}

#[test]
fn change_threshold_bumps_seqno() {
    let mut m = create_multisig(vec![ident(1), ident(2), ident(3)], 2, 0).unwrap();
    change_threshold(&mut m, 3).unwrap();
    assert_eq!(m.threshold, 3);
    assert_eq!(m.owner_set_seqno, 1);
    assert_eq!(m.owners, vec![ident(1), ident(2), ident(3)]);
}

#[test]
fn change_threshold_out_of_range_rejected() {
    let mut m = create_multisig(vec![ident(1), ident(2), ident(3)], 2, 0).unwrap();
    assert_eq!(change_threshold(&mut m, 0).unwrap_err(), ErrorCode::InvalidThreshold);
    assert_eq!(change_threshold(&mut m, 4).unwrap_err(), ErrorCode::InvalidThreshold);
    assert_eq!(m.threshold, 2);
    assert_eq!(m.owner_set_seqno, 0);
}

#[test]
fn combined_change_applies_both_with_one_bump() {
    let mut m = create_multisig(vec![ident(1), ident(2), ident(3)], 3, 0).unwrap();
    set_owners_and_change_threshold(&mut m, vec![ident(1), ident(2)], 1).unwrap();
    assert_eq!(m.owners, vec![ident(1), ident(2)]);
    assert_eq!(m.threshold, 1);
    assert_eq!(m.owner_set_seqno, 1);
}

#[test]
fn combined_change_is_atomic_on_bad_threshold() {
    let mut m = create_multisig(vec![ident(1), ident(2), ident(3)], 2, 0).unwrap();
    let r = set_owners_and_change_threshold(&mut m, vec![ident(1), ident(2)], 3);
    assert_eq!(r.unwrap_err(), ErrorCode::InvalidThreshold);
    // nothing changed: not the owners, not the threshold, not the seqno
    assert_eq!(m.owners, vec![ident(1), ident(2), ident(3)]);
    assert_eq!(m.threshold, 2);
    assert_eq!(m.owner_set_seqno, 0);
}

#[test]
fn cancel_by_any_owner_regardless_of_approvals() {
    // threshold 3, only the proposer has approved: cancel still goes through
    let m = create_multisig(vec![ident(1), ident(2), ident(3)], 3, 0).unwrap();
    let tx = create_transaction(&m, ident(100), ident(1), vec![simple_ix(ident(50))]).unwrap();
    cancel_transaction(&m, &tx, ident(3)).unwrap();
    drop(tx);
}

#[test]
fn cancel_works_on_stale_transaction() {
    let mut m = create_multisig(vec![ident(1), ident(2), ident(3)], 2, 0).unwrap();
    let tx = create_transaction(&m, ident(100), ident(1), vec![simple_ix(ident(50))]).unwrap();
    set_owners(&mut m, vec![ident(1), ident(2)]).unwrap();
    assert_eq!(
        execute_transaction(&m, &tx, ident(1), ident(200)).unwrap_err(),
        ErrorCode::StaleTransaction
    );
    cancel_transaction(&m, &tx, ident(1)).unwrap();
}

#[test]
fn cancel_by_non_owner_rejected() {
    let m = create_multisig(vec![ident(1), ident(2)], 1, 0).unwrap();
    let tx = create_transaction(&m, ident(100), ident(1), vec![simple_ix(ident(50))]).unwrap();
    let r = cancel_transaction(&m, &tx, ident(9));
    assert_eq!(r.unwrap_err(), ErrorCode::InvalidExecutor);
}

#[test]
fn error_messages_name_the_cause() {
    assert_eq!(ErrorCode::UniqueOwners.message(), "Owners must be unique.");
    assert_eq!(
        ErrorCode::NotEnoughSigners.message(),
        "Not enough owners signed this transaction."
    );
}
