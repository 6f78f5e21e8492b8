//! Execution and cancellation of proposals: the quorum tally, the
//! staleness guard, and the delegated-signer rewrite that prepares the
//! instructions for dispatch.
//!
//! Dispatch itself is the surrounding runtime's job: `execute_transaction`
//! hands back the resolved instructions, in program order, and the caller
//! invokes them one by one, stopping at the first failure.

use vstd::prelude::*;
use crate::action::TransactionInstruction;
use crate::action::instruction_resolved;
use crate::action::resolve_instruction;
use crate::config::Multisig;
use crate::config::contains_identity;
use crate::errors::ErrorCode;
use crate::identity::Identity;
use crate::proposal::Transaction;
use crate::proposal::approve_allowed;
use crate::proposal::count_signers;
use crate::proposal::count_true;
use crate::proposal::is_stale;

verus! {

/// `execute` goes through exactly when the transaction is not stale, the
/// executor is a current owner, and the approvals have reached the
/// threshold.
pub open spec fn execute_allowed(
    multisig: Multisig,
    transaction: Transaction,
    executor: Identity,
) -> bool {
    &&& !is_stale(multisig, transaction)
    &&& multisig.owners@.contains(executor)
    &&& count_true(transaction.signers@) >= multisig.threshold
}

/// Authorizes the transaction for execution and returns its instructions
/// with the delegated-signer rewrite applied: every account whose key is
/// `multisig_signer` — the multisig's delegated identity — is marked as a
/// signer. Fails with `StaleTransaction` when the owner set has changed
/// since the transaction was created, with `InvalidExecutor` when the
/// executor is not a current owner, and with `NotEnoughSigners` when fewer
/// than `threshold` owners have approved. The caller dispatches the
/// returned instructions in order and retires the transaction only when
/// every dispatch succeeded.
pub fn execute_transaction(
    multisig: &Multisig,
    transaction: &Transaction,
    executor: Identity,
    multisig_signer: Identity,
) -> (r: Result<Vec<TransactionInstruction>, ErrorCode>)
    requires
        multisig.wf(),
    ensures
        r is Ok <==> execute_allowed(*multisig, *transaction, executor),
        is_stale(*multisig, *transaction) ==> (r matches Err(e) && e
            == ErrorCode::StaleTransaction),
        !is_stale(*multisig, *transaction) && !multisig.owners@.contains(executor) ==> (
        r matches Err(e) && e == ErrorCode::InvalidExecutor),
        !is_stale(*multisig, *transaction) && multisig.owners@.contains(executor) && count_true(
            transaction.signers@,
        ) < multisig.threshold ==> (r matches Err(e) && e == ErrorCode::NotEnoughSigners),
        r matches Ok(v) ==> {
            &&& v@.len() == transaction.instructions@.len()
            &&& forall|i: int|
                0 <= i < v@.len() ==> instruction_resolved(
                    transaction.instructions@[i],
                    v@[i],
                    multisig_signer,
                )
        },
{
    if transaction.owner_set_seqno != multisig.owner_set_seqno {
        return Err(ErrorCode::StaleTransaction);
    }
    if !contains_identity(&multisig.owners, executor) {
        return Err(ErrorCode::InvalidExecutor);
    }
    let sig_count: usize = count_signers(&transaction.signers);
    if (sig_count as u64) < multisig.threshold {
        return Err(ErrorCode::NotEnoughSigners);
    }
    let mut resolved: Vec<TransactionInstruction> = Vec::new();
    let mut i: usize = 0;
    while i < transaction.instructions.len()
        invariant
            i <= transaction.instructions@.len(),
            resolved@.len() == i,
            forall|k: int|
                0 <= k < i ==> instruction_resolved(
                    transaction.instructions@[k],
                    resolved@[k],
                    multisig_signer,
                ),
        decreases transaction.instructions@.len() - i,
    {
        let ix = resolve_instruction(&transaction.instructions[i], multisig_signer);
        resolved.push(ix);
        i = i + 1;
    }
    Ok(resolved)
}

/// Cancels the transaction: any current owner may withdraw a pending
/// proposal, stale or not, approved or not. Fails with `InvalidExecutor`
/// when the executor is not a current owner; on success the caller retires
/// the transaction.
pub fn cancel_transaction(
    multisig: &Multisig,
    _transaction: &Transaction,
    executor: Identity,
) -> (r: Result<(), ErrorCode>)
    requires
        multisig.wf(),
    ensures
        r is Ok <==> multisig.owners@.contains(executor),
        !multisig.owners@.contains(executor) ==> (r matches Err(e) && e
            == ErrorCode::InvalidExecutor),
{
    if !contains_identity(&multisig.owners, executor) {
        return Err(ErrorCode::InvalidExecutor);
    }
    Ok(())
}

/// A successful membership or threshold change permanently blocks every
/// transaction created before it: once the sequence number has moved on,
/// no identity can approve or execute such a transaction any more, however
/// many approvals it had collected — it can only be cancelled.
pub proof fn lemma_membership_change_blocks_existing(
    pre: Multisig,
    post: Multisig,
    transaction: Transaction,
)
    requires
        transaction.owner_set_seqno == pre.owner_set_seqno,
        post.owner_set_seqno == pre.owner_set_seqno + 1,
    ensures
        is_stale(post, transaction),
        forall|owner: Identity| !approve_allowed(post, transaction, owner),
        forall|executor: Identity| !execute_allowed(post, transaction, executor),
{
}

} // verus!
