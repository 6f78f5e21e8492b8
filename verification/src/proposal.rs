//! Proposals ("transactions"): one pending request to execute a list of
//! instructions, with one approval bit per owner slot of the configuration
//! as it stood when the proposal was created.

use vstd::prelude::*;
use vstd::pervasive::VecAdditionalExecFns;
use crate::action::TransactionInstruction;
use crate::config::Multisig;
use crate::config::contains_identity;
use crate::config::owner_index;
use crate::config::unique_owners;
use crate::errors::ErrorCode;
use crate::identity::Identity;

verus! {

/// A proposed transaction. `multisig` names the configuration it belongs
/// to; `signers[i]` is true exactly when the owner that sat at slot `i` of
/// the configuration, at the time the proposal was created, has approved;
/// `owner_set_seqno` is the configuration's sequence number at creation,
/// and an operation on the proposal is allowed only while it still matches.
#[derive(Debug)]
pub struct Transaction {
    pub multisig: Identity,
    pub instructions: Vec<TransactionInstruction>,
    pub signers: Vec<bool>,
    pub owner_set_seqno: u32,
}

/// The number of true bits in `s`: how many owners have approved.
pub open spec fn count_true(s: Seq<bool>) -> int
    decreases s.len(),
{
    if s.len() == 0 {
        0
    } else {
        count_true(s.drop_last()) + if s.last() {
            1int
        } else {
            0int
        }
    }
}

/// Counting one more slot adds one exactly when that slot is set.
pub proof fn lemma_count_true_take_step(s: Seq<bool>, i: int)
    requires
        0 <= i < s.len(),
    ensures
        count_true(s.take(i + 1)) == count_true(s.take(i)) + if s[i] {
            1int
        } else {
            0int
        },
{
    assert(s.take(i + 1).drop_last() =~= s.take(i));
    assert(s.take(i + 1).last() == s[i]);
}

/// Turning bits on can only raise the count: where `t` is true everywhere
/// `s` is, `t` has at least as many true bits.
pub proof fn lemma_count_true_pointwise_mono(s: Seq<bool>, t: Seq<bool>)
    requires
        s.len() == t.len(),
        forall|j: int| 0 <= j < s.len() && s[j] ==> t[j],
    ensures
        count_true(s) <= count_true(t),
    decreases s.len(),
{
    if s.len() > 0 {
        lemma_count_true_pointwise_mono(s.drop_last(), t.drop_last());
    }
}

/// Counts how many owners have approved.
pub fn count_signers(signers: &Vec<bool>) -> (r: usize)
    ensures
        r == count_true(signers@),
{
    let mut count: usize = 0;
    let mut i: usize = 0;
    while i < signers.len()
        invariant
            i <= signers@.len(),
            count == count_true(signers@.take(i as int)),
            count <= i,
        decreases signers@.len() - i,
    {
        proof {
            lemma_count_true_take_step(signers@, i as int);
        }
        if signers[i] {
            count = count + 1;
        }
        i = i + 1;
    }
    proof {
        assert(signers@.take(signers@.len() as int) =~= signers@);
    }
    count
}

/// The approval bits after `owner` approves: every slot where `owners`
/// holds `owner` is set, all other slots keep their bit.
pub open spec fn apply_approval(signers: Seq<bool>, owners: Seq<Identity>, owner: Identity) -> Seq<
    bool,
> {
    Seq::new(signers.len(), |j: int| signers[j] || owners[j] == owner)
}

/// Approving is idempotent: recording the same owner's approval a second
/// time leaves the approval bits exactly as the first recording did.
pub proof fn lemma_approve_idempotent(signers: Seq<bool>, owners: Seq<Identity>, owner: Identity)
    ensures
        apply_approval(apply_approval(signers, owners, owner), owners, owner) == apply_approval(
            signers,
            owners,
            owner,
        ),
{
    assert(apply_approval(apply_approval(signers, owners, owner), owners, owner) =~= apply_approval(
        signers,
        owners,
        owner,
    ));
}

/// Creates a proposal against `multisig` (whose own identity is
/// `multisig_key`). Fails with `MissingInstructions` when `instructions` is
/// empty and with `InvalidOwner` when the proposer is not a current owner;
/// on success every approval bit starts false except the proposer's own,
/// and the configuration's current sequence number is captured.
pub fn create_transaction(
    multisig: &Multisig,
    multisig_key: Identity,
    proposer: Identity,
    instructions: Vec<TransactionInstruction>,
) -> (r: Result<Transaction, ErrorCode>)
    requires
        multisig.wf(),
    ensures
        r is Ok <==> instructions@.len() > 0 && multisig.owners@.contains(proposer),
        instructions@.len() == 0 ==> (r matches Err(e) && e == ErrorCode::MissingInstructions),
        instructions@.len() > 0 && !multisig.owners@.contains(proposer) ==> (r matches Err(e) && e
            == ErrorCode::InvalidOwner),
        r matches Ok(tx) ==> {
            &&& tx.multisig == multisig_key
            &&& tx.owner_set_seqno == multisig.owner_set_seqno
            &&& tx.instructions@ == instructions@
            &&& tx.signers@.len() == multisig.owners@.len()
            &&& forall|j: int|
                0 <= j < multisig.owners@.len() ==> tx.signers@[j] == (multisig.owners@[j]
                    == proposer)
        },
{
    if instructions.len() == 0 {
        return Err(ErrorCode::MissingInstructions);
    }
    if !contains_identity(&multisig.owners, proposer) {
        return Err(ErrorCode::InvalidOwner);
    }
    let mut signers: Vec<bool> = Vec::new();
    let mut j: usize = 0;
    while j < multisig.owners.len()
        invariant
            j <= multisig.owners@.len(),
            signers@.len() == j,
            forall|p: int| 0 <= p < j ==> signers@[p] == (multisig.owners@[p] == proposer),
        decreases multisig.owners@.len() - j,
    {
        signers.push(multisig.owners[j] == proposer);
        j = j + 1;
    }
    Ok(
        Transaction {
            multisig: multisig_key,
            instructions,
            signers,
            owner_set_seqno: multisig.owner_set_seqno,
        },
    )
}

/// A transaction is stale when the configuration's owner set has changed
/// since the transaction was created.
pub open spec fn is_stale(multisig: Multisig, transaction: Transaction) -> bool {
    transaction.owner_set_seqno != multisig.owner_set_seqno
}

/// `approve` records a bit exactly when the transaction is not stale and
/// the approving identity is a current owner.
pub open spec fn approve_allowed(
    multisig: Multisig,
    transaction: Transaction,
    owner: Identity,
) -> bool {
    &&& !is_stale(multisig, transaction)
    &&& multisig.owners@.contains(owner)
}

/// Records `owner`'s approval on a transaction. Fails with
/// `StaleTransaction` when the owner set has changed since the transaction
/// was created, and with `InvalidOwner` when `owner` is not a current
/// owner. Re-approving is idempotent, and the approval count never goes
/// down.
pub fn approve(multisig: &Multisig, transaction: &mut Transaction, owner: Identity) -> (r: Result<
    (),
    ErrorCode,
>)
    requires
        multisig.wf(),
        old(transaction).owner_set_seqno == multisig.owner_set_seqno ==> old(
            transaction,
        ).signers@.len() == multisig.owners@.len(),
    ensures
        r is Ok <==> approve_allowed(*multisig, *old(transaction), owner),
        is_stale(*multisig, *old(transaction)) ==> (r matches Err(e) && e
            == ErrorCode::StaleTransaction),
        !is_stale(*multisig, *old(transaction)) && !multisig.owners@.contains(owner) ==> (
        r matches Err(e) && e == ErrorCode::InvalidOwner),
        r is Err ==> *final(transaction) == *old(transaction),
        r is Ok ==> {
            &&& final(transaction).signers@ == apply_approval(
                old(transaction).signers@,
                multisig.owners@,
                owner,
            )
            &&& final(transaction).multisig == old(transaction).multisig
            &&& final(transaction).instructions@ == old(transaction).instructions@
            &&& final(transaction).owner_set_seqno == old(transaction).owner_set_seqno
        },
        count_true(final(transaction).signers@) >= count_true(old(transaction).signers@),
{
    if transaction.owner_set_seqno != multisig.owner_set_seqno {
        return Err(ErrorCode::StaleTransaction);
    }
    let idx: usize = match owner_index(&multisig.owners, owner) {
        Some(i) => i,
        None => {
            return Err(ErrorCode::InvalidOwner);
        },
    };
    let ghost before = transaction.signers@;
    transaction.signers.set(idx, true);
    proof {
        assert(transaction.signers@ =~= apply_approval(before, multisig.owners@, owner)) by {
            assert(forall|j: int|
                0 <= j < before.len() && j != idx ==> multisig.owners@[j] != owner) by {
                assert(unique_owners(multisig.owners@));
            }
        }
        lemma_count_true_pointwise_mono(before, transaction.signers@);
    }
    Ok(())
}

} // verus!
