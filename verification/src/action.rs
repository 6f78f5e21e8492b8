//! Actions that a multisig can execute: an instruction names a target
//! program, the accounts the target expects, and an opaque payload.
//!
//! The core never interprets the payload. Its one piece of instruction
//! logic is the delegated-signer rewrite that runs just before dispatch:
//! every account whose key equals the multisig's own delegated signer is
//! marked as a signer, so that the configuration itself authorizes the
//! instruction once quorum has been reached.

use vstd::prelude::*;
use crate::identity::Identity;

verus! {

/// Metadata for one account that an instruction's target program expects.
#[derive(Clone, Copy, Debug, PartialEq, Eq, Structural)]
pub struct TransactionAccount {
    /// The account's key.
    pub pubkey: Identity,
    /// Whether the account must sign the instruction.
    pub is_signer: bool,
    /// Whether the target program may write to the account.
    pub is_writable: bool,
}

/// One instruction of a proposed transaction.
#[derive(Clone, Debug)]
pub struct TransactionInstruction {
    /// Key of the program that executes this instruction.
    pub program_id: Identity,
    /// Metadata describing accounts that should be passed to the program.
    pub accounts: Vec<TransactionAccount>,
    /// Opaque data passed to the program for its own interpretation.
    pub data: Vec<u8>,
}

/// The delegated-signer rewrite of one account: the signer bit is turned on
/// exactly where the account's key is the multisig's delegated signer.
pub open spec fn resolve_account_spec(a: TransactionAccount, signer: Identity) -> TransactionAccount {
    TransactionAccount {
        pubkey: a.pubkey,
        is_signer: a.is_signer || a.pubkey == signer,
        is_writable: a.is_writable,
    }
}

/// `res` is `orig` with the delegated-signer rewrite applied to every
/// account; program id and payload are untouched.
pub open spec fn instruction_resolved(orig: TransactionInstruction, res: TransactionInstruction, signer: Identity) -> bool {
    &&& res.program_id == orig.program_id
    &&& res.data@ == orig.data@
    &&& res.accounts@.len() == orig.accounts@.len()
    &&& forall|j: int|
        0 <= j < orig.accounts@.len() ==> res.accounts@[j] == resolve_account_spec(
            orig.accounts@[j],
            signer,
        )
}

/// Applies the delegated-signer rewrite to one account.
pub fn resolve_account(a: &TransactionAccount, signer: Identity) -> (r: TransactionAccount)
    ensures
        r == resolve_account_spec(*a, signer),
{
    TransactionAccount {
        pubkey: a.pubkey,
        is_signer: a.is_signer || a.pubkey == signer,
        is_writable: a.is_writable,
    }
}

/// Applies the delegated-signer rewrite to every account of an instruction,
/// leaving program id and payload as they are.
pub fn resolve_instruction(ix: &TransactionInstruction, signer: Identity) -> (r: TransactionInstruction)
    ensures
        instruction_resolved(*ix, r, signer),
{
    let mut accounts: Vec<TransactionAccount> = Vec::new();
    let mut j: usize = 0;
    while j < ix.accounts.len()
        invariant
            j <= ix.accounts.len(),
            accounts@.len() == j,
            forall|k: int|
                0 <= k < j ==> accounts@[k] == resolve_account_spec(ix.accounts@[k], signer),
        decreases ix.accounts.len() - j,
    {
        let resolved = resolve_account(&ix.accounts[j], signer);
        accounts.push(resolved);
        j = j + 1;
    }
    let mut data: Vec<u8> = Vec::new();
    let mut k: usize = 0;
    while k < ix.data.len()
        invariant
            k <= ix.data.len(),
            data@ == ix.data@.subrange(0, k as int),
        decreases ix.data.len() - k,
    {
        data.push(ix.data[k]);
        k = k + 1;
        proof {
            assert(data@ =~= ix.data@.subrange(0, k as int));
        }
    }
    proof {
        assert(data@ =~= ix.data@);
    }
    TransactionInstruction { program_id: ix.program_id, accounts, data }
}

} // verus!
