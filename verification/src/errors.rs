//! The error taxonomy of the multisig core.

use vstd::prelude::*;

verus! {

/// Every way a multisig operation can be rejected. The configuration errors
/// (`InvalidThreshold`, `NotEnoughOwners`, `TooManyOwners`, `UniqueOwners`)
/// leave the configuration untouched; the authorization errors
/// (`InvalidOwner`, `InvalidExecutor`) and the quorum error
/// (`NotEnoughSigners`) leave all state unchanged; `StaleTransaction` rejects
/// an operation on a proposal created under an older owner set.
#[derive(Clone, Copy, Debug, PartialEq, Eq, Structural)]
pub enum ErrorCode {
    /// The given owner is not part of this multisig.
    InvalidOwner,
    /// Owners length must be non zero.
    NotEnoughOwners,
    /// The number of owners cannot be increased.
    TooManyOwners,
    /// Not enough owners signed this transaction.
    NotEnoughSigners,
    /// Cannot delete a transaction that has been signed by an owner.
    TransactionAlreadySigned,
    /// Overflow when adding.
    Overflow,
    /// Cannot delete a transaction the owner did not create.
    UnableToDelete,
    /// The given transaction has already been executed.
    AlreadyExecuted,
    /// Threshold must be less than or equal to the number of owners and
    /// greater than zero.
    InvalidThreshold,
    /// Owners must be unique.
    UniqueOwners,
    /// Executor is not a multisig owner.
    InvalidExecutor,
    /// Failed to close the transaction account and refund its rent.
    AccountCloseFailed,
    /// The number of instructions must be greater than zero.
    MissingInstructions,
    /// The transaction was created under an older owner set and can no
    /// longer be approved or executed, only cancelled.
    StaleTransaction,
}

impl ErrorCode {
    /// A short human-readable description of the error.
    pub fn message(&self) -> String {
        match self {
            ErrorCode::InvalidOwner => "The given owner is not part of this multisig.".to_string(),
            ErrorCode::NotEnoughOwners => "Owners length must be non zero.".to_string(),
            ErrorCode::TooManyOwners => "The number of owners cannot be increased.".to_string(),
            ErrorCode::NotEnoughSigners => "Not enough owners signed this transaction.".to_string(),
            ErrorCode::TransactionAlreadySigned => "Cannot delete a transaction that has been signed by an owner.".to_string(),
            ErrorCode::Overflow => "Overflow when adding.".to_string(),
            ErrorCode::UnableToDelete => "Cannot delete a transaction the owner did not create.".to_string(),
            ErrorCode::AlreadyExecuted => "The given transaction has already been executed.".to_string(),
            ErrorCode::InvalidThreshold => "Threshold must be less than or equal to the number of owners and greater than zero.".to_string(),
            ErrorCode::UniqueOwners => "Owners must be unique.".to_string(),
            ErrorCode::InvalidExecutor => "Executor is not a multisig owner.".to_string(),
            ErrorCode::AccountCloseFailed => "Failed to close transaction account and refund rent-exemption SOL.".to_string(),
            ErrorCode::MissingInstructions => "The number of instructions must be greater than zero.".to_string(),
            ErrorCode::StaleTransaction => "The owner set has changed since this transaction was created.".to_string(),
        }
    }
}

} // verus!
