//! Core of a quorum-gated multisig: a set of owners collectively guards the
//! right to execute arbitrary actions. No action runs unless a threshold-sized
//! quorum of owners has approved it, and membership changes themselves travel
//! through the same quorum pipeline.
//!
//! The crate holds the authorization state machine only: configuration
//! ([`config::Multisig`]), proposal lifecycle ([`proposal::Transaction`],
//! approval collection, execution and cancellation), and the
//! sequence-number guard that invalidates proposals created under an older
//! owner set. Dispatching an approved instruction to its target program, and
//! account allocation, are left to the surrounding runtime.

pub mod action;
pub mod config;
pub mod engine;
pub mod errors;
pub mod identity;
pub mod proposal;

pub use action::TransactionAccount;
pub use action::TransactionInstruction;
pub use config::Multisig;
pub use errors::ErrorCode;
pub use identity::Identity;
pub use proposal::Transaction;
