//! Identities of the parties that interact with a multisig: owners,
//! proposers, executors, and the multisig's own delegated signer.
//!
//! An identity is a 256-bit key, held as four 64-bit words so that
//! equality is plain structural equality on integers.

use vstd::prelude::*;

verus! {

/// A 256-bit identity key, split into four little-endian 64-bit words.
#[derive(Clone, Copy, Debug, PartialEq, Eq, Structural)]
pub struct Identity {
    pub w0: u64,
    pub w1: u64,
    pub w2: u64,
    pub w3: u64,
}

impl Identity {
    /// Builds an identity from its four 64-bit words.
    pub fn new(w0: u64, w1: u64, w2: u64, w3: u64) -> (r: Identity)
        ensures
            r == (Identity { w0, w1, w2, w3 }),
    {
        Identity { w0, w1, w2, w3 }
    }
}

} // verus!
