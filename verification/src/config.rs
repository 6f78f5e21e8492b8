//! The multisig configuration: the owner set, the execution threshold, and
//! the owner-set sequence number that invalidates stale proposals.

use vstd::prelude::*;
use crate::errors::ErrorCode;
use crate::identity::Identity;

verus! {

/// No identity appears twice in `s`.
pub open spec fn unique_owners(s: Seq<Identity>) -> bool {
    forall|i: int, j: int| 0 <= i < j < s.len() ==> s[i] != s[j]
}

/// A multisig configuration. `owners` are the identities entitled to
/// propose, approve, execute and cancel; `threshold` is the number of
/// distinct approvals a transaction needs before it may execute;
/// `owner_set_seqno` counts the membership and threshold changes applied so
/// far, so that transactions created under an older owner set can be
/// recognized and refused; `nonce` is the bump seed under which the
/// multisig's delegated signer identity was derived.
#[derive(Debug)]
pub struct Multisig {
    pub owners: Vec<Identity>,
    pub threshold: u64,
    pub nonce: u8,
    pub owner_set_seqno: u32,
}

impl Multisig {
    /// The invariant every multisig holds from creation on: at least one
    /// owner, no duplicate owners, and a threshold between one and the
    /// number of owners.
    pub open spec fn wf(self) -> bool {
        &&& self.owners@.len() > 0
        &&& unique_owners(self.owners@)
        &&& 1 <= self.threshold <= self.owners@.len()
    }
}

/// Returns `Ok` exactly when no identity appears twice in `owners`.
pub(crate) fn assert_unique_owners(owners: &Vec<Identity>) -> (r: Result<(), ErrorCode>)
    ensures
        r is Ok <==> unique_owners(owners@),
        r is Err ==> r == Err::<(), ErrorCode>(ErrorCode::UniqueOwners),
{
    let n: usize = owners.len();
    let mut i: usize = 0;
    while i < n
        invariant
            n == owners@.len(),
            i <= n,
            forall|p: int, q: int| 0 <= p < q < n && p < i ==> owners@[p] != owners@[q],
        decreases n - i,
    {
        let mut j: usize = i + 1;
        while j < n
            invariant
                n == owners@.len(),
                i < n,
                i < j <= n,
                forall|q: int| i < q < j ==> owners@[i as int] != owners@[q],
            decreases n - j,
        {
            if owners[j] == owners[i] {
                proof {
                    assert(!unique_owners(owners@)) by {
                        assert(owners@[i as int] == owners@[j as int]);
                    }
                }
                return Err(ErrorCode::UniqueOwners);
            }
            j = j + 1;
        }
        i = i + 1;
    }
    Ok(())
}

/// Returns whether `k` is one of `owners`.
pub(crate) fn contains_identity(owners: &Vec<Identity>, k: Identity) -> (r: bool)
    ensures
        r == owners@.contains(k),
{
    let mut i: usize = 0;
    while i < owners.len()
        invariant
            i <= owners@.len(),
            forall|p: int| 0 <= p < i ==> owners@[p] != k,
        decreases owners@.len() - i,
    {
        if owners[i] == k {
            return true;
        }
        i = i + 1;
    }
    false
}

/// Returns the index of `k` in `owners`, or `None` when `k` is not an owner.
pub(crate) fn owner_index(owners: &Vec<Identity>, k: Identity) -> (r: Option<usize>)
    ensures
        r matches Some(i) ==> i < owners@.len() && owners@[i as int] == k,
        r is None <==> !owners@.contains(k),
{
    let mut i: usize = 0;
    while i < owners.len()
        invariant
            i <= owners@.len(),
            forall|p: int| 0 <= p < i ==> owners@[p] != k,
        decreases owners@.len() - i,
    {
        if owners[i] == k {
            return Some(i);
        }
        i = i + 1;
    }
    None
}

/// Creates a multisig guarded by `owners` with the given execution
/// `threshold`. Fails with `UniqueOwners` when an identity repeats, and with
/// `InvalidThreshold` when the threshold is not between one and the number
/// of owners; on success the sequence number starts at zero.
pub fn create_multisig(owners: Vec<Identity>, threshold: u64, nonce: u8) -> (r: Result<
    Multisig,
    ErrorCode,
>)
    ensures
        r is Ok <==> unique_owners(owners@) && 1 <= threshold <= owners@.len(),
        !unique_owners(owners@) ==> r == Err::<Multisig, ErrorCode>(ErrorCode::UniqueOwners),
        unique_owners(owners@) && !(1 <= threshold <= owners@.len()) ==> r == Err::<
            Multisig,
            ErrorCode,
        >(ErrorCode::InvalidThreshold),
        r matches Ok(m) ==> {
            &&& m.owners@ == owners@
            &&& m.threshold == threshold
            &&& m.nonce == nonce
            &&& m.owner_set_seqno == 0
            &&& m.wf()
        },
{
    match assert_unique_owners(&owners) {
        Err(e) => {
            return Err(e);
        },
        Ok(()) => {},
    }
    if !(threshold > 0 && threshold <= owners.len() as u64) {
        return Err(ErrorCode::InvalidThreshold);
    }
    if owners.len() == 0 {
        return Err(ErrorCode::NotEnoughOwners);
    }
    Ok(Multisig { owners, threshold, nonce, owner_set_seqno: 0 })
}

/// Replaces the owner set, clamping the threshold down to the new owner
/// count where it would otherwise exceed it, and bumps the sequence number,
/// which permanently blocks every transaction created before the change.
pub(crate) fn execute_set_owners(multisig: &mut Multisig, owners: Vec<Identity>) -> (r: Result<
    (),
    ErrorCode,
>)
    requires
        old(multisig).owner_set_seqno < u32::MAX,
    ensures
        r is Ok <==> unique_owners(owners@) && 0 < owners@.len() <= old(multisig).owners@.len(),
        !unique_owners(owners@) ==> r == Err::<(), ErrorCode>(ErrorCode::UniqueOwners),
        unique_owners(owners@) && owners@.len() == 0 ==> r == Err::<(), ErrorCode>(
            ErrorCode::NotEnoughOwners,
        ),
        unique_owners(owners@) && owners@.len() > old(multisig).owners@.len() ==> r == Err::<
            (),
            ErrorCode,
        >(ErrorCode::TooManyOwners),
        r is Err ==> *final(multisig) == *old(multisig),
        r is Ok ==> {
            &&& final(multisig).owners@ == owners@
            &&& final(multisig).owner_set_seqno == old(multisig).owner_set_seqno + 1
            &&& final(multisig).nonce == old(multisig).nonce
            &&& (owners@.len() < old(multisig).threshold ==> final(multisig).threshold
                == owners@.len())
            &&& (owners@.len() >= old(multisig).threshold ==> final(multisig).threshold == old(
                multisig,
            ).threshold)
        },
        old(multisig).wf() && r is Ok ==> final(multisig).wf(),
{
    match assert_unique_owners(&owners) {
        Err(e) => {
            return Err(e);
        },
        Ok(()) => {},
    }
    if owners.len() == 0 {
        return Err(ErrorCode::NotEnoughOwners);
    }
    if owners.len() > multisig.owners.len() {
        return Err(ErrorCode::TooManyOwners);
    }
    if (owners.len() as u64) < multisig.threshold {
        multisig.threshold = owners.len() as u64;
    }
    multisig.owners = owners;
    multisig.owner_set_seqno = multisig.owner_set_seqno + 1;
    Ok(())
}

/// Replaces the owner set through the governance path; see
/// [`execute_set_owners`] for the exact effect.
pub fn set_owners(multisig: &mut Multisig, owners: Vec<Identity>) -> (r: Result<(), ErrorCode>)
    requires
        old(multisig).owner_set_seqno < u32::MAX,
    ensures
        r is Ok <==> unique_owners(owners@) && 0 < owners@.len() <= old(multisig).owners@.len(),
        !unique_owners(owners@) ==> r == Err::<(), ErrorCode>(ErrorCode::UniqueOwners),
        unique_owners(owners@) && owners@.len() == 0 ==> r == Err::<(), ErrorCode>(
            ErrorCode::NotEnoughOwners,
        ),
        unique_owners(owners@) && owners@.len() > old(multisig).owners@.len() ==> r == Err::<
            (),
            ErrorCode,
        >(ErrorCode::TooManyOwners),
        r is Err ==> *final(multisig) == *old(multisig),
        r is Ok ==> {
            &&& final(multisig).owners@ == owners@
            &&& final(multisig).owner_set_seqno == old(multisig).owner_set_seqno + 1
            &&& final(multisig).nonce == old(multisig).nonce
            &&& (owners@.len() < old(multisig).threshold ==> final(multisig).threshold
                == owners@.len())
            &&& (owners@.len() >= old(multisig).threshold ==> final(multisig).threshold == old(
                multisig,
            ).threshold)
        },
        old(multisig).wf() && r is Ok ==> final(multisig).wf(),
{
    execute_set_owners(multisig, owners)
}

/// Validates and stores a new threshold without touching the sequence
/// number; the callers decide whether the change counts as a membership
/// change of its own.
pub(crate) fn execute_change_threshold(multisig: &mut Multisig, threshold: u64) -> (r: Result<
    (),
    ErrorCode,
>)
    ensures
        r is Ok <==> 1 <= threshold <= old(multisig).owners@.len(),
        r is Err ==> r == Err::<(), ErrorCode>(ErrorCode::InvalidThreshold) && *final(multisig)
            == *old(multisig),
        r is Ok ==> *final(multisig) == (Multisig { threshold, ..*old(multisig) }),
{
    if !(threshold > 0 && threshold <= multisig.owners.len() as u64) {
        return Err(ErrorCode::InvalidThreshold);
    }
    multisig.threshold = threshold;
    Ok(())
}

/// Changes the execution threshold. Fails with `InvalidThreshold` unless
/// the new threshold is between one and the number of owners; on success
/// the sequence number is bumped, so transactions created before the change
/// are permanently blocked.
pub fn change_threshold(multisig: &mut Multisig, threshold: u64) -> (r: Result<(), ErrorCode>)
    requires
        old(multisig).owner_set_seqno < u32::MAX,
    ensures
        r is Ok <==> 1 <= threshold <= old(multisig).owners@.len(),
        r is Err ==> r == Err::<(), ErrorCode>(ErrorCode::InvalidThreshold) && *final(multisig)
            == *old(multisig),
        r is Ok ==> {
            &&& final(multisig).threshold == threshold
            &&& final(multisig).owners@ == old(multisig).owners@
            &&& final(multisig).nonce == old(multisig).nonce
            &&& final(multisig).owner_set_seqno == old(multisig).owner_set_seqno + 1
        },
        old(multisig).wf() && r is Ok ==> final(multisig).wf(),
{
    match execute_change_threshold(multisig, threshold) {
        Err(e) => {
            return Err(e);
        },
        Ok(()) => {},
    }
    multisig.owner_set_seqno = multisig.owner_set_seqno + 1;
    Ok(())
}

/// Replaces the owner set and the threshold in one atomic governance step:
/// either both change and the sequence number is bumped exactly once, or
/// nothing changes at all. The new threshold is validated against the new
/// owner set.
pub fn set_owners_and_change_threshold(
    multisig: &mut Multisig,
    owners: Vec<Identity>,
    threshold: u64,
) -> (r: Result<(), ErrorCode>)
    requires
        old(multisig).owner_set_seqno < u32::MAX,
    ensures
        r is Ok <==> unique_owners(owners@) && 0 < owners@.len() <= old(multisig).owners@.len()
            && 1 <= threshold <= owners@.len(),
        !unique_owners(owners@) ==> r == Err::<(), ErrorCode>(ErrorCode::UniqueOwners),
        unique_owners(owners@) && owners@.len() == 0 ==> r == Err::<(), ErrorCode>(
            ErrorCode::NotEnoughOwners,
        ),
        unique_owners(owners@) && owners@.len() > old(multisig).owners@.len() ==> r == Err::<
            (),
            ErrorCode,
        >(ErrorCode::TooManyOwners),
        unique_owners(owners@) && 0 < owners@.len() <= old(multisig).owners@.len() && !(1
            <= threshold <= owners@.len()) ==> r == Err::<(), ErrorCode>(
            ErrorCode::InvalidThreshold,
        ),
        r is Err ==> *final(multisig) == *old(multisig),
        r is Ok ==> {
            &&& final(multisig).owners@ == owners@
            &&& final(multisig).threshold == threshold
            &&& final(multisig).nonce == old(multisig).nonce
            &&& final(multisig).owner_set_seqno == old(multisig).owner_set_seqno + 1
            &&& final(multisig).wf()
        },
{
    match assert_unique_owners(&owners) {
        Err(e) => {
            return Err(e);
        },
        Ok(()) => {},
    }
    if owners.len() == 0 {
        return Err(ErrorCode::NotEnoughOwners);
    }
    if owners.len() > multisig.owners.len() {
        return Err(ErrorCode::TooManyOwners);
    }
    if !(threshold > 0 && threshold <= owners.len() as u64) {
        return Err(ErrorCode::InvalidThreshold);
    }
    multisig.owners = owners;
    multisig.threshold = threshold;
    multisig.owner_set_seqno = multisig.owner_set_seqno + 1;
    Ok(())
}

} // verus!
