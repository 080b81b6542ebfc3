//! Scanning candidate outputs for those that belong to an identity.
//!
//! Outputs cannot be indexed by receiver: that is what makes them
//! unlinkable. A receiver tries every candidate in turn, so a scan costs
//! one recovery attempt for each candidate.

use crate::curve::{base_mul, point_decoding};
use crate::derive::{
    claimant_hash, claimant_one_time_key, derive_for_claimant, ClaimantRecovery,
};
use crate::encoding::group_order;
use crate::identity::{Identity, IdentityView};
use crate::point::PointWrapper;
use vstd::prelude::*;

verus! {

/// A ledger output that may belong to an identity, as the decoder of the
/// ledger's data hands it over: two undecoded points, the amount and a
/// reference into the ledger.
#[derive(Clone, Copy, Debug)]
pub struct CandidateOutput {
    pub ephemeral_pubkey: [u8; 32],
    pub one_time_pubkey: [u8; 32],
    pub amount: u64,
    pub ledger_reference: u64,
}

/// A candidate that belongs to the identity: its place in the scanned list
/// and what was recovered from it.
#[derive(Clone, Debug)]
pub struct ScanMatch {
    pub index: usize,
    pub recovery: ClaimantRecovery,
}

/// Whether a candidate belongs to an identity: both of its points decode,
/// and the one-time key that the identity reconstructs from the ephemeral
/// key is the published one.
pub open spec fn candidate_matches(identity: IdentityView, candidate: CandidateOutput) -> bool {
    match (
        point_decoding(candidate.ephemeral_pubkey@),
        point_decoding(candidate.one_time_pubkey@),
    ) {
        (Some(ephemeral), Some(one_time)) => claimant_one_time_key(identity, ephemeral)
            == one_time,
        _ => false,
    }
}

/// What is recovered from a candidate that belongs to an identity: the
/// hash of the shared point and the spend scalar, which opens the
/// candidate's one-time key.
pub open spec fn recovers(
    identity: IdentityView,
    candidate: CandidateOutput,
    recovery: ClaimantRecovery,
) -> bool {
    point_decoding(candidate.ephemeral_pubkey@) matches Some(ephemeral) && {
        &&& recovery.shared_secret_hash@ == claimant_hash(identity, ephemeral)
        &&& recovery.derived_spend_scalar@ == (identity.spend_sk + claimant_hash(
            identity,
            ephemeral,
        )) % group_order()
        &&& Some(base_mul(recovery.derived_spend_scalar@)) == point_decoding(
            candidate.one_time_pubkey@,
        )
    }
}

/// Whether a list of matches names the candidate at place `index`.
pub open spec fn names(found: Seq<ScanMatch>, index: int) -> bool {
    exists|k: int| 0 <= k < found.len() && #[trigger] found[k].index == index
}

/// Tries one candidate against an identity. A candidate whose points do
/// not decode belongs to nobody; that is no failure of the scan.
pub fn try_candidate(identity: &Identity, candidate: &CandidateOutput) -> (recovery: Option<
    ClaimantRecovery,
>)
    ensures
        recovery is Some <==> candidate_matches(identity@, *candidate),
        recovery matches Some(found) ==> recovers(identity@, *candidate, found),
{
    let ephemeral = match PointWrapper::from_bytes(candidate.ephemeral_pubkey) {
        Ok(point) => point,
        Err(_) => {
            return None;
        },
    };
    let one_time = match PointWrapper::from_bytes(candidate.one_time_pubkey) {
        Ok(point) => point,
        Err(_) => {
            return None;
        },
    };
    derive_for_claimant(identity, &one_time, &ephemeral)
}

/// Scans a list of candidates and returns those that belong to the
/// identity, in the order of the list, each with its place and its
/// recovery. Every candidate that belongs to the identity is returned, and
/// no other.
pub fn scan_candidates(identity: &Identity, candidates: &Vec<CandidateOutput>) -> (found: Vec<
    ScanMatch,
>)
    ensures
        forall|k: int|
            0 <= k < found@.len() ==> {
                &&& (#[trigger] found@[k]).index < candidates@.len()
                &&& candidate_matches(identity@, candidates@[found@[k].index as int])
                &&& recovers(identity@, candidates@[found@[k].index as int], found@[k].recovery)
            },
        forall|j: int, k: int|
            0 <= j < k < found@.len() ==> (#[trigger] found@[j]).index < (
            #[trigger] found@[k]).index,
        forall|i: int|
            0 <= i < candidates@.len() && candidate_matches(identity@, #[trigger] candidates@[i])
                ==> names(found@, i),
{
    let mut found: Vec<ScanMatch> = Vec::new();
    let mut i: usize = 0;
    while i < candidates.len()
        invariant
            i <= candidates@.len(),
            forall|k: int|
                0 <= k < found@.len() ==> {
                    &&& (#[trigger] found@[k]).index < i
                    &&& candidate_matches(identity@, candidates@[found@[k].index as int])
                    &&& recovers(
                        identity@,
                        candidates@[found@[k].index as int],
                        found@[k].recovery,
                    )
                },
            forall|j: int, k: int|
                0 <= j < k < found@.len() ==> (#[trigger] found@[j]).index < (
                #[trigger] found@[k]).index,
            forall|n: int|
                0 <= n < i && candidate_matches(identity@, #[trigger] candidates@[n]) ==> names(
                    found@,
                    n,
                ),
        decreases candidates@.len() - i,
    {
        let ghost before = found@;
        match try_candidate(identity, &candidates[i]) {
            Some(recovery) => {
                found.push(ScanMatch { index: i, recovery });
                proof {
                    let last = before.len() as int;
                    assert(found@[last].index == i);
                    assert(names(found@, i as int));
                    assert forall|n: int|
                        0 <= n < i && candidate_matches(
                            identity@,
                            #[trigger] candidates@[n],
                        ) implies names(found@, n) by {
                        let k = choose|k: int|
                            0 <= k < before.len() && #[trigger] before[k].index == n;
                        assert(found@[k].index == n);
                    }
                }
            },
            None => {},
        }
        i = i + 1;
    }
    found
}

} // verus!
