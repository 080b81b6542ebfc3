//! The derivation engine: one-time keys for a receiver, and their recovery.
//!
//! A sender draws an ephemeral scalar `r` and publishes `R = r·G` together
//! with the one-time key `P = A + h·G`, where `A` is the receiver's public
//! spend point, `h` the hash of the shared point `r·V` and `V` the
//! receiver's public view point. The receiver, who knows the view scalar
//! `v`, computes the same shared point as `v·R`, hence the same `h`, and
//! recognises `P`. The spend scalar `a + h` then opens `P`.

use crate::curve::{base_mul, point_mul, point_sum};
use crate::digest::{sha512, sha512_digest};
use crate::encoding::{group_order, le_value};
use crate::identity::{Identity, IdentityView};
use crate::point::PointWrapper;
use crate::scalar::ScalarWrapper;
use rand_core::{CryptoRng, RngCore};
use vstd::prelude::*;

verus! {

/// The scalar that a 64-byte digest stands for: the number in its first 32
/// bytes, reduced modulo the group order.
pub open spec fn digest_scalar(digest: Seq<u8>) -> nat {
    le_value(digest.subrange(0, 32)) % group_order()
}

/// The scalar that a byte string hashes to: that of its SHA-512 digest.
pub open spec fn hash_scalar(input: Seq<u8>) -> nat {
    digest_scalar(sha512_digest(input))
}

/// The one-time key for a public spend point and a shared point: the spend
/// point plus the hash of the shared point times the base point.
pub open spec fn one_time_key(spend_pk: Seq<u8>, shared: Seq<u8>) -> Seq<u8> {
    point_sum(spend_pk, base_mul(hash_scalar(shared)))
}

/// The one-time key that a sender with ephemeral scalar `r` derives for an
/// identity.
pub open spec fn initiator_one_time_key(identity: IdentityView, r: nat) -> Seq<u8> {
    one_time_key(identity.spend_pk, point_mul(identity.view_pk, r))
}

/// The hash scalar that a receiver computes for a published ephemeral key.
pub open spec fn claimant_hash(identity: IdentityView, ephemeral_pubkey: Seq<u8>) -> nat {
    hash_scalar(point_mul(ephemeral_pubkey, identity.view_sk))
}

/// The one-time key that a receiver reconstructs for a published ephemeral
/// key.
pub open spec fn claimant_one_time_key(identity: IdentityView, ephemeral_pubkey: Seq<u8>) -> Seq<
    u8,
> {
    point_sum(identity.spend_pk, base_mul(claimant_hash(identity, ephemeral_pubkey)))
}

/// Whether a published output matches an identity: whether the one-time
/// key that the identity reconstructs from the ephemeral key is the
/// published one.
pub open spec fn claimant_matches(
    identity: IdentityView,
    one_time_pubkey: Seq<u8>,
    ephemeral_pubkey: Seq<u8>,
) -> bool {
    claimant_one_time_key(identity, ephemeral_pubkey) == one_time_pubkey
}

/// An output derived for one identity is no match for another identity,
/// unless that identity reconstructs the very same one-time key from the
/// ephemeral key. Keys that differ in either half reconstruct the same
/// key only by a collision, which the scheme counts on not to happen.
pub proof fn lemma_foreign_output_is_rejected(owner: IdentityView, other: IdentityView, r: nat)
    requires
        claimant_one_time_key(other, base_mul(r)) != initiator_one_time_key(owner, r),
    ensures
        !claimant_matches(other, initiator_one_time_key(owner, r), base_mul(r)),
{
}

/// What a sender publishes for one payment. Both points are public; neither
/// gives away anything of the receiver's secrets.
#[derive(Clone, Debug)]
pub struct InitiatorOutput {
    pub one_time_pubkey: PointWrapper,
    pub ephemeral_pubkey: PointWrapper,
}

/// What a receiver recovers from an output that belongs to it: the hash of
/// the shared point and the secret scalar that opens the one-time key.
#[derive(Clone, Debug)]
pub struct ClaimantRecovery {
    pub shared_secret_hash: ScalarWrapper,
    pub derived_spend_scalar: ScalarWrapper,
}

/// Turns a 64-byte digest into a scalar: the first 32 bytes, read as a
/// little-endian number and reduced modulo the group order.
pub fn scalar_from_digest(digest: &[u8; 64]) -> (scalar: ScalarWrapper)
    ensures
        scalar@ == digest_scalar(digest@),
{
    let mut low = [0u8; 32];
    let mut i: usize = 0;
    while i < 32
        invariant
            i <= 32,
            forall|j: int| 0 <= j < i ==> low@[j] == digest@[j],
        decreases 32 - i,
    {
        low[i] = digest[i];
        i = i + 1;
    }
    assert(low@ =~= digest@.subrange(0, 32));
    ScalarWrapper::from_bytes(low)
}

/// Hashes a byte string to a scalar.
pub fn hash_to_scalar(input: &[u8]) -> (scalar: ScalarWrapper)
    ensures
        scalar@ == hash_scalar(input@),
{
    let digest = sha512(input);
    scalar_from_digest(&digest)
}

/// Derives the output for one payment to a receiver of whom only the two
/// public points are known, from a given ephemeral scalar. This is what a
/// sender does: it needs none of the receiver's secrets.
pub fn derive_for_public_keys(
    spend_pk: &PointWrapper,
    view_pk: &PointWrapper,
    ephemeral_scalar: &ScalarWrapper,
) -> (output: InitiatorOutput)
    ensures
        output.ephemeral_pubkey@ == base_mul(ephemeral_scalar@),
        output.one_time_pubkey@ == one_time_key(spend_pk@, point_mul(view_pk@, ephemeral_scalar@)),
{
    let ephemeral_pubkey = PointWrapper::mul_base(ephemeral_scalar);
    let shared_secret_point = view_pk.scaled(ephemeral_scalar);
    let shared_secret_bytes = shared_secret_point.to_bytes();
    let shared_secret_hash = hash_to_scalar(shared_secret_bytes.as_slice());
    let blinding = PointWrapper::mul_base(&shared_secret_hash);
    let one_time_pubkey = spend_pk.plus(&blinding);
    InitiatorOutput { one_time_pubkey, ephemeral_pubkey }
}

/// Derives the output for one payment to `identity` from a given ephemeral
/// scalar. Only the identity's public points are read.
pub fn derive_for_initiator_with(identity: &Identity, ephemeral_scalar: &ScalarWrapper) -> (output:
    InitiatorOutput)
    ensures
        output.ephemeral_pubkey@ == base_mul(ephemeral_scalar@),
        output.one_time_pubkey@ == initiator_one_time_key(identity@, ephemeral_scalar@),
{
    let spend_pk = identity.initiator_spend_pk();
    let view_pk = identity.initiator_view_pk();
    derive_for_public_keys(&spend_pk, &view_pk, ephemeral_scalar)
}

/// Derives the output for one payment to `identity`: draws a fresh
/// ephemeral scalar from `rng`, which the caller vouches to be a
/// cryptographically secure source, and derives the output from it.
/// Whatever scalar was drawn, the output is the one that belongs to it.
pub fn derive_for_initiator<R: RngCore + CryptoRng>(identity: &Identity, rng: &mut R) -> (output:
    InitiatorOutput)
    ensures
        exists|r: nat|
            r < group_order() && output.ephemeral_pubkey@ == #[trigger] base_mul(r)
                && output.one_time_pubkey@ == initiator_one_time_key(identity@, r),
{
    let ephemeral_scalar = ScalarWrapper::random(rng);
    let output = derive_for_initiator_with(identity, &ephemeral_scalar);
    proof {
        let r = ephemeral_scalar@;
        assert(output.ephemeral_pubkey@ == base_mul(r));
    }
    output
}

/// Tests whether a published output belongs to `identity` and, if it does,
/// recovers the scalar that opens it.
///
/// The output matches exactly when the one-time key that the receiver
/// reconstructs from the ephemeral key is the published one. A mismatch is
/// the common outcome of a scan and is reported as `None`.
///
/// Two laws hold beyond that. A recovered spend scalar opens the one-time
/// key: the scalar times the base point is that key. And an output that a
/// sender derived for this identity, from whatever ephemeral scalar `r`
/// below the group order, always matches.
pub fn derive_for_claimant(
    identity: &Identity,
    one_time_pubkey: &PointWrapper,
    ephemeral_pubkey: &PointWrapper,
) -> (recovery: Option<ClaimantRecovery>)
    ensures
        recovery is Some <==> claimant_matches(identity@, one_time_pubkey@, ephemeral_pubkey@),
        recovery matches Some(found) ==> {
            &&& found.shared_secret_hash@ == claimant_hash(identity@, ephemeral_pubkey@)
            &&& found.derived_spend_scalar@ == (identity@.spend_sk + claimant_hash(
                identity@,
                ephemeral_pubkey@,
            )) % group_order()
            &&& base_mul(found.derived_spend_scalar@) == one_time_pubkey@
        },
        forall|r: nat|
            r < group_order() && ephemeral_pubkey@ == #[trigger] base_mul(r) && one_time_pubkey@
                == initiator_one_time_key(identity@, r) ==> recovery is Some,
{
    let recovered_shared_point = ephemeral_pubkey.scaled(identity.initiator_view_sk());
    let recovered_shared_bytes = recovered_shared_point.to_bytes();
    let recovered_shared_hash = hash_to_scalar(recovered_shared_bytes.as_slice());
    let blinding = PointWrapper::mul_base(&recovered_shared_hash);
    let reconstructed_pubkey = identity.initiator_spend_pk().plus(&blinding);
    if reconstructed_pubkey.same_as(one_time_pubkey) {
        let derived_scalar = identity.initiator_spend_sk().plus(&recovered_shared_hash);
        Some(
            ClaimantRecovery {
                shared_secret_hash: recovered_shared_hash,
                derived_spend_scalar: derived_scalar,
            },
        )
    } else {
        None
    }
}

} // verus!
