//! The boundary to `curve25519-dalek`.
//!
//! Points cross this boundary as their canonical 32-byte compressed
//! encodings and scalars as canonical 32-byte little-endian numbers. The
//! functions below call the curve arithmetic; Verus does not look inside
//! them and takes their contracts on trust. Scalar arithmetic is stated in
//! full, as arithmetic modulo the group order. Point arithmetic is not
//! written out: its results are named by the spec functions `point_decoding`,
//! `point_mul` and `point_sum`, of which the contracts state only the few
//! group laws that the derivation scheme rests on.

use crate::encoding::{group_order, le_value};
use curve25519_dalek::constants::ED25519_BASEPOINT_POINT;
use curve25519_dalek::edwards::CompressedEdwardsY;
use curve25519_dalek::scalar::Scalar;
use rand_core::{CryptoRng, RngCore};
use vstd::prelude::*;

verus! {

/// What `CompressedEdwardsY::decompress` followed by `EdwardsPoint::compress`
/// gives for 32 bytes: the canonical encoding of the point that the bytes
/// decode to, or `None` where they decode to no point of the curve.
pub uninterp spec fn point_decoding(bytes: Seq<u8>) -> Option<Seq<u8>>;

/// The canonical encoding of `scalar` times the point that `point` encodes,
/// as the `*` of an `EdwardsPoint` and a `Scalar` computes it.
pub uninterp spec fn point_mul(point: Seq<u8>, scalar: nat) -> Seq<u8>;

/// The canonical encoding of the sum of the points that `p` and `q` encode,
/// as the `+` of two `EdwardsPoint`s computes it.
pub uninterp spec fn point_sum(p: Seq<u8>, q: Seq<u8>) -> Seq<u8>;

/// The canonical encoding of the Ed25519 base point: the number 4/5 modulo
/// 2^255 - 19 in little-endian order, with a clear sign bit.
pub open spec fn basepoint() -> Seq<u8> {
    seq![
        0x58u8, 0x66, 0x66, 0x66, 0x66, 0x66, 0x66, 0x66,
        0x66, 0x66, 0x66, 0x66, 0x66, 0x66, 0x66, 0x66,
        0x66, 0x66, 0x66, 0x66, 0x66, 0x66, 0x66, 0x66,
        0x66, 0x66, 0x66, 0x66, 0x66, 0x66, 0x66, 0x66,
    ]
}

/// A canonical point encoding: 32 bytes that decode to a point whose
/// encoding they are.
pub open spec fn is_point(bytes: Seq<u8>) -> bool {
    bytes.len() == 32 && point_decoding(bytes) == Some(bytes)
}

/// The canonical encoding of `scalar` times the base point.
pub open spec fn base_mul(scalar: nat) -> Seq<u8> {
    point_mul(basepoint(), scalar)
}

/// A canonical scalar encoding: 32 bytes whose number is below the group order.
pub open spec fn is_scalar(bytes: Seq<u8>) -> bool {
    bytes.len() == 32 && le_value(bytes) < group_order()
}

/// Encoding and decoding undo each other on canonical encodings: such an
/// encoding decodes to a point, and the point's encoding is the encoding
/// that was decoded.
pub proof fn lemma_canonical_encoding_round_trip(bytes: Seq<u8>)
    requires
        is_point(bytes),
    ensures
        point_decoding(bytes) is Some,
        point_decoding(bytes)->Some_0 == bytes,
{
}

/// What decodes at all decodes to a canonical encoding or is refused:
/// bytes that are a canonical encoding are never refused.
pub proof fn lemma_refused_bytes_are_no_point(bytes: Seq<u8>)
    requires
        point_decoding(bytes) is None,
    ensures
        !is_point(bytes),
{
}

/// Calls `Scalar::from_bytes_mod_order`, which reduces a 256-bit
/// little-endian number modulo the group order, and returns the bytes of
/// the reduced scalar.
#[verifier::external_body]
pub(crate) fn scalar_reduce(bytes: &[u8; 32]) -> (reduced: [u8; 32])
    ensures
        le_value(reduced@) == le_value(bytes@) % group_order(),
{
    Scalar::from_bytes_mod_order(*bytes).to_bytes()
}

/// Calls `Scalar::from_bytes_mod_order_wide`, which reduces a 512-bit
/// little-endian number modulo the group order, and returns the bytes of
/// the reduced scalar.
#[verifier::external_body]
pub(crate) fn scalar_reduce_wide(bytes: &[u8; 64]) -> (reduced: [u8; 32])
    ensures
        le_value(reduced@) == le_value(bytes@) % group_order(),
{
    Scalar::from_bytes_mod_order_wide(bytes).to_bytes()
}

/// Calls `Scalar::random`, which draws 64 bytes from `rng` and reduces them
/// modulo the group order. Nothing is claimed of which scalar comes out,
/// only that it is reduced.
#[verifier::external_body]
pub(crate) fn scalar_random<R: RngCore + CryptoRng>(rng: &mut R) -> (drawn: [u8; 32])
    ensures
        le_value(drawn@) < group_order(),
{
    Scalar::random(rng).to_bytes()
}

/// Calls the `+` of two `Scalar`s: addition modulo the group order.
#[verifier::external_body]
pub(crate) fn scalar_add(a: &[u8; 32], b: &[u8; 32]) -> (sum: [u8; 32])
    requires
        is_scalar(a@),
        is_scalar(b@),
    ensures
        le_value(sum@) == (le_value(a@) + le_value(b@)) % group_order(),
{
    (Scalar::from_bytes_mod_order(*a) + Scalar::from_bytes_mod_order(*b)).to_bytes()
}

/// Calls the `*` of two `Scalar`s: multiplication modulo the group order.
#[verifier::external_body]
pub(crate) fn scalar_mul(a: &[u8; 32], b: &[u8; 32]) -> (product: [u8; 32])
    requires
        is_scalar(a@),
        is_scalar(b@),
    ensures
        le_value(product@) == (le_value(a@) * le_value(b@)) % group_order(),
{
    (Scalar::from_bytes_mod_order(*a) * Scalar::from_bytes_mod_order(*b)).to_bytes()
}

/// Calls `CompressedEdwardsY::decompress` and, on a point, `compress`. The
/// result is the canonical encoding of the decoded point; decoding that
/// encoding gives the same point again.
#[verifier::external_body]
pub(crate) fn point_decode(bytes: &[u8; 32]) -> (decoded: Option<[u8; 32]>)
    ensures
        decoded is Some <==> point_decoding(bytes@) is Some,
        decoded matches Some(canonical) ==> point_decoding(bytes@) == Some(canonical@)
            && is_point(canonical@),
{
    match CompressedEdwardsY(*bytes).decompress() {
        Some(point) => Some(point.compress().to_bytes()),
        None => None,
    }
}

/// Compresses the constant `ED25519_BASEPOINT_POINT`. The crate documents
/// the bytes of that encoding; they are a canonical point encoding.
#[verifier::external_body]
pub(crate) fn basepoint_bytes() -> (encoding: [u8; 32])
    ensures
        encoding@ == basepoint(),
        is_point(encoding@),
{
    ED25519_BASEPOINT_POINT.compress().to_bytes()
}

/// Calls the `*` of an `EdwardsPoint` and a `Scalar`, on the point that
/// `point` decodes to, and compresses the product.
///
/// Besides naming the product, the contract states one group law: scalar
/// multiplications commute, so multiplying `j` times the base point by `k`
/// gives what multiplying `k` times the base point by `j` gives, for
/// scalars `j` below the group order.
#[verifier::external_body]
pub(crate) fn point_scalar_mul(point: &[u8; 32], scalar: &[u8; 32]) -> (product: [u8; 32])
    requires
        is_point(point@),
        is_scalar(scalar@),
    ensures
        product@ == point_mul(point@, le_value(scalar@)),
        is_point(product@),
        forall|j: nat|
            j < group_order() && point@ == #[trigger] base_mul(j) ==> product@ == point_mul(
                base_mul(le_value(scalar@)),
                j,
            ),
{
    let decoded = CompressedEdwardsY(*point).decompress().unwrap();
    (decoded * Scalar::from_bytes_mod_order(*scalar)).compress().to_bytes()
}

/// Calls the `+` of two `EdwardsPoint`s, on the points that `p` and `q`
/// decode to, and compresses the sum.
///
/// Besides naming the sum, the contract states one group law: the base
/// point has the group order as its order, so the sum of `a` times and `b`
/// times the base point is `a + b`, reduced modulo the group order, times
/// the base point, for scalars `a` and `b` below the group order.
#[verifier::external_body]
pub(crate) fn point_add(p: &[u8; 32], q: &[u8; 32]) -> (sum: [u8; 32])
    requires
        is_point(p@),
        is_point(q@),
    ensures
        sum@ == point_sum(p@, q@),
        is_point(sum@),
        forall|a: nat, b: nat|
            a < group_order() && b < group_order() && p@ == #[trigger] base_mul(a) && q@
                == #[trigger] base_mul(b) ==> sum@ == base_mul((a + b) % group_order()),
{
    let left = CompressedEdwardsY(*p).decompress().unwrap();
    let right = CompressedEdwardsY(*q).decompress().unwrap();
    (left + right).compress().to_bytes()
}

} // verus!
