//! Curve points in compressed form.

use crate::curve::{
    base_mul, basepoint_bytes, is_point, point_add, point_decode, point_decoding, point_mul,
    point_scalar_mul, point_sum,
};
use crate::encoding::{bytes_eq, group_order};
use crate::scalar::ScalarWrapper;
use vstd::prelude::*;

verus! {

/// Why a byte string is no curve point.
#[derive(Clone, Copy, Debug, PartialEq, Eq)]
pub enum DecodeError {
    /// The string is not 32 bytes long.
    InvalidLength,
    /// The 32 bytes do not decompress to a point of the curve.
    InvalidPoint,
}

/// A point of the curve.
///
/// The point is held as its canonical compressed encoding, 32 bytes, and its
/// view is that encoding. Two points are equal exactly when their encodings
/// are.
#[derive(Clone, Copy, Debug, PartialEq, Eq)]
pub struct PointWrapper {
    bytes: [u8; 32],
}

impl View for PointWrapper {
    type V = Seq<u8>;

    closed spec fn view(&self) -> Seq<u8> {
        self.bytes@
    }
}

impl PointWrapper {
    #[verifier::type_invariant]
    spec fn on_curve(self) -> bool {
        is_point(self.bytes@)
    }

    /// Decodes 32 bytes as a compressed point. The bytes are accepted where
    /// they decompress to a point of the curve; the point then holds the
    /// canonical encoding of what they decompress to. A canonical encoding
    /// decodes to itself.
    pub fn from_bytes(bytes: [u8; 32]) -> (decoded: Result<Self, DecodeError>)
        ensures
            match decoded {
                Ok(point) => point_decoding(bytes@) == Some(point@) && is_point(point@),
                Err(error) => error == DecodeError::InvalidPoint && point_decoding(bytes@)
                    is None,
            },
            is_point(bytes@) ==> decoded is Ok && decoded->Ok_0@ == bytes@,
    {
        match point_decode(&bytes) {
            Some(canonical) => Ok(PointWrapper { bytes: canonical }),
            None => Err(DecodeError::InvalidPoint),
        }
    }

    /// Decodes a byte string as a compressed point: a string of another
    /// length than 32 is refused as `InvalidLength`, one that decompresses
    /// to no point of the curve as `InvalidPoint`.
    pub fn from_slice(bytes: &[u8]) -> (decoded: Result<Self, DecodeError>)
        ensures
            match decoded {
                Ok(point) => bytes@.len() == 32 && point_decoding(bytes@) == Some(point@)
                    && is_point(point@),
                Err(DecodeError::InvalidLength) => bytes@.len() != 32,
                Err(DecodeError::InvalidPoint) => bytes@.len() == 32 && point_decoding(bytes@)
                    is None,
            },
            is_point(bytes@) ==> decoded is Ok && decoded->Ok_0@ == bytes@,
    {
        if bytes.len() != 32 {
            return Err(DecodeError::InvalidLength);
        }
        let mut array = [0u8; 32];
        let mut i: usize = 0;
        while i < 32
            invariant
                i <= 32,
                bytes@.len() == 32,
                forall|j: int| 0 <= j < i ==> array@[j] == bytes@[j],
            decreases 32 - i,
        {
            array[i] = bytes[i];
            i = i + 1;
        }
        assert(array@ =~= bytes@);
        Self::from_bytes(array)
    }

    /// The canonical compressed encoding of the point.
    pub fn to_bytes(&self) -> (bytes: [u8; 32])
        ensures
            bytes@ == self@,
            is_point(bytes@),
    {
        proof {
            use_type_invariant(self);
        }
        self.bytes
    }

    /// Whether two points are the same point: whether their canonical
    /// encodings agree.
    pub fn same_as(&self, other: &PointWrapper) -> (same: bool)
        ensures
            same == (self@ == other@),
    {
        bytes_eq(&self.bytes, &other.bytes)
    }

    /// `scalar` times the base point.
    pub fn mul_base(scalar: &ScalarWrapper) -> (product: PointWrapper)
        ensures
            product@ == base_mul(scalar@),
            is_point(product@),
    {
        let generator = basepoint_bytes();
        let bytes = point_scalar_mul(&generator, scalar.as_bytes());
        PointWrapper { bytes }
    }

    /// `scalar` times this point. Where this point is `j` times the base
    /// point, for a `j` below the group order, the product is also `j`
    /// times the point `scalar` times the base point: the two
    /// multiplications commute.
    pub fn scaled(&self, scalar: &ScalarWrapper) -> (product: PointWrapper)
        ensures
            product@ == point_mul(self@, scalar@),
            is_point(product@),
            forall|j: nat|
                j < group_order() && self@ == #[trigger] base_mul(j) ==> product@ == point_mul(
                    base_mul(scalar@),
                    j,
                ),
    {
        proof {
            use_type_invariant(self);
        }
        let bytes = point_scalar_mul(&self.bytes, scalar.as_bytes());
        PointWrapper { bytes }
    }

    /// The sum of this point and `other`. Where the two are `a` times and
    /// `b` times the base point, for `a` and `b` below the group order, the
    /// sum is `a + b`, reduced modulo the group order, times the base
    /// point.
    pub fn plus(&self, other: &PointWrapper) -> (sum: PointWrapper)
        ensures
            sum@ == point_sum(self@, other@),
            is_point(sum@),
            forall|a: nat, b: nat|
                a < group_order() && b < group_order() && self@ == #[trigger] base_mul(a)
                    && other@ == #[trigger] base_mul(b) ==> sum@ == base_mul(
                    (a + b) % group_order(),
                ),
    {
        proof {
            use_type_invariant(self);
            use_type_invariant(other);
        }
        let bytes = point_add(&self.bytes, &other.bytes);
        PointWrapper { bytes }
    }
}

} // verus!
