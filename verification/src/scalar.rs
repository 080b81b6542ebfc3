//! Scalars: numbers modulo the group order.

use crate::curve::{
    is_scalar, scalar_add, scalar_mul, scalar_random, scalar_reduce, scalar_reduce_wide,
};
use crate::encoding::{
    all_zero, group_order, le_bytes, le_value, lemma_le_bytes_of_le_value,
    lemma_le_value_of_zeros,
};
use crate::wipe::wipe;
use rand_core::{CryptoRng, RngCore};
use vstd::prelude::*;

verus! {

/// A scalar of the curve's scalar field.
///
/// The scalar is held as its canonical encoding: 32 little-endian bytes of
/// a number below the group order. Its view is that number. Scalars carry
/// secret keys, so the bytes are overwritten with zeros when the value is
/// dropped.
#[derive(Debug)]
pub struct ScalarWrapper {
    bytes: [u8; 32],
}

impl View for ScalarWrapper {
    type V = nat;

    closed spec fn view(&self) -> nat {
        le_value(self.bytes@)
    }
}

impl ScalarWrapper {
    /// What holds of every scalar: its number is below the group order.
    #[verifier::type_invariant]
    pub open spec fn reduced(self) -> bool {
        self@ < group_order()
    }

    /// Draws a uniformly distributed scalar from `rng`, which the caller
    /// vouches to be a cryptographically secure source.
    pub fn random<R: RngCore + CryptoRng>(rng: &mut R) -> (scalar: Self)
        ensures
            scalar@ < group_order(),
    {
        let bytes = scalar_random(rng);
        ScalarWrapper { bytes }
    }

    /// Decodes 32 bytes as a scalar. Every input is accepted: the number
    /// that the bytes encode is reduced modulo the group order.
    /// A canonical encoding decodes to the scalar that encodes to it.
    pub fn from_bytes(bytes: [u8; 32]) -> (scalar: Self)
        ensures
            scalar@ == le_value(bytes@) % group_order(),
            is_scalar(bytes@) ==> le_bytes(scalar@, 32) == bytes@,
    {
        proof {
            lemma_le_bytes_of_le_value(bytes@);
        }
        let reduced = scalar_reduce(&bytes);
        ScalarWrapper { bytes: reduced }
    }

    /// Decodes 64 bytes as a scalar: the 512-bit number that the bytes
    /// encode is reduced modulo the group order.
    pub fn from_bytes_wide(bytes: &[u8; 64]) -> (scalar: Self)
        ensures
            scalar@ == le_value(bytes@) % group_order(),
    {
        let reduced = scalar_reduce_wide(bytes);
        ScalarWrapper { bytes: reduced }
    }

    /// Decodes a byte string as a scalar. A string of 32 bytes is reduced
    /// modulo the group order; one of any other length is no scalar.
    pub fn from_slice(bytes: &[u8]) -> (decoded: Option<Self>)
        ensures
            decoded is Some <==> bytes@.len() == 32,
            decoded matches Some(scalar) ==> scalar@ == le_value(bytes@) % group_order(),
    {
        if bytes.len() != 32 {
            return None;
        }
        let mut array = [0u8; 32];
        let mut i: usize = 0;
        while i < 32
            invariant
                i <= 32,
                bytes@.len() == 32,
                forall|j: int| 0 <= j < i ==> array@[j] == bytes@[j],
            decreases 32 - i,
        {
            array[i] = bytes[i];
            i = i + 1;
        }
        assert(array@ =~= bytes@);
        Some(Self::from_bytes(array))
    }

    /// The canonical encoding of the scalar: its number in 32 little-endian
    /// bytes.
    pub fn to_bytes(&self) -> (bytes: [u8; 32])
        ensures
            bytes@ == le_bytes(self@, 32),
            le_value(bytes@) == self@,
            self@ < group_order(),
    {
        proof {
            use_type_invariant(self);
            lemma_le_bytes_of_le_value(self.bytes@);
        }
        self.bytes
    }

    /// The canonical encoding, lent without copying the secret bytes.
    pub(crate) fn as_bytes(&self) -> (bytes: &[u8; 32])
        ensures
            bytes@ == le_bytes(self@, 32),
            le_value(bytes@) == self@,
            is_scalar(bytes@),
    {
        proof {
            use_type_invariant(self);
            lemma_le_bytes_of_le_value(self.bytes@);
        }
        &self.bytes
    }

    /// The sum of two scalars modulo the group order.
    pub fn plus(&self, other: &ScalarWrapper) -> (sum: ScalarWrapper)
        ensures
            sum@ == (self@ + other@) % group_order(),
    {
        proof {
            use_type_invariant(self);
            use_type_invariant(other);
        }
        let bytes = scalar_add(&self.bytes, &other.bytes);
        ScalarWrapper { bytes }
    }

    /// Overwrites the scalar's bytes with zeros now, before the value is
    /// dropped. What is left is the scalar zero.
    pub fn wipe(&mut self)
        ensures
            final(self)@ == 0,
        opens_invariants none
        no_unwind
    {
        proof {
            assert forall|zeros: Seq<u8>| all_zero(zeros) implies #[trigger] le_value(zeros)
                == 0 by {
                lemma_le_value_of_zeros(zeros);
            }
        }
        wipe(&mut self.bytes);
    }

    /// The product of two scalars modulo the group order.
    pub fn times(&self, other: &ScalarWrapper) -> (product: ScalarWrapper)
        ensures
            product@ == (self@ * other@) % group_order(),
    {
        proof {
            use_type_invariant(self);
            use_type_invariant(other);
        }
        let bytes = scalar_mul(&self.bytes, &other.bytes);
        ScalarWrapper { bytes }
    }
}

impl Drop for ScalarWrapper {
    /// Overwrites the scalar's bytes with zeros before the memory is released.
    fn drop(&mut self)
        ensures
            final(self)@ == 0,
        opens_invariants none
        no_unwind
    {
        self.wipe();
    }
}

impl Clone for ScalarWrapper {
    /// A second copy of the scalar, wiped on its own when dropped.
    fn clone(&self) -> (copy: Self)
        ensures
            copy@ == self@,
    {
        proof {
            use_type_invariant(self);
        }
        ScalarWrapper { bytes: self.bytes }
    }
}

} // verus!
