//! The boundary to `zeroize`, and a buffer that wipes itself.

use crate::encoding::all_zero;
use vstd::prelude::*;
use zeroize::Zeroize;

verus! {

/// Calls `Zeroize::zeroize` on a byte array, which overwrites every byte
/// with zero through volatile writes that the compiler may not remove.
#[verifier::external_body]
pub(crate) fn wipe<const N: usize>(bytes: &mut [u8; N])
    ensures
        all_zero(final(bytes)@),
    opens_invariants none
    no_unwind
{
    bytes.zeroize();
}

/// Calls `Zeroize::zeroize` on a byte vector, which overwrites the elements
/// and the spare capacity with zeros and then clears the vector.
#[verifier::external_body]
pub(crate) fn wipe_vec(bytes: &mut Vec<u8>)
    ensures
        final(bytes)@.len() == 0,
{
    bytes.zeroize();
}

/// 32 secret bytes that are overwritten with zeros when the value is
/// dropped. The view is the bytes.
pub struct SecretBytes {
    bytes: [u8; 32],
}

impl View for SecretBytes {
    type V = Seq<u8>;

    closed spec fn view(&self) -> Seq<u8> {
        self.bytes@
    }
}

impl SecretBytes {
    /// Takes the bytes into keeping.
    pub fn new(bytes: [u8; 32]) -> (secret: Self)
        ensures
            secret@ == bytes@,
    {
        SecretBytes { bytes }
    }

    /// Overwrites the bytes with zeros now, before the value is dropped.
    pub fn wipe(&mut self)
        ensures
            all_zero(final(self)@),
        opens_invariants none
        no_unwind
    {
        wipe(&mut self.bytes);
    }

    /// The bytes, lent without copying them.
    pub fn as_bytes(&self) -> (bytes: &[u8; 32])
        ensures
            bytes@ == self@,
    {
        &self.bytes
    }
}

impl Drop for SecretBytes {
    /// Overwrites the bytes with zeros before the memory is released.
    fn drop(&mut self)
        ensures
            all_zero(final(self)@),
        opens_invariants none
        no_unwind
    {
        self.wipe();
    }
}

impl Clone for SecretBytes {
    /// A second copy of the bytes, wiped on its own when dropped.
    fn clone(&self) -> (copy: Self)
        ensures
            copy@ == self@,
    {
        SecretBytes { bytes: self.bytes }
    }
}

} // verus!
