//! Little-endian byte strings and the numbers they stand for.
//!
//! Scalars travel as 32 bytes and hash outputs as 64; contracts speak of the
//! natural number behind the bytes. This module defines that number, the
//! inverse encoding, and proves that the two undo each other.

use vstd::prelude::*;

verus! {

/// The order of the prime-order group that the base point generates:
/// 2^252 + 27742317777372353535851937790883648493.
pub open spec fn group_order() -> nat {
    0x1000000000000000000000000000000014def9dea2f79cd65812631a5cf5d3ednat
}

/// The number of values that `len` bytes can tell apart: 256 to the power `len`.
pub open spec fn byte_capacity(len: nat) -> nat
    decreases len,
{
    if len == 0 {
        1
    } else {
        256 * byte_capacity((len - 1) as nat)
    }
}

/// The number that a byte string encodes in little-endian order: the first
/// byte is the least significant one.
pub open spec fn le_value(bytes: Seq<u8>) -> nat
    decreases bytes.len(),
{
    if bytes.len() == 0 {
        0
    } else {
        (bytes[0] as nat) + 256 * le_value(bytes.skip(1))
    }
}

/// The `len` least significant bytes of `n`, least significant first.
pub open spec fn le_bytes(n: nat, len: nat) -> Seq<u8>
    decreases len,
{
    if len == 0 {
        Seq::<u8>::empty()
    } else {
        seq![(n % 256) as u8] + le_bytes(n / 256, (len - 1) as nat)
    }
}

/// A byte string made of zero bytes only.
pub open spec fn all_zero(bytes: Seq<u8>) -> bool {
    forall|i: int| 0 <= i < bytes.len() ==> bytes[i] == 0u8
}

/// `le_bytes` yields exactly as many bytes as it is asked for.
pub proof fn lemma_le_bytes_len(n: nat, len: nat)
    ensures
        le_bytes(n, len).len() == len,
    decreases len,
{
    if len > 0 {
        lemma_le_bytes_len(n / 256, (len - 1) as nat);
    }
}

/// Encoding a number that fits and reading the bytes back gives the number.
pub proof fn lemma_le_value_of_le_bytes(n: nat, len: nat)
    requires
        n < byte_capacity(len),
    ensures
        le_value(le_bytes(n, len)) == n,
    decreases len,
{
    if len > 0 {
        let rest = le_bytes(n / 256, (len - 1) as nat);
        let whole = le_bytes(n, len);
        lemma_le_value_of_le_bytes(n / 256, (len - 1) as nat);
        lemma_le_bytes_len(n / 256, (len - 1) as nat);
        assert(whole.skip(1) =~= rest);
        assert(whole[0] == (n % 256) as u8);
    }
}

/// Reading a byte string and encoding the number at the same length gives
/// the byte string back.
pub proof fn lemma_le_bytes_of_le_value(bytes: Seq<u8>)
    ensures
        le_bytes(le_value(bytes), bytes.len()) == bytes,
    decreases bytes.len(),
{
    if bytes.len() == 0 {
        assert(le_bytes(le_value(bytes), bytes.len()) =~= bytes);
    } else {
        let n = le_value(bytes);
        let tail = bytes.skip(1);
        lemma_le_bytes_of_le_value(tail);
        assert(n % 256 == bytes[0] as nat);
        assert(n / 256 == le_value(tail));
        assert(le_bytes(n, bytes.len()) =~= bytes);
    }
}

/// Zero bytes encode zero.
pub proof fn lemma_le_value_of_zeros(bytes: Seq<u8>)
    requires
        all_zero(bytes),
    ensures
        le_value(bytes) == 0,
    decreases bytes.len(),
{
    if bytes.len() > 0 {
        lemma_le_value_of_zeros(bytes.skip(1));
    }
}

/// Every number below the group order fits in 32 bytes.
pub proof fn lemma_group_order_fits()
    ensures
        0 < group_order() < byte_capacity(32),
{
    reveal_with_fuel(byte_capacity, 33);
}

/// A scalar's canonical encoding reads back as the scalar: encoding a
/// number below the group order in 32 bytes and reading the bytes gives the
/// number.
pub proof fn lemma_scalar_encoding_round_trip(n: nat)
    requires
        n < group_order(),
    ensures
        le_bytes(n, 32).len() == 32,
        le_value(le_bytes(n, 32)) == n,
{
    lemma_group_order_fits();
    lemma_le_bytes_len(n, 32);
    lemma_le_value_of_le_bytes(n, 32);
}

/// Appends `bytes` to `buffer`.
pub fn extend_bytes(buffer: &mut Vec<u8>, bytes: &[u8])
    ensures
        final(buffer)@ == old(buffer)@ + bytes@,
{
    let mut i: usize = 0;
    while i < bytes.len()
        invariant
            i <= bytes@.len(),
            buffer@ == old(buffer)@ + bytes@.subrange(0, i as int),
        decreases bytes@.len() - i,
    {
        buffer.push(bytes[i]);
        i = i + 1;
        assert(buffer@ =~= old(buffer)@ + bytes@.subrange(0, i as int));
    }
    assert(bytes@.subrange(0, i as int) =~= bytes@);
}

/// Whether two 32-byte arrays hold the same bytes.
pub fn bytes_eq(a: &[u8; 32], b: &[u8; 32]) -> (same: bool)
    ensures
        same == (a@ == b@),
{
    let mut i: usize = 0;
    while i < 32
        invariant
            i <= 32,
            forall|j: int| 0 <= j < i ==> a@[j] == b@[j],
        decreases 32 - i,
    {
        if a[i] != b[i] {
            return false;
        }
        i = i + 1;
    }
    assert(a@ =~= b@);
    true
}

} // verus!
