//! Signing with a recovered spend scalar.
//!
//! The ledger verifies Ed25519 signatures against a public key `A`. A
//! recovered spend scalar `x` opens the one-time key `A = x·G`, so it can
//! sign for that key directly: with a nonce `r`, the signature is the pair
//! of `R = r·G` and `s = r + k·x`, where `k` hashes `R`, `A` and the
//! message. The nonce is derived from the scalar and the message, so that
//! signing needs no randomness and one message never meets two nonces.

use crate::curve::base_mul;
use crate::digest::{sha512, sha512_digest};
use crate::encoding::{extend_bytes, group_order, le_bytes, le_value};
use crate::point::PointWrapper;
use crate::scalar::ScalarWrapper;
use crate::wipe::{wipe, wipe_vec, SecretBytes};
use vstd::arithmetic::div_mod::lemma_add_mod_noop_right;
use vstd::prelude::*;

verus! {

/// The secret key from which a signer with scalar `x` derives its nonces:
/// the upper half of the SHA-512 digest of the scalar's encoding.
pub open spec fn nonce_key(x: nat) -> Seq<u8> {
    sha512_digest(le_bytes(x, 32)).subrange(32, 64)
}

/// The nonce with which scalar `x` signs `message`: the digest of the nonce
/// key and the message, read as a number and reduced.
pub open spec fn signature_nonce(x: nat, message: Seq<u8>) -> nat {
    le_value(sha512_digest(nonce_key(x) + message)) % group_order()
}

/// The challenge of a signature: the digest of the commitment `R`, the
/// public key and the message, read as a number and reduced.
pub open spec fn signature_challenge(commitment: Seq<u8>, public: Seq<u8>, message: Seq<u8>) -> nat {
    le_value(sha512_digest(commitment + public + message)) % group_order()
}

/// The 64-byte signature of scalar `x` on `message`: the commitment
/// `R = r·G` followed by the response `s = r + k·x` modulo the group order.
pub open spec fn signature_of(x: nat, message: Seq<u8>) -> Seq<u8> {
    let r = signature_nonce(x, message);
    let commitment = base_mul(r);
    let k = signature_challenge(commitment, base_mul(x), message);
    commitment + le_bytes((r + k * x) % group_order(), 32)
}

/// A signing capability made of one secret scalar. Its public key is the
/// scalar times the base point, which for a recovered spend scalar is the
/// one-time key of the matched output.
pub struct ScalarSigner {
    secret: ScalarWrapper,
    nonce_key: SecretBytes,
    public: PointWrapper,
}

impl ScalarSigner {
    #[verifier::type_invariant]
    spec fn well_formed(self) -> bool {
        &&& self.nonce_key@ == nonce_key(self.secret@)
        &&& self.public@ == base_mul(self.secret@)
    }

    /// The secret scalar that the signer signs with.
    pub closed spec fn scalar(self) -> nat {
        self.secret@
    }

    /// Builds the signer for a secret scalar.
    pub fn new(scalar: ScalarWrapper) -> (signer: Self)
        ensures
            signer.scalar() == scalar@,
    {
        let public = PointWrapper::mul_base(&scalar);
        let mut digest = sha512(scalar.as_bytes().as_slice());
        let mut upper = [0u8; 32];
        let mut i: usize = 0;
        while i < 32
            invariant
                i <= 32,
                forall|j: int| 0 <= j < i ==> upper@[j] == digest@[32 + j],
            decreases 32 - i,
        {
            upper[i] = digest[32 + i];
            i = i + 1;
        }
        assert(upper@ =~= digest@.subrange(32, 64));
        wipe(&mut digest);
        let nonce_key = SecretBytes::new(upper);
        wipe(&mut upper);
        ScalarSigner { secret: scalar, nonce_key, public }
    }

    /// The public key that signatures of this signer verify against.
    pub fn pubkey(&self) -> (public: PointWrapper)
        ensures
            public@ == base_mul(self.scalar()),
    {
        proof {
            use_type_invariant(self);
        }
        self.public
    }

    /// Signs `message`. The signature is a function of the scalar and the
    /// message alone.
    pub fn sign_message(&self, message: &[u8]) -> (signature: [u8; 64])
        ensures
            signature@ == signature_of(self.scalar(), message@),
    {
        proof {
            use_type_invariant(self);
        }
        let mut keyed: Vec<u8> = Vec::new();
        extend_bytes(&mut keyed, self.nonce_key.as_bytes().as_slice());
        extend_bytes(&mut keyed, message);
        let mut keyed_digest = sha512(keyed.as_slice());
        let nonce = ScalarWrapper::from_bytes_wide(&keyed_digest);
        wipe(&mut keyed_digest);
        wipe_vec(&mut keyed);

        let commitment = PointWrapper::mul_base(&nonce).to_bytes();
        let public = self.public.to_bytes();
        let mut bound: Vec<u8> = Vec::new();
        extend_bytes(&mut bound, commitment.as_slice());
        extend_bytes(&mut bound, public.as_slice());
        extend_bytes(&mut bound, message);
        let bound_digest = sha512(bound.as_slice());
        let challenge = ScalarWrapper::from_bytes_wide(&bound_digest);

        let response = nonce.plus(&challenge.times(&self.secret));
        proof {
            lemma_add_mod_noop_right(
                nonce@ as int,
                (challenge@ * self.secret@) as int,
                group_order() as int,
            );
        }
        let response_bytes = response.as_bytes();
        let mut signature = [0u8; 64];
        let mut i: usize = 0;
        while i < 32
            invariant
                i <= 32,
                forall|j: int| 0 <= j < i ==> signature@[j] == commitment@[j],
                forall|j: int| 0 <= j < i ==> signature@[32 + j] == response_bytes@[j],
            decreases 32 - i,
        {
            signature[i] = commitment[i];
            signature[32 + i] = response_bytes[i];
            i = i + 1;
        }
        assert(signature@ =~= commitment@ + response_bytes@);
        signature
    }
}

} // verus!
