//! A receiver's long-lived keys.

use crate::curve::base_mul;
use crate::encoding::group_order;
use crate::point::PointWrapper;
use crate::scalar::ScalarWrapper;
use rand_core::{CryptoRng, RngCore};
use vstd::prelude::*;

verus! {

/// What an identity holds, as mathematical values: the two secret scalars
/// as numbers and the two public points as canonical encodings.
pub struct IdentityView {
    pub spend_sk: nat,
    pub view_sk: nat,
    pub spend_pk: Seq<u8>,
    pub view_pk: Seq<u8>,
}

impl IdentityView {
    /// Each public point is its secret scalar times the base point, and
    /// both scalars are reduced.
    pub open spec fn consistent(self) -> bool {
        &&& self.spend_sk < group_order()
        &&& self.view_sk < group_order()
        &&& self.spend_pk == base_mul(self.spend_sk)
        &&& self.view_pk == base_mul(self.view_sk)
    }
}

/// A receiver's key material: a spend key pair, which authorises moving
/// funds, and a view key pair, which detects outputs addressed to the
/// receiver. The public keys always belong to the secret ones.
#[derive(Debug)]
pub struct Identity {
    initiator_spend_sk: ScalarWrapper,
    initiator_view_sk: ScalarWrapper,
    initiator_spend_pk: PointWrapper,
    initiator_view_pk: PointWrapper,
}

impl View for Identity {
    type V = IdentityView;

    closed spec fn view(&self) -> IdentityView {
        IdentityView {
            spend_sk: self.initiator_spend_sk@,
            view_sk: self.initiator_view_sk@,
            spend_pk: self.initiator_spend_pk@,
            view_pk: self.initiator_view_pk@,
        }
    }
}

impl Identity {
    #[verifier::type_invariant]
    spec fn keys_belong(self) -> bool {
        &&& self.initiator_spend_sk@ < group_order()
        &&& self.initiator_view_sk@ < group_order()
        &&& self.initiator_spend_pk@ == base_mul(self.initiator_spend_sk@)
        &&& self.initiator_view_pk@ == base_mul(self.initiator_view_sk@)
    }

    /// A fresh identity: two scalars drawn independently from `rng`, which
    /// the caller vouches to be a cryptographically secure source, and the
    /// public points that belong to them.
    pub fn new_random<R: RngCore + CryptoRng>(rng: &mut R) -> (identity: Self)
        ensures
            identity@.consistent(),
    {
        let spend_scalar = ScalarWrapper::random(rng);
        let view_scalar = ScalarWrapper::random(rng);
        Self::from_secret_scalars(spend_scalar, view_scalar)
    }

    /// The identity that two stored secret scalars stand for: the public
    /// points are computed from them.
    pub fn from_secret_scalars(spend_sk: ScalarWrapper, view_sk: ScalarWrapper) -> (identity:
        Self)
        ensures
            identity@.spend_sk == spend_sk@,
            identity@.view_sk == view_sk@,
            identity@.consistent(),
    {
        let spend_pubkey = PointWrapper::mul_base(&spend_sk);
        let view_pubkey = PointWrapper::mul_base(&view_sk);
        proof {
            use_type_invariant(&spend_sk);
            use_type_invariant(&view_sk);
        }
        Identity {
            initiator_spend_sk: spend_sk,
            initiator_view_sk: view_sk,
            initiator_spend_pk: spend_pubkey,
            initiator_view_pk: view_pubkey,
        }
    }

    /// The secret spend scalar.
    pub fn initiator_spend_sk(&self) -> (scalar: &ScalarWrapper)
        ensures
            scalar@ == self@.spend_sk,
            self@.consistent(),
    {
        proof {
            use_type_invariant(self);
        }
        &self.initiator_spend_sk
    }

    /// The secret view scalar.
    pub fn initiator_view_sk(&self) -> (scalar: &ScalarWrapper)
        ensures
            scalar@ == self@.view_sk,
            self@.consistent(),
    {
        proof {
            use_type_invariant(self);
        }
        &self.initiator_view_sk
    }

    /// The public spend point.
    pub fn initiator_spend_pk(&self) -> (point: PointWrapper)
        ensures
            point@ == self@.spend_pk,
            self@.consistent(),
    {
        proof {
            use_type_invariant(self);
        }
        self.initiator_spend_pk
    }

    /// The public view point.
    pub fn initiator_view_pk(&self) -> (point: PointWrapper)
        ensures
            point@ == self@.view_pk,
            self@.consistent(),
    {
        proof {
            use_type_invariant(self);
        }
        self.initiator_view_pk
    }
}

impl Clone for Identity {
    /// A second copy of the identity, with secret scalars of its own.
    fn clone(&self) -> (copy: Self)
        ensures
            copy@ == self@,
    {
        proof {
            use_type_invariant(self);
        }
        Identity {
            initiator_spend_sk: self.initiator_spend_sk.clone(),
            initiator_view_sk: self.initiator_view_sk.clone(),
            initiator_spend_pk: self.initiator_spend_pk,
            initiator_view_pk: self.initiator_view_pk,
        }
    }
}

} // verus!
