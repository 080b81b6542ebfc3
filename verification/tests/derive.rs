use curve25519_dalek::constants::ED25519_BASEPOINT_POINT;
use curve25519_dalek::edwards::CompressedEdwardsY;
use curve25519_dalek::scalar::Scalar;
use rand_chacha::rand_core::SeedableRng;
use rand_chacha::ChaCha20Rng;
use sha2::{Digest, Sha512};
use umbra::{
    derive_for_claimant, derive_for_initiator, derive_for_initiator_with, hash_to_scalar,
    scalar_from_digest, Identity, PointWrapper, ScalarSigner, ScalarWrapper,
};

fn small(n: u8) -> [u8; 32] {
    let mut bytes = [0u8; 32];
    bytes[0] = n;
    bytes
}

fn expected_hash(input: &[u8]) -> Scalar {
    let digest = Sha512::digest(input);
    let mut low = [0u8; 32];
    low.copy_from_slice(&digest[..32]);
    Scalar::from_bytes_mod_order(low)
}

#[test]
fn seeded_round_trip_recovers_the_spend_scalar() {
    let mut rng = ChaCha20Rng::seed_from_u64(42);
    let identity = Identity::new_random(&mut rng);
    let output = derive_for_initiator(&identity, &mut rng);
    let recovery =
        derive_for_claimant(&identity, &output.one_time_pubkey, &output.ephemeral_pubkey)
            .expect("an output made for the identity matches");
    let opened = PointWrapper::mul_base(&recovery.derived_spend_scalar);
    assert_eq!(opened, output.one_time_pubkey);
    let signer = ScalarSigner::new(recovery.derived_spend_scalar.clone());
    assert_eq!(signer.pubkey(), output.one_time_pubkey);
}

#[test]
fn every_fresh_output_is_recovered() {
    let mut rng = rand_core::OsRng;
    for _ in 0..8 {
        let identity = Identity::new_random(&mut rng);
        let output = derive_for_initiator(&identity, &mut rng);
        let recovery =
            derive_for_claimant(&identity, &output.one_time_pubkey, &output.ephemeral_pubkey)
                .expect("an output made for the identity matches");
        assert_eq!(
            PointWrapper::mul_base(&recovery.derived_spend_scalar),
            output.one_time_pubkey
        );
    }
}

#[test]
fn recovered_scalar_is_spend_scalar_plus_hash() {
    let identity = Identity::from_secret_scalars(
        ScalarWrapper::from_bytes(small(11)),
        ScalarWrapper::from_bytes(small(22)),
    );
    let ephemeral = ScalarWrapper::from_bytes(small(33));
    let output = derive_for_initiator_with(&identity, &ephemeral);
    let recovery =
        derive_for_claimant(&identity, &output.one_time_pubkey, &output.ephemeral_pubkey)
            .expect("an output made for the identity matches");

    let shared = (ED25519_BASEPOINT_POINT * Scalar::from(22u64 * 33)).compress().to_bytes();
    let h = expected_hash(&shared);
    assert_eq!(recovery.shared_secret_hash.to_bytes(), h.to_bytes());
    assert_eq!(recovery.derived_spend_scalar.to_bytes(), (Scalar::from(11u64) + h).to_bytes());
}

#[test]
fn initiator_output_follows_the_scheme() {
    let identity = Identity::from_secret_scalars(
        ScalarWrapper::from_bytes(small(5)),
        ScalarWrapper::from_bytes(small(7)),
    );
    let ephemeral = ScalarWrapper::from_bytes(small(9));
    let output = derive_for_initiator_with(&identity, &ephemeral);

    let r = Scalar::from(9u64);
    let view_pk = ED25519_BASEPOINT_POINT * Scalar::from(7u64);
    let spend_pk = ED25519_BASEPOINT_POINT * Scalar::from(5u64);
    let shared = (view_pk * r).compress().to_bytes();
    let h = expected_hash(&shared);
    let one_time = spend_pk + ED25519_BASEPOINT_POINT * h;
    assert_eq!(output.ephemeral_pubkey.to_bytes(), (ED25519_BASEPOINT_POINT * r).compress().to_bytes());
    assert_eq!(output.one_time_pubkey.to_bytes(), one_time.compress().to_bytes());
    assert_ne!(output.one_time_pubkey.to_bytes(), spend_pk.compress().to_bytes());
    assert_ne!(output.one_time_pubkey, output.ephemeral_pubkey);
}

#[test]
fn two_outputs_for_one_identity_differ() {
    let mut rng = rand_core::OsRng;
    let identity = Identity::new_random(&mut rng);
    let first = derive_for_initiator(&identity, &mut rng);
    let second = derive_for_initiator(&identity, &mut rng);
    assert_ne!(first.one_time_pubkey, second.one_time_pubkey);
    assert_ne!(first.ephemeral_pubkey, second.ephemeral_pubkey);
}

#[test]
fn output_carries_no_identity_key() {
    let mut rng = ChaCha20Rng::seed_from_u64(7);
    let identity = Identity::new_random(&mut rng);
    let output = derive_for_initiator(&identity, &mut rng);
    assert_ne!(output.one_time_pubkey, identity.initiator_spend_pk());
    assert_ne!(output.one_time_pubkey, identity.initiator_view_pk());
    assert_ne!(output.ephemeral_pubkey, identity.initiator_spend_pk());
    assert_ne!(output.ephemeral_pubkey, identity.initiator_view_pk());
}

#[test]
fn another_identity_finds_no_match() {
    let mut rng = ChaCha20Rng::seed_from_u64(1);
    let owner = Identity::new_random(&mut rng);
    let stranger = Identity::new_random(&mut rng);
    let output = derive_for_initiator(&owner, &mut rng);
    assert!(
        derive_for_claimant(&stranger, &output.one_time_pubkey, &output.ephemeral_pubkey).is_none()
    );
    assert!(
        derive_for_claimant(&owner, &output.one_time_pubkey, &output.ephemeral_pubkey).is_some()
    );
}

#[test]
fn mismatched_points_find_no_match() {
    let mut rng = ChaCha20Rng::seed_from_u64(2);
    let identity = Identity::new_random(&mut rng);
    let first = derive_for_initiator(&identity, &mut rng);
    let second = derive_for_initiator(&identity, &mut rng);
    assert!(
        derive_for_claimant(&identity, &first.one_time_pubkey, &second.ephemeral_pubkey).is_none()
    );
    assert!(
        derive_for_claimant(&identity, &first.ephemeral_pubkey, &first.one_time_pubkey).is_none()
    );
}

#[test]
fn identity_public_keys_belong_to_the_secrets() {
    let mut rng = ChaCha20Rng::seed_from_u64(3);
    let identity = Identity::new_random(&mut rng);
    assert_eq!(PointWrapper::mul_base(identity.initiator_spend_sk()), identity.initiator_spend_pk());
    assert_eq!(PointWrapper::mul_base(identity.initiator_view_sk()), identity.initiator_view_pk());
    assert_ne!(identity.initiator_spend_pk(), identity.initiator_view_pk());

    let restored = Identity::from_secret_scalars(
        ScalarWrapper::from_bytes(identity.initiator_spend_sk().to_bytes()),
        ScalarWrapper::from_bytes(identity.initiator_view_sk().to_bytes()),
    );
    assert_eq!(restored.initiator_spend_pk(), identity.initiator_spend_pk());
    assert_eq!(restored.initiator_view_pk(), identity.initiator_view_pk());

    let copy = identity.clone();
    assert_eq!(copy.initiator_spend_sk().to_bytes(), identity.initiator_spend_sk().to_bytes());
    assert_eq!(copy.initiator_view_pk(), identity.initiator_view_pk());
}

#[test]
fn stored_identity_recovers_outputs_of_the_fresh_one() {
    let mut rng = ChaCha20Rng::seed_from_u64(4);
    let identity = Identity::new_random(&mut rng);
    let output = derive_for_initiator(&identity, &mut rng);
    let restored = Identity::from_secret_scalars(
        ScalarWrapper::from_bytes(identity.initiator_spend_sk().to_bytes()),
        ScalarWrapper::from_bytes(identity.initiator_view_sk().to_bytes()),
    );
    assert!(
        derive_for_claimant(&restored, &output.one_time_pubkey, &output.ephemeral_pubkey).is_some()
    );
}

#[test]
fn hash_to_scalar_takes_the_low_half_of_the_digest() {
    let input = b"stealth";
    assert_eq!(hash_to_scalar(input).to_bytes(), expected_hash(input).to_bytes());
    assert_eq!(hash_to_scalar(&[]).to_bytes(), expected_hash(&[]).to_bytes());
    assert_ne!(hash_to_scalar(input).to_bytes(), hash_to_scalar(b"stealth!").to_bytes());
    let mut padded = [0u8; 32];
    padded[..7].copy_from_slice(input);
    assert_ne!(hash_to_scalar(input).to_bytes(), padded);
}

#[test]
fn scalar_from_digest_ignores_the_upper_half() {
    let mut digest = [0u8; 64];
    digest[0] = 3;
    digest[40] = 0xff;
    digest[63] = 0xff;
    assert_eq!(scalar_from_digest(&digest).to_bytes(), small(3));
    let mut above = [0xffu8; 64];
    above[32..].copy_from_slice(&[0u8; 32]);
    let expected = Scalar::from_bytes_mod_order([0xff; 32]).to_bytes();
    assert_eq!(scalar_from_digest(&above).to_bytes(), expected);
}

#[test]
fn published_points_decode_on_the_curve() {
    let mut rng = ChaCha20Rng::seed_from_u64(5);
    let identity = Identity::new_random(&mut rng);
    let output = derive_for_initiator(&identity, &mut rng);
    assert!(CompressedEdwardsY(output.one_time_pubkey.to_bytes()).decompress().is_some());
    assert!(CompressedEdwardsY(output.ephemeral_pubkey.to_bytes()).decompress().is_some());
}

#[test]
fn sender_needs_only_the_public_keys() {
    let mut rng = ChaCha20Rng::seed_from_u64(6);
    let identity = Identity::new_random(&mut rng);
    let spend_pk = PointWrapper::from_bytes(identity.initiator_spend_pk().to_bytes())
        .expect("a published key decodes");
    let view_pk = PointWrapper::from_bytes(identity.initiator_view_pk().to_bytes())
        .expect("a published key decodes");
    let ephemeral = ScalarWrapper::from_bytes(small(17));
    let output = umbra::derive_for_public_keys(&spend_pk, &view_pk, &ephemeral);
    let same = derive_for_initiator_with(&identity, &ephemeral);
    assert_eq!(output.one_time_pubkey, same.one_time_pubkey);
    assert_eq!(output.ephemeral_pubkey, same.ephemeral_pubkey);
    assert_eq!(output.ephemeral_pubkey, PointWrapper::mul_base(&ephemeral));
    let swapped = umbra::derive_for_public_keys(&view_pk, &spend_pk, &ephemeral);
    assert_ne!(swapped.one_time_pubkey, output.one_time_pubkey);
    let recovery =
        derive_for_claimant(&identity, &output.one_time_pubkey, &output.ephemeral_pubkey)
            .expect("an output made for the public keys matches");
    assert_eq!(PointWrapper::mul_base(&recovery.derived_spend_scalar), output.one_time_pubkey);
}
