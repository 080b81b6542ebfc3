use curve25519_dalek::constants::ED25519_BASEPOINT_POINT;
use curve25519_dalek::edwards::CompressedEdwardsY;
use curve25519_dalek::scalar::Scalar;
use umbra::encoding::{bytes_eq, extend_bytes};
use umbra::{DecodeError, PointWrapper, ScalarWrapper};

const ORDER_PLUS_TWO: [u8; 32] = [
    0xef, 0xd3, 0xf5, 0x5c, 0x1a, 0x63, 0x12, 0x58, 0xd6, 0x9c, 0xf7, 0xa2, 0xde, 0xf9, 0xde, 0x14,
    0x00, 0x00, 0x00, 0x00, 0x00, 0x00, 0x00, 0x00, 0x00, 0x00, 0x00, 0x00, 0x00, 0x00, 0x00, 0x10,
];

const BASEPOINT: [u8; 32] = [
    0x58, 0x66, 0x66, 0x66, 0x66, 0x66, 0x66, 0x66, 0x66, 0x66, 0x66, 0x66, 0x66, 0x66, 0x66, 0x66,
    0x66, 0x66, 0x66, 0x66, 0x66, 0x66, 0x66, 0x66, 0x66, 0x66, 0x66, 0x66, 0x66, 0x66, 0x66, 0x66,
];

fn small(n: u8) -> [u8; 32] {
    let mut bytes = [0u8; 32];
    bytes[0] = n;
    bytes
}

#[test]
fn scalar_decoding_reduces_modulo_the_group_order() {
    let scalar = ScalarWrapper::from_bytes(ORDER_PLUS_TWO);
    assert_eq!(scalar.to_bytes(), small(2));
}

#[test]
fn scalar_decoding_accepts_every_input() {
    let scalar = ScalarWrapper::from_bytes([0xff; 32]);
    let expected = Scalar::from_bytes_mod_order([0xff; 32]).to_bytes();
    assert_eq!(scalar.to_bytes(), expected);
    assert_ne!(scalar.to_bytes(), [0xff; 32]);
}

#[test]
fn canonical_scalar_round_trips() {
    let bytes = small(77);
    assert_eq!(ScalarWrapper::from_bytes(bytes).to_bytes(), bytes);
    let decoded = ScalarWrapper::from_bytes(ScalarWrapper::from_bytes(ORDER_PLUS_TWO).to_bytes());
    assert_eq!(decoded.to_bytes(), small(2));
}

#[test]
fn wide_scalar_decoding_reduces() {
    let mut wide = [0u8; 64];
    wide[..32].copy_from_slice(&ORDER_PLUS_TWO);
    assert_eq!(ScalarWrapper::from_bytes_wide(&wide).to_bytes(), small(2));
    let all = [0xabu8; 64];
    let expected = Scalar::from_bytes_mod_order_wide(&all).to_bytes();
    assert_eq!(ScalarWrapper::from_bytes_wide(&all).to_bytes(), expected);
}

#[test]
fn scalar_from_slice_checks_the_length() {
    assert!(ScalarWrapper::from_slice(&[1u8; 31]).is_none());
    assert!(ScalarWrapper::from_slice(&[1u8; 33]).is_none());
    assert!(ScalarWrapper::from_slice(&[]).is_none());
    let decoded = ScalarWrapper::from_slice(&ORDER_PLUS_TWO).expect("32 bytes are a scalar");
    assert_eq!(decoded.to_bytes(), small(2));
}

#[test]
fn scalar_arithmetic_is_modular() {
    let a = ScalarWrapper::from_bytes(small(200));
    let b = ScalarWrapper::from_bytes(small(100));
    let mut expected_sum = [0u8; 32];
    expected_sum[0] = 44;
    expected_sum[1] = 1;
    assert_eq!(a.plus(&b).to_bytes(), expected_sum);
    let mut expected_product = [0u8; 32];
    expected_product[0] = 0x20;
    expected_product[1] = 0x4e;
    assert_eq!(a.times(&b).to_bytes(), expected_product);

    let minus_one = ScalarWrapper::from_bytes((-Scalar::ONE).to_bytes());
    let one = ScalarWrapper::from_bytes(small(1));
    assert_eq!(minus_one.plus(&one).to_bytes(), [0u8; 32]);
    assert_eq!(minus_one.times(&minus_one).to_bytes(), small(1));
}

#[test]
fn scalar_clone_keeps_the_value() {
    let scalar = ScalarWrapper::from_bytes(small(9));
    let copy = scalar.clone();
    drop(scalar);
    assert_eq!(copy.to_bytes(), small(9));
}

#[test]
fn random_scalars_are_canonical_and_differ() {
    let mut rng = rand_core::OsRng;
    let a = ScalarWrapper::random(&mut rng);
    let b = ScalarWrapper::random(&mut rng);
    assert_ne!(a.to_bytes(), b.to_bytes());
    let canonical: Option<Scalar> = Scalar::from_canonical_bytes(a.to_bytes()).into();
    assert!(canonical.is_some());
}

#[test]
fn point_encoding_round_trips() {
    let point = PointWrapper::from_bytes(BASEPOINT).expect("the base point decodes");
    assert_eq!(point.to_bytes(), BASEPOINT);
    let again = PointWrapper::from_bytes(point.to_bytes()).expect("an encoding decodes");
    assert_eq!(again, point);
    assert!(again.same_as(&point));
}

#[test]
fn point_decoding_agrees_with_the_curve_on_small_encodings() {
    let mut refused = 0;
    let mut accepted = 0;
    for y in 0u8..60 {
        let bytes = small(y);
        let expected = CompressedEdwardsY(bytes).decompress();
        match PointWrapper::from_bytes(bytes) {
            Ok(point) => {
                accepted += 1;
                let on_curve = expected.expect("the curve accepts what the library accepts");
                assert_eq!(point.to_bytes(), on_curve.compress().to_bytes());
                assert_eq!(point.to_bytes(), bytes);
            }
            Err(error) => {
                refused += 1;
                assert_eq!(error, DecodeError::InvalidPoint);
                assert!(expected.is_none());
            }
        }
    }
    assert!(refused > 0);
    assert!(accepted > 0);
}

#[test]
fn bytes_off_the_curve_are_refused() {
    let off_curve = (0u8..60)
        .map(small)
        .find(|bytes| CompressedEdwardsY(*bytes).decompress().is_none())
        .expect("some small value is no y-coordinate");
    assert_eq!(PointWrapper::from_bytes(off_curve), Err(DecodeError::InvalidPoint));
    assert_eq!(PointWrapper::from_slice(&off_curve), Err(DecodeError::InvalidPoint));
}

#[test]
fn non_canonical_encoding_decodes_to_the_canonical_one() {
    let mut negative_zero = small(1);
    negative_zero[31] = 0x80;
    let point = PointWrapper::from_bytes(negative_zero).expect("the identity decodes");
    assert_eq!(point.to_bytes(), small(1));
    assert_ne!(point.to_bytes(), negative_zero);
}

#[test]
fn point_from_slice_checks_the_length() {
    assert_eq!(PointWrapper::from_slice(&BASEPOINT[..31]), Err(DecodeError::InvalidLength));
    assert_eq!(PointWrapper::from_slice(&[0u8; 64]), Err(DecodeError::InvalidLength));
    let point = PointWrapper::from_slice(&BASEPOINT).expect("the base point decodes");
    assert_eq!(point.to_bytes(), BASEPOINT);
}

#[test]
fn point_arithmetic_follows_the_curve() {
    let one = ScalarWrapper::from_bytes(small(1));
    let two = ScalarWrapper::from_bytes(small(2));
    let three = ScalarWrapper::from_bytes(small(3));
    let six = ScalarWrapper::from_bytes(small(6));
    let g = PointWrapper::mul_base(&one);
    assert_eq!(g.to_bytes(), BASEPOINT);
    let g2 = PointWrapper::mul_base(&two);
    let g3 = PointWrapper::mul_base(&three);
    assert_eq!(g.plus(&g2), g3);
    assert_eq!(g2.scaled(&three), PointWrapper::mul_base(&six));
    assert_eq!(g3.scaled(&two), g2.scaled(&three));
    let expected = (ED25519_BASEPOINT_POINT * Scalar::from(6u64)).compress().to_bytes();
    assert_eq!(g3.scaled(&two).to_bytes(), expected);
    assert_ne!(g2.to_bytes(), g.to_bytes());
}

#[test]
fn byte_helpers_compare_and_append() {
    assert!(bytes_eq(&BASEPOINT, &BASEPOINT));
    assert!(!bytes_eq(&BASEPOINT, &small(0x58)));
    let mut buffer = vec![1u8, 2];
    extend_bytes(&mut buffer, &[3, 4, 5]);
    extend_bytes(&mut buffer, &[]);
    assert_eq!(buffer, vec![1u8, 2, 3, 4, 5]);
}

#[test]
fn wiped_scalar_is_zero() {
    let mut scalar = ScalarWrapper::from_bytes(small(9));
    assert_eq!(scalar.to_bytes(), small(9));
    scalar.wipe();
    assert_eq!(scalar.to_bytes(), [0u8; 32]);
    let mut random = ScalarWrapper::random(&mut rand_core::OsRng);
    random.wipe();
    assert_eq!(random.to_bytes(), [0u8; 32]);
}

#[test]
fn wiped_secret_bytes_are_zero() {
    let mut secret = umbra::wipe::SecretBytes::new([5u8; 32]);
    assert_eq!(secret.as_bytes(), &[5u8; 32]);
    let copy = secret.clone();
    secret.wipe();
    assert_eq!(secret.as_bytes(), &[0u8; 32]);
    assert_eq!(copy.as_bytes(), &[5u8; 32]);
}
