use ark_bls12_381::{Fr, G1Affine, G1Projective, G2Affine, G2Projective};
use ark_ec::{AffineRepr, CurveGroup};
use ark_ff::{BigInt, PrimeField};
use ark_serialize::{CanonicalDeserialize, CanonicalSerialize};
use kzg_asvc::combination::{combine_g1, combine_g2, copy_g1, copy_g2, powers_g1, powers_g2};
use kzg_asvc::error::Error;
use kzg_asvc::group::{G1Point, G2Point};
use kzg_asvc::kzg::{evaluate_all, KZG};
use kzg_asvc::scalar::Scalar;
use kzg_asvc::utils::evaluate;

fn point_g1(p: G1Projective) -> G1Point {
    let mut bytes = [0u8; 48];
    p.into_affine().serialize_compressed(&mut bytes[..]).unwrap();
    G1Point::from_bytes(bytes).unwrap()
}

fn point_g2(p: G2Projective) -> G2Point {
    let mut bytes = [0u8; 96];
    p.into_affine().serialize_compressed(&mut bytes[..]).unwrap();
    G2Point::from_bytes(bytes).unwrap()
}

fn generator_g1() -> G1Point {
    point_g1(G1Affine::generator().into_group())
}

fn generator_g2() -> G2Point {
    point_g2(G2Affine::generator().into_group())
}

fn to_fr(s: &Scalar) -> Fr {
    Fr::from_bigint(BigInt::new(s.limbs())).unwrap()
}

fn scalars(xs: &[u64]) -> Vec<Scalar> {
    xs.iter().map(|x| Scalar::from_u64(*x)).collect()
}

fn secret() -> Scalar {
    Scalar::from_limbs([0x0123_4567_89ab_cdef, 0xfedc_ba98_7654_3210, 0x0f1e_2d3c_4b5a_6978, 0x0123_0000_0000_0042])
        .unwrap()
}

fn ready_instance(degree: usize) -> KZG {
    let mut kzg = KZG::new(generator_g1(), generator_g2(), degree);
    assert!(!kzg.ready());
    kzg.setup(secret());
    assert!(kzg.ready());
    kzg
}

#[test]
fn encodings_that_are_no_points_are_refused() {
    assert!(G1Point::from_bytes([0u8; 48]).is_none());
    assert!(G2Point::from_bytes([0u8; 96]).is_none());
    let g = generator_g1();
    assert_eq!(G1Point::from_bytes(g.to_bytes()).unwrap().to_bytes(), g.to_bytes());
    let h = generator_g2();
    assert_eq!(G2Point::from_bytes(h.to_bytes()).unwrap().to_bytes(), h.to_bytes());
    let mut changed = g.to_bytes();
    changed[40] ^= 1;
    assert!(G1Point::from_bytes(changed).is_none());
    let mut changed = h.to_bytes();
    changed[70] ^= 1;
    assert!(G2Point::from_bytes(changed).is_none());
}

#[test]
fn new_instance_holds_what_it_was_given() {
    let kzg = KZG::new(generator_g1(), generator_g2(), 5);
    assert_eq!(kzg.degree, 5);
    assert!(kzg.crs_g1.is_empty());
    assert!(kzg.crs_g2.is_empty());
    assert_eq!(kzg.g1.to_bytes(), generator_g1().to_bytes());
    assert_eq!(kzg.g2.to_bytes(), generator_g2().to_bytes());
    let zero = point_g2(G2Affine::generator() * Fr::from(0u64));
    assert_eq!(kzg.g2_tau.to_bytes(), zero.to_bytes());
}

#[test]
fn setup_makes_the_powers_of_the_secret() {
    let kzg = ready_instance(3);
    let s = to_fr(&secret());
    assert_eq!(kzg.crs_g1.len(), 4);
    assert_eq!(kzg.crs_g2.len(), 4);
    let mut power = Fr::from(1u64);
    for i in 0..4 {
        assert_eq!(kzg.crs_g1[i].to_bytes(), point_g1(G1Affine::generator() * power).to_bytes());
        assert_eq!(kzg.crs_g2[i].to_bytes(), point_g2(G2Affine::generator() * power).to_bytes());
        power *= s;
    }
    assert_eq!(kzg.g2_tau.to_bytes(), point_g2(G2Affine::generator() * s).to_bytes());
}

#[test]
fn powers_and_copies() {
    let two = Scalar::from_u64(2);
    let in_g1 = powers_g1(&generator_g1(), &two, 3);
    let in_g2 = powers_g2(&generator_g2(), &two, 3);
    assert_eq!(in_g1.len(), 3);
    assert_eq!(in_g1[2].to_bytes(), point_g1(G1Affine::generator() * Fr::from(4u64)).to_bytes());
    assert_eq!(in_g2[2].to_bytes(), point_g2(G2Affine::generator() * Fr::from(4u64)).to_bytes());
    assert!(powers_g1(&generator_g1(), &two, 0).is_empty());
    let copied = copy_g1(&in_g1);
    assert_eq!(copied.len(), 3);
    assert_eq!(copied[1].to_bytes(), in_g1[1].to_bytes());
    let copied = copy_g2(&in_g2);
    assert_eq!(copied[1].to_bytes(), in_g2[1].to_bytes());
}

#[test]
fn combination_is_the_weighted_sum() {
    let g = G1Affine::generator();
    let elems = vec![point_g1(g * Fr::from(3u64)), point_g1(g * Fr::from(5u64)), point_g1(g * Fr::from(7u64))];
    let found = combine_g1(&generator_g1(), &elems, &scalars(&[2, 4]));
    assert_eq!(found.to_bytes(), point_g1(g * Fr::from(26u64)).to_bytes());
    let nothing = combine_g1(&generator_g1(), &elems, &[]);
    assert_eq!(nothing.to_bytes(), point_g1(g * Fr::from(0u64)).to_bytes());
    let h = G2Affine::generator();
    let elems = vec![point_g2(h * Fr::from(3u64)), point_g2(h * Fr::from(5u64))];
    let found = combine_g2(&generator_g2(), &elems, &scalars(&[2, 4]));
    assert_eq!(found.to_bytes(), point_g2(h * Fr::from(26u64)).to_bytes());
}

#[test]
fn commitment_is_the_generator_times_the_value_at_the_secret() {
    let kzg = ready_instance(4);
    let poly = scalars(&[5, 0, 7, 11, 13]);
    let commitment = kzg.commit(&poly).unwrap();
    let value = to_fr(&evaluate(&poly, secret()));
    assert_eq!(commitment.to_bytes(), point_g1(G1Affine::generator() * value).to_bytes());
    let shorter = kzg.commit(&scalars(&[9, 1])).unwrap();
    let value = to_fr(&evaluate(&scalars(&[9, 1]), secret()));
    assert_eq!(shorter.to_bytes(), point_g1(G1Affine::generator() * value).to_bytes());
    let empty = kzg.commit(&[]).unwrap();
    assert_eq!(empty.to_bytes(), point_g1(G1Affine::generator() * Fr::from(0u64)).to_bytes());
}

#[test]
fn opening_is_the_commitment_to_the_quotient() {
    let kzg = ready_instance(4);
    // (x^2 - 9) / (x - 3) = x + 3
    let nine = Scalar::from_u64(9).neg();
    let poly = vec![nine, Scalar::zero(), Scalar::one()];
    let pi = kzg.open(&poly, Scalar::from_u64(3)).unwrap();
    let expected = kzg.commit(&scalars(&[3, 1])).unwrap();
    assert_eq!(pi.to_bytes(), expected.to_bytes());
    // (x^2 + 1 - 10) / (x - 3) = x + 3 as well
    let pi = kzg.open(&scalars(&[1, 0, 1]), Scalar::from_u64(3)).unwrap();
    assert_eq!(pi.to_bytes(), expected.to_bytes());
}

#[test]
fn single_opening_verifies() {
    let kzg = ready_instance(4);
    let poly = scalars(&[5, 0, 7, 11, 13]);
    let commitment = kzg.commit(&poly).unwrap();
    for z in [0u64, 1, 9, 123456789] {
        let point = Scalar::from_u64(z);
        let pi = kzg.open(&poly, point).unwrap();
        let value = evaluate(&poly, point);
        assert!(kzg.verify(point, value, commitment, pi));
    }
}

#[test]
fn single_opening_of_short_polynomials_verifies() {
    let kzg = ready_instance(4);
    for poly in [scalars(&[]), scalars(&[8]), scalars(&[8, 2])] {
        let commitment = kzg.commit(&poly).unwrap();
        let point = Scalar::from_u64(6);
        let pi = kzg.open(&poly, point).unwrap();
        assert!(kzg.verify(point, evaluate(&poly, point), commitment, pi));
    }
}

#[test]
fn single_opening_rejects_a_wrong_value() {
    let kzg = ready_instance(4);
    let poly = scalars(&[5, 0, 7, 11, 13]);
    let commitment = kzg.commit(&poly).unwrap();
    let point = Scalar::from_u64(9);
    let pi = kzg.open(&poly, point).unwrap();
    let value = evaluate(&poly, point).add(&Scalar::one());
    assert!(!kzg.verify(point, value, commitment, pi));
    let other_point = Scalar::from_u64(10);
    assert!(!kzg.verify(other_point, evaluate(&poly, point), commitment, pi));
    let other = kzg.commit(&scalars(&[5, 0, 7, 11, 14])).unwrap();
    assert!(!kzg.verify(point, evaluate(&poly, point), other, pi));
}

#[test]
fn batch_opening_verifies() {
    let kzg = ready_instance(4);
    let poly = scalars(&[5, 0, 7, 11, 13]);
    let commitment = kzg.commit(&poly).unwrap();
    for points in [scalars(&[2]), scalars(&[2, 17, 40]), scalars(&[1, 2, 3, 4])] {
        let pi = kzg.multi_open(&poly, &points).unwrap();
        let values = evaluate_all(&poly, &points);
        assert_eq!(kzg.verify_multi(&points, &values, commitment, pi), Ok(true));
    }
}

#[test]
fn batch_opening_at_no_point_is_the_commitment_itself() {
    let kzg = ready_instance(4);
    let poly = scalars(&[5, 0, 7, 11, 13]);
    let commitment = kzg.commit(&poly).unwrap();
    let pi = kzg.multi_open(&poly, &[]).unwrap();
    assert_eq!(pi.to_bytes(), commitment.to_bytes());
    assert_eq!(kzg.verify_multi(&[], &[], commitment, pi), Ok(true));
}

#[test]
fn batch_opening_rejects_a_flipped_value() {
    let kzg = ready_instance(4);
    let poly = scalars(&[5, 0, 7, 11, 13]);
    let commitment = kzg.commit(&poly).unwrap();
    let points = scalars(&[2, 17, 40]);
    let pi = kzg.multi_open(&poly, &points).unwrap();
    for flipped in 0..3 {
        let mut values = evaluate_all(&poly, &points);
        values[flipped] = values[flipped].add(&Scalar::one());
        assert_eq!(kzg.verify_multi(&points, &values, commitment, pi), Ok(false));
    }
}

#[test]
fn commit_refuses_a_polynomial_that_is_too_long() {
    let kzg = ready_instance(2);
    let poly = scalars(&[1, 2, 3, 4]);
    assert_eq!(kzg.commit(&poly).err(), Some(Error::DegreeExceeded));
    assert_eq!(kzg.open(&poly, Scalar::one()).err(), Some(Error::DegreeExceeded));
    assert_eq!(kzg.multi_open(&poly, &scalars(&[1])).err(), Some(Error::DegreeExceeded));
    assert!(kzg.commit(&scalars(&[1, 2, 3])).is_ok());
}

#[test]
fn batch_functions_refuse_bad_points() {
    let kzg = ready_instance(2);
    let poly = scalars(&[1, 2, 3]);
    let commitment = kzg.commit(&poly).unwrap();
    assert_eq!(kzg.multi_open(&poly, &scalars(&[4, 4])).err(), Some(Error::DivisionByZero));
    assert_eq!(
        kzg.verify_multi(&scalars(&[4, 5]), &scalars(&[1]), commitment, commitment),
        Err(Error::LengthMismatch)
    );
    assert_eq!(
        kzg.verify_multi(&scalars(&[4, 5, 6]), &scalars(&[1, 2, 3]), commitment, commitment),
        Err(Error::DegreeExceeded)
    );
    assert_eq!(
        kzg.verify_multi(&scalars(&[4, 4]), &scalars(&[1, 1]), commitment, commitment),
        Err(Error::DivisionByZero)
    );
}

#[test]
fn degree_zero_instance_commits_to_constants() {
    let kzg = ready_instance(0);
    assert_eq!(kzg.crs_g1.len(), 1);
    let poly = scalars(&[42]);
    let commitment = kzg.commit(&poly).unwrap();
    assert_eq!(commitment.to_bytes(), point_g1(G1Affine::generator() * Fr::from(42u64)).to_bytes());
    let pi = kzg.open(&poly, Scalar::from_u64(3)).unwrap();
    assert!(kzg.verify(Scalar::from_u64(3), Scalar::from_u64(42), commitment, pi));
    assert!(!kzg.verify(Scalar::from_u64(3), Scalar::from_u64(41), commitment, pi));
}

#[test]
fn points_survive_the_round_trip_through_their_encoding() {
    let p = point_g1(G1Affine::generator() * Fr::from(77u64));
    let decoded = G1Affine::deserialize_compressed(&p.to_bytes()[..]).unwrap();
    assert_eq!(decoded, (G1Affine::generator() * Fr::from(77u64)).into_affine());
}

#[test]
fn error_messages() {
    assert_eq!(Error::DivisionByZero.message(), "Cannot divide by zero polynomial");
    assert_eq!(Error::LengthMismatch.message(), "Number of points and values do not match");
    assert_eq!(Error::DegreeExceeded.message(), "Polynomial degree exceeds the reference string");
}
