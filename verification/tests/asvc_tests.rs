use ark_bls12_381::{Fr, G1Affine, G1Projective, G2Affine};
use ark_ec::{AffineRepr, CurveGroup};
use ark_ff::{BigInt, PrimeField};
use ark_serialize::{CanonicalDeserialize, CanonicalSerialize};
use kzg_asvc::asvc::{differentiate, index_commitments, points_of_domain, points_of_indices, ASVC};
use kzg_asvc::combination::combine_g1;
use kzg_asvc::error::Error;
use kzg_asvc::group::{G1Point, G2Point};
use kzg_asvc::kzg::KZG;
use kzg_asvc::scalar::Scalar;
use kzg_asvc::utils::{evaluate, get_root_of_unity, interpolate, product_of_factors};

fn point_g1(p: G1Projective) -> G1Point {
    let mut bytes = [0u8; 48];
    p.into_affine().serialize_compressed(&mut bytes[..]).unwrap();
    G1Point::from_bytes(bytes).unwrap()
}

fn ark_g1(p: &G1Point) -> G1Affine {
    G1Affine::deserialize_compressed(&p.to_bytes()[..]).unwrap()
}

fn generator_g1() -> G1Point {
    point_g1(G1Affine::generator().into_group())
}

fn generator_g2() -> G2Point {
    let mut bytes = [0u8; 96];
    G2Affine::generator().serialize_compressed(&mut bytes[..]).unwrap();
    G2Point::from_bytes(bytes).unwrap()
}

fn to_fr(s: &Scalar) -> Fr {
    Fr::from_bigint(BigInt::new(s.limbs())).unwrap()
}

fn scalars(xs: &[u64]) -> Vec<Scalar> {
    xs.iter().map(|x| Scalar::from_u64(*x)).collect()
}

fn secret() -> Scalar {
    Scalar::from_u64(987654321)
}

fn keys(degree: usize) -> ASVC {
    ASVC::key_gen(generator_g1(), generator_g2(), degree, secret())
}

fn picked(vector: &[Scalar], indices: &[usize]) -> Vec<Scalar> {
    indices.iter().map(|i| vector[*i]).collect()
}

#[test]
fn toy_vector_proves_two_positions() {
    let asvc = keys(4);
    let vector = scalars(&[3, 1, 4, 1]);
    let commitment = asvc.vector_commit(&vector).unwrap();
    let pi = asvc.prove_position(&[0, 2], &vector).unwrap();
    assert_eq!(asvc.verify_position(commitment, &[0, 2], &scalars(&[3, 4]), pi), Ok(true));
    assert_eq!(asvc.verify_position(commitment, &[0, 2], &scalars(&[3, 5]), pi), Ok(false));
}

#[test]
fn positions_out_of_order_verify() {
    let asvc = keys(4);
    let vector = scalars(&[3, 1, 4, 1]);
    let commitment = asvc.vector_commit(&vector).unwrap();
    let pi = asvc.prove_position(&[3, 0, 2], &vector).unwrap();
    assert_eq!(asvc.verify_position(commitment, &[3, 0, 2], &scalars(&[1, 3, 4]), pi), Ok(true));
    assert_eq!(asvc.verify_position(commitment, &[3, 0, 2], &scalars(&[3, 1, 4]), pi), Ok(false));
}

#[test]
fn every_subset_of_four_positions_verifies() {
    let asvc = keys(4);
    let vector = scalars(&[3, 1, 4, 1]);
    let commitment = asvc.vector_commit(&vector).unwrap();
    for mask in 1u32..16 {
        let indices: Vec<usize> = (0..4).filter(|i| mask & (1 << i) != 0).collect();
        let pi = asvc.prove_position(&indices, &vector).unwrap();
        let subvector = picked(&vector, &indices);
        assert_eq!(asvc.verify_position(commitment, &indices, &subvector, pi), Ok(true));
    }
}

#[test]
fn subsets_of_eight_positions_verify() {
    let asvc = keys(8);
    let vector = scalars(&[10, 20, 30, 40, 50, 60, 70, 80]);
    let commitment = asvc.vector_commit(&vector).unwrap();
    let subsets: [&[usize]; 5] = [&[7], &[0, 7], &[5, 1, 6], &[0, 1, 2, 3, 4, 5, 6], &[7, 6, 5, 4, 3, 2, 1, 0]];
    for indices in subsets {
        let pi = asvc.prove_position(indices, &vector).unwrap();
        let subvector = picked(&vector, indices);
        assert_eq!(asvc.verify_position(commitment, indices, &subvector, pi), Ok(true));
        let mut tampered = subvector.clone();
        tampered[0] = tampered[0].add(&Scalar::one());
        assert_eq!(asvc.verify_position(commitment, indices, &tampered, pi), Ok(false));
    }
}

#[test]
fn single_slot_vector_works() {
    let asvc = keys(1);
    assert_eq!(asvc.degree, 1);
    assert_eq!(asvc.proving_key.li_commitment.len(), 1);
    let vector = scalars(&[99]);
    let commitment = asvc.vector_commit(&vector).unwrap();
    assert_eq!(commitment.to_bytes(), point_g1(G1Affine::generator() * Fr::from(99u64)).to_bytes());
    let pi = asvc.prove_position(&[0], &vector).unwrap();
    assert_eq!(asvc.verify_position(commitment, &[0], &vector, pi), Ok(true));
    assert_eq!(asvc.verify_position(commitment, &[0], &scalars(&[98]), pi), Ok(false));
}

#[test]
fn keys_for_no_entries_are_empty() {
    let asvc = keys(0);
    assert_eq!(asvc.proving_key.crs.g1.len(), 1);
    assert!(asvc.proving_key.li_commitment.is_empty());
    assert!(asvc.update_key.ai_commitment.is_empty());
    let commitment = asvc.vector_commit(&[]).unwrap();
    assert_eq!(commitment.to_bytes(), point_g1(G1Affine::generator() * Fr::from(0u64)).to_bytes());
}

#[test]
fn vector_commitment_is_the_value_of_the_interpolation_at_the_secret() {
    let asvc = keys(4);
    let vector = scalars(&[3, 1, 4, 1]);
    let commitment = asvc.vector_commit(&vector).unwrap();
    let omega = get_root_of_unity(4);
    let domain = points_of_domain(&omega, 4);
    let through = interpolate(&domain, &vector).unwrap();
    let value = to_fr(&evaluate(&through, secret()));
    assert_eq!(commitment.to_bytes(), point_g1(G1Affine::generator() * value).to_bytes());
}

#[test]
fn key_generation_commits_to_the_lagrange_basis() {
    let asvc = keys(4);
    let crs = &asvc.proving_key.crs.g1;
    assert_eq!(crs.len(), 5);
    assert_eq!(asvc.proving_key.crs.g2.len(), 5);
    assert_eq!(asvc.verification_key.crs.g1.len(), 5);
    assert_eq!(asvc.verification_key.crs.g2.len(), 5);
    assert_eq!(asvc.proving_key.li_commitment.len(), 4);
    assert_eq!(asvc.update_key.ai_commitment.len(), 4);
    assert_eq!(asvc.update_key.ui_commitment.len(), 4);
    assert_eq!(asvc.proving_key.update_key.ai_commitment.len(), 4);
    let omega = get_root_of_unity(4);
    let domain = points_of_domain(&omega, 4);
    for i in 0..4 {
        let mut unit = scalars(&[0, 0, 0, 0]);
        unit[i] = Scalar::one();
        let basis = interpolate(&domain, &unit).unwrap();
        let expected = combine_g1(&generator_g1(), crs, &basis);
        assert_eq!(asvc.proving_key.li_commitment[i].to_bytes(), expected.to_bytes());
    }
    let minus_one = Scalar::one().neg();
    let vanishing = vec![minus_one, Scalar::zero(), Scalar::zero(), Scalar::zero(), Scalar::one()];
    let expected = combine_g1(&generator_g1(), crs, &vanishing);
    assert_eq!(asvc.verification_key.a_commitment.to_bytes(), expected.to_bytes());
}

#[test]
fn update_key_opens_the_basis_and_the_vanishing_polynomial() {
    let asvc = keys(4);
    let mut kzg = KZG::new(generator_g1(), generator_g2(), 4);
    kzg.setup(secret());
    let omega = get_root_of_unity(4);
    for i in 0..4 {
        let point = omega.pow(i as u64);
        let li = asvc.proving_key.li_commitment[i];
        let ui = asvc.update_key.ui_commitment[i];
        assert!(kzg.verify(point, Scalar::one(), li, ui));
        let ai = asvc.update_key.ai_commitment[i];
        assert!(kzg.verify(point, Scalar::zero(), asvc.verification_key.a_commitment, ai));
        assert_eq!(asvc.proving_key.update_key.ui_commitment[i].to_bytes(), ui.to_bytes());
    }
}

#[test]
fn index_commitments_are_those_of_the_keys() {
    let asvc = keys(4);
    let omega = get_root_of_unity(4);
    let n_inv = Scalar::from_u64(4).inverse().unwrap();
    let (ai, li, ui) = index_commitments(&generator_g1(), &asvc.proving_key.crs.g1, 4, 2, &omega, &n_inv);
    assert_eq!(ai.to_bytes(), asvc.update_key.ai_commitment[2].to_bytes());
    assert_eq!(li.to_bytes(), asvc.proving_key.li_commitment[2].to_bytes());
    assert_eq!(ui.to_bytes(), asvc.update_key.ui_commitment[2].to_bytes());
}

#[test]
fn points_of_positions_are_powers_of_the_root() {
    let omega = get_root_of_unity(8);
    let points = points_of_indices(&omega, &[3, 0, 9], 8);
    assert!(points[0].equals(&omega.pow(3)));
    assert!(points[1].equals(&Scalar::one()));
    assert!(points[2].equals(&omega));
    let domain = points_of_domain(&omega, 8);
    assert_eq!(domain.len(), 8);
    assert!(domain[5].equals(&omega.pow(5)));
}

#[test]
fn derivative_of_a_polynomial() {
    let found = differentiate(&scalars(&[7, 5, 3, 2]));
    let expected = scalars(&[5, 6, 6]);
    assert_eq!(found.len(), 3);
    for (a, b) in found.iter().zip(expected.iter()) {
        assert!(a.equals(b));
    }
    assert!(differentiate(&[]).is_empty());
    assert!(differentiate(&scalars(&[7])).is_empty());
}

#[test]
fn aggregation_is_the_sum_weighted_by_the_derivative() {
    let asvc = keys(4);
    let vector = scalars(&[3, 1, 4, 1]);
    let indices = [2usize, 0, 3];
    let proofs: Vec<G1Point> =
        indices.iter().map(|i| asvc.prove_position(&[*i], &vector).unwrap()).collect();
    let found = asvc.aggregate_proofs(&indices, proofs.clone()).unwrap();
    let omega = get_root_of_unity(4);
    let roots = points_of_indices(&omega, &indices, 4);
    let derivative = differentiate(&product_of_factors(&roots, None));
    let mut expected = G1Affine::generator() * Fr::from(0u64);
    for k in 0..3 {
        expected += ark_g1(&proofs[k]) * to_fr(&evaluate(&derivative, roots[k]));
    }
    assert_eq!(found.to_bytes(), point_g1(expected).to_bytes());
}

#[test]
fn aggregate_of_one_proof_verifies_as_the_proof_does() {
    let asvc = keys(4);
    let vector = scalars(&[3, 1, 4, 1]);
    let commitment = asvc.vector_commit(&vector).unwrap();
    for i in 0..4usize {
        let pi = asvc.prove_position(&[i], &vector).unwrap();
        let aggregated = asvc.aggregate_proofs(&[i], vec![pi]).unwrap();
        assert_eq!(aggregated.to_bytes(), pi.to_bytes());
        assert_eq!(asvc.verify_position(commitment, &[i], &[vector[i]], aggregated), Ok(true));
    }
}

#[test]
fn proofs_weighted_by_partial_fractions_add_up_to_the_joint_proof() {
    let asvc = keys(8);
    let vector = scalars(&[10, 20, 30, 40, 50, 60, 70, 80]);
    let commitment = asvc.vector_commit(&vector).unwrap();
    let indices = [6usize, 1, 3];
    let proofs: Vec<G1Point> =
        indices.iter().map(|i| asvc.prove_position(&[*i], &vector).unwrap()).collect();
    let omega = get_root_of_unity(8);
    let roots = points_of_indices(&omega, &indices, 8);
    let mut weights = vec![];
    for k in 0..3 {
        let mut denominator = Scalar::one();
        for j in 0..3 {
            if j != k {
                denominator = denominator.mul(&roots[k].sub(&roots[j]));
            }
        }
        weights.push(denominator.inverse().unwrap());
    }
    let joint = combine_g1(&asvc.proving_key.crs.g1[0], &proofs, &weights);
    let subvector = picked(&vector, &indices);
    assert_eq!(asvc.verify_position(commitment, &indices, &subvector, joint), Ok(true));
    let direct = asvc.prove_position(&indices, &vector).unwrap();
    assert_eq!(joint.to_bytes(), direct.to_bytes());
}

#[test]
fn aggregate_weighted_by_the_derivative_is_another_element() {
    let asvc = keys(8);
    let vector = scalars(&[10, 20, 30, 40, 50, 60, 70, 80]);
    let commitment = asvc.vector_commit(&vector).unwrap();
    let indices = [6usize, 1, 3];
    let proofs: Vec<G1Point> =
        indices.iter().map(|i| asvc.prove_position(&[*i], &vector).unwrap()).collect();
    let aggregated = asvc.aggregate_proofs(&indices, proofs).unwrap();
    let direct = asvc.prove_position(&indices, &vector).unwrap();
    assert_ne!(aggregated.to_bytes(), direct.to_bytes());
    let subvector = picked(&vector, &indices);
    assert_eq!(asvc.verify_position(commitment, &indices, &subvector, aggregated), Ok(false));
}

#[test]
fn aggregate_of_no_proof_is_zero() {
    let asvc = keys(4);
    let found = asvc.aggregate_proofs(&[], vec![]).unwrap();
    assert_eq!(found.to_bytes(), point_g1(G1Affine::generator() * Fr::from(0u64)).to_bytes());
}

#[test]
fn vector_of_the_wrong_length_is_refused() {
    let asvc = keys(4);
    let vector = scalars(&[3, 1, 4]);
    assert_eq!(asvc.vector_commit(&vector).err(), Some(Error::LengthMismatch));
    assert_eq!(asvc.prove_position(&[0], &vector).err(), Some(Error::LengthMismatch));
    assert_eq!(asvc.vector_commit(&scalars(&[3, 1, 4, 1, 5])).err(), Some(Error::LengthMismatch));
}

#[test]
fn verification_refuses_malformed_requests() {
    let asvc = keys(4);
    let vector = scalars(&[3, 1, 4, 1]);
    let commitment = asvc.vector_commit(&vector).unwrap();
    let pi = asvc.prove_position(&[0], &vector).unwrap();
    assert_eq!(
        asvc.verify_position(commitment, &[0, 1], &scalars(&[3]), pi),
        Err(Error::LengthMismatch)
    );
    assert_eq!(
        asvc.verify_position(commitment, &[0, 1, 2, 3, 0], &scalars(&[3, 1, 4, 1, 3]), pi),
        Err(Error::DegreeExceeded)
    );
    assert_eq!(
        asvc.verify_position(commitment, &[1, 1], &scalars(&[1, 1]), pi),
        Err(Error::DivisionByZero)
    );
    assert_eq!(asvc.aggregate_proofs(&[0, 1], vec![pi]).err(), Some(Error::LengthMismatch));
}

#[test]
fn a_degree_that_is_no_power_of_two_gives_keys_that_do_not_verify() {
    let asvc = keys(3);
    let vector = scalars(&[3, 1, 4]);
    let commitment = asvc.vector_commit(&vector).unwrap();
    let pi = asvc.prove_position(&[0], &vector).unwrap();
    assert_eq!(asvc.verify_position(commitment, &[0], &scalars(&[3]), pi), Ok(false));
}
