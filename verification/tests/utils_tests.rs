use kzg_asvc::error::Error;
use kzg_asvc::scalar::Scalar;
use kzg_asvc::utils::{
    add, copy_vector, div, evaluate, interpolate, linear, mul, product_of_factors, scalar_mul,
    significant_len, sub, zero_vector,
};

fn scalars(xs: &[u64]) -> Vec<Scalar> {
    xs.iter().map(|x| Scalar::from_u64(*x)).collect()
}

fn same(a: &[Scalar], b: &[Scalar]) -> bool {
    a.len() == b.len() && a.iter().zip(b.iter()).all(|(x, y)| x.equals(y))
}

#[test]
fn add_pads_the_shorter_operand() {
    assert!(same(&add(&scalars(&[1, 2, 3]), &scalars(&[10, 20])), &scalars(&[11, 22, 3])));
    assert!(same(&add(&scalars(&[10, 20]), &scalars(&[1, 2, 3])), &scalars(&[11, 22, 3])));
    assert!(same(&add(&[], &scalars(&[4])), &scalars(&[4])));
    assert!(add(&[], &[]).is_empty());
}

#[test]
fn sub_pads_the_shorter_operand() {
    assert!(same(&sub(&scalars(&[11, 22, 3]), &scalars(&[10, 20])), &scalars(&[1, 2, 3])));
    let negated = sub(&scalars(&[1]), &scalars(&[1, 5]));
    assert!(negated[0].is_zero());
    assert!(negated[1].equals(&Scalar::from_u64(5).neg()));
}

#[test]
fn mul_is_the_full_convolution() {
    assert!(same(&mul(&scalars(&[1, 2]), &scalars(&[3, 4])), &scalars(&[3, 10, 8])));
    assert!(same(&mul(&scalars(&[1, 2, 3]), &scalars(&[4, 5, 6])), &scalars(&[4, 13, 28, 27, 18])));
    assert!(same(&mul(&scalars(&[7]), &scalars(&[1, 2, 3])), &scalars(&[7, 14, 21])));
}

#[test]
fn mul_with_an_empty_operand_is_zero() {
    assert!(same(&mul(&[], &scalars(&[1, 2, 3])), &scalars(&[0, 0])));
    assert!(same(&mul(&scalars(&[1, 2, 3]), &[]), &scalars(&[0, 0])));
    assert!(mul(&[], &[]).is_empty());
}

#[test]
fn scalar_mul_scales_every_coefficient() {
    assert!(same(&scalar_mul(&scalars(&[1, 2, 3]), Scalar::from_u64(5)), &scalars(&[5, 10, 15])));
    assert!(scalar_mul(&[], Scalar::from_u64(5)).is_empty());
}

#[test]
fn div_of_an_exact_product() {
    assert_eq!(div(&scalars(&[3, 10, 8]), &scalars(&[3, 4])).map(|q| same(&q, &scalars(&[1, 2]))), Ok(true));
}

#[test]
fn div_drops_the_remainder() {
    let x_minus_one = linear(&Scalar::one());
    let quotient = div(&scalars(&[1, 0, 1]), &x_minus_one).unwrap();
    assert!(same(&quotient, &scalars(&[1, 1])));
}

#[test]
fn div_by_zero_polynomial_is_refused() {
    assert_eq!(div(&scalars(&[1, 2, 3]), &scalars(&[0, 0])).err(), Some(Error::DivisionByZero));
    assert_eq!(div(&scalars(&[1, 2, 3]), &[]).err(), Some(Error::DivisionByZero));
    assert_eq!(div(&[], &[]).err(), Some(Error::DivisionByZero));
}

#[test]
fn div_of_a_shorter_numerator_is_zero() {
    let quotient = div(&scalars(&[1, 2]), &scalars(&[1, 2, 3])).unwrap();
    assert!(same(&quotient, &scalars(&[0])));
    let quotient = div(&[], &scalars(&[1])).unwrap();
    assert!(same(&quotient, &scalars(&[0])));
}

#[test]
fn div_looks_past_trailing_zeros_of_the_denominator() {
    let quotient = div(&scalars(&[3, 10, 8, 0]), &scalars(&[3, 4, 0])).unwrap();
    assert!(same(&quotient, &scalars(&[1, 2, 0])));
    let quotient = div(&scalars(&[1, 2]), &scalars(&[1, 2, 0])).unwrap();
    assert!(same(&quotient, &scalars(&[1])));
}

#[test]
fn div_with_a_leading_coefficient_other_than_one() {
    let p = scalars(&[9, 8, 7, 6]);
    let q = scalars(&[5, 0, 3]);
    let product = mul(&p, &q);
    assert!(same(&div(&product, &q).unwrap(), &p));
}

#[test]
fn division_undoes_multiplication() {
    let p = scalars(&[4, 0, 0, 9, 1]);
    for q in [scalars(&[1]), scalars(&[0, 1]), scalars(&[2, 3]), scalars(&[7, 0, 0, 0, 11])] {
        let product = mul(&p, &q);
        assert!(same(&div(&product, &q).unwrap(), &p));
    }
}

#[test]
fn evaluate_is_the_sum_of_the_terms() {
    assert!(evaluate(&scalars(&[1, 2, 3]), Scalar::from_u64(2)).equals(&Scalar::from_u64(17)));
    assert!(evaluate(&scalars(&[5]), Scalar::from_u64(1000)).equals(&Scalar::from_u64(5)));
    assert!(evaluate(&[], Scalar::from_u64(5)).is_zero());
    assert!(evaluate(&scalars(&[1, 2, 3]), Scalar::zero()).equals(&Scalar::one()));
    let minus_one = Scalar::one().neg();
    assert!(evaluate(&scalars(&[1, 2, 3]), minus_one).equals(&Scalar::from_u64(2)));
}

#[test]
fn interpolate_finds_the_square() {
    let found = interpolate(&scalars(&[1, 2, 3]), &scalars(&[1, 4, 9])).unwrap();
    assert!(same(&found, &scalars(&[0, 0, 1])));
}

#[test]
fn interpolate_with_mismatched_lengths_is_refused() {
    assert_eq!(interpolate(&scalars(&[1, 2, 3]), &scalars(&[1, 4])).err(), Some(Error::LengthMismatch));
    assert_eq!(interpolate(&[], &scalars(&[1])).err(), Some(Error::LengthMismatch));
}

#[test]
fn interpolate_through_a_repeated_point_is_refused() {
    assert_eq!(interpolate(&scalars(&[1, 2, 1]), &scalars(&[1, 4, 1])).err(), Some(Error::DivisionByZero));
}

#[test]
fn interpolate_through_nothing_is_empty() {
    assert_eq!(interpolate(&[], &[]).map(|v| v.len()), Ok(0));
}

#[test]
fn interpolation_gives_the_polynomial_back() {
    let p = scalars(&[6, 0, 2, 5]);
    let points = scalars(&[0, 1, 2, 3, 1000, 77]);
    let values: Vec<Scalar> = points.iter().map(|x| evaluate(&p, *x)).collect();
    let found = interpolate(&points, &values).unwrap();
    assert!(same(&found, &scalars(&[6, 0, 2, 5, 0, 0])));
}

#[test]
fn interpolation_hits_its_values() {
    let points = scalars(&[3, 9, 27, 81]);
    let values = scalars(&[1, 0, 123456, 5]);
    let found = interpolate(&points, &values).unwrap();
    assert_eq!(found.len(), 4);
    for (x, y) in points.iter().zip(values.iter()) {
        assert!(evaluate(&found, *x).equals(y));
    }
}

#[test]
fn product_of_factors_has_the_given_roots() {
    let roots = scalars(&[1, 2, 3]);
    let all = product_of_factors(&roots, None);
    let expected = vec![
        Scalar::from_u64(6).neg(),
        Scalar::from_u64(11),
        Scalar::from_u64(6).neg(),
        Scalar::one(),
    ];
    assert!(same(&all, &expected));
    let without_middle = product_of_factors(&roots, Some(1));
    let expected = vec![Scalar::from_u64(3), Scalar::from_u64(4).neg(), Scalar::one()];
    assert!(same(&without_middle, &expected));
    assert!(same(&product_of_factors(&[], None), &scalars(&[1])));
}

#[test]
fn small_helpers() {
    assert!(same(&zero_vector(3), &scalars(&[0, 0, 0])));
    assert!(same(&copy_vector(&scalars(&[4, 5])), &scalars(&[4, 5])));
    assert_eq!(significant_len(&scalars(&[1, 0, 2, 0, 0])), 3);
    assert_eq!(significant_len(&scalars(&[0, 0])), 0);
    assert_eq!(significant_len(&[]), 0);
    let factor = linear(&Scalar::from_u64(5));
    assert!(factor[0].equals(&Scalar::from_u64(5).neg()));
    assert!(factor[1].equals(&Scalar::one()));
}
