use ark_bls12_381::Fr;
use ark_ff::{BigInt, FftField, Field, PrimeField};
use kzg_asvc::scalar::{Scalar, TWO_ADICITY};
use kzg_asvc::utils::{get_omega, get_root_of_unity};

fn to_fr(s: &Scalar) -> Fr {
    Fr::from_bigint(BigInt::new(s.limbs())).unwrap()
}

fn from_fr(x: Fr) -> Scalar {
    Scalar::from_limbs(x.into_bigint().0).unwrap()
}

fn sample_a() -> Scalar {
    Scalar::from_limbs([0x1234_5678_9abc_def0, 0x0fed_cba9_8765_4321, 0xdead_beef_cafe_f00d, 0x1111_2222_3333_4444])
        .unwrap()
}

fn sample_b() -> Scalar {
    Scalar::from_limbs([0xffff_ffff_ffff_fff1, 0x0123_4567_89ab_cdef, 0x0000_0000_0000_0007, 0x7000_0000_0000_0001])
        .unwrap()
}

#[test]
fn scalar_addition_wraps_at_the_modulus() {
    let one = Scalar::one();
    let minus_one = one.neg();
    assert!(one.add(&minus_one).is_zero());
    assert!(!minus_one.is_zero());
    assert_eq!(
        minus_one.limbs(),
        [0xffff_ffff_0000_0000, 0x53bd_a402_fffe_5bfe, 0x3339_d808_09a1_d805, 0x73ed_a753_299d_7d48]
    );
}

#[test]
fn scalar_inverse_of_zero_is_none() {
    assert!(Scalar::zero().inverse().is_none());
    let seven = Scalar::from_u64(7);
    let inv = seven.inverse().unwrap();
    assert!(seven.mul(&inv).equals(&Scalar::one()));
}

#[test]
fn scalar_operations_agree_with_the_field() {
    let a = sample_a();
    let b = sample_b();
    assert!(a.add(&b).equals(&from_fr(to_fr(&a) + to_fr(&b))));
    assert!(a.sub(&b).equals(&from_fr(to_fr(&a) - to_fr(&b))));
    assert!(b.sub(&a).equals(&from_fr(to_fr(&b) - to_fr(&a))));
    assert!(a.mul(&b).equals(&from_fr(to_fr(&a) * to_fr(&b))));
    assert!(a.neg().equals(&from_fr(-to_fr(&a))));
    assert!(a.inverse().unwrap().equals(&from_fr(to_fr(&a).inverse().unwrap())));
    assert!(a.pow(65537).equals(&from_fr(to_fr(&a).pow([65537u64]))));
    assert!(!a.add(&b).equals(&a));
    assert!(!a.mul(&b).equals(&a));
    assert!(!a.sub(&b).equals(&a));
    assert!(!a.inverse().unwrap().equals(&a));
    assert!(!a.pow(3).equals(&a));
}

#[test]
fn scalar_small_values_are_exact() {
    let six = Scalar::from_u64(6);
    let seven = Scalar::from_u64(7);
    assert_eq!(six.add(&seven).limbs(), [13, 0, 0, 0]);
    assert_eq!(six.mul(&seven).limbs(), [42, 0, 0, 0]);
    assert_eq!(seven.sub(&six).limbs(), [1, 0, 0, 0]);
    assert_eq!(seven.pow(0).limbs(), [1, 0, 0, 0]);
    assert_eq!(seven.pow(3).limbs(), [343, 0, 0, 0]);
    assert_eq!(Scalar::zero().limbs(), [0, 0, 0, 0]);
    assert_eq!(Scalar::one().limbs(), [1, 0, 0, 0]);
}

#[test]
fn from_limbs_refuses_the_modulus_and_beyond() {
    let modulus = [0xffff_ffff_0000_0001, 0x53bd_a402_fffe_5bfe, 0x3339_d808_09a1_d805, 0x73ed_a753_299d_7d48];
    assert!(Scalar::from_limbs(modulus).is_none());
    assert!(Scalar::from_limbs([u64::MAX, u64::MAX, u64::MAX, u64::MAX]).is_none());
    assert!(Scalar::from_limbs([0, 0, 0, 0x73ed_a753_299d_7d49]).is_none());
    let below = [0xffff_ffff_0000_0000, 0x53bd_a402_fffe_5bfe, 0x3339_d808_09a1_d805, 0x73ed_a753_299d_7d48];
    assert!(Scalar::from_limbs(below).is_some());
    assert!(Scalar::from_limbs([u64::MAX, u64::MAX, u64::MAX, 0]).is_some());
}

#[test]
fn equality_looks_at_every_limb() {
    let a = sample_a();
    for i in 0..4 {
        let mut limbs = a.limbs();
        limbs[i] ^= 1;
        let other = Scalar::from_limbs(limbs).unwrap();
        assert!(!a.equals(&other));
    }
    assert!(a.equals(&sample_a()));
    assert!(!a.is_zero());
    assert!(Scalar::zero().is_zero());
}

#[test]
fn two_adicity_is_the_field_s() {
    assert_eq!(TWO_ADICITY, Fr::TWO_ADICITY);
}

#[test]
fn root_of_the_largest_domain_is_the_two_adic_root() {
    let omega = get_root_of_unity(1usize << 32);
    assert!(omega.equals(&from_fr(Fr::TWO_ADIC_ROOT_OF_UNITY)));
    assert_eq!(
        omega.limbs(),
        [0x3829_971f_439f_0d2b, 0xb636_8350_8c22_80b9, 0xd09b_6819_22c8_13b4, 0x16a2_a19e_dfe8_1f20]
    );
}

#[test]
fn root_of_unity_has_exactly_the_order_asked_for() {
    for log in 0..6u32 {
        let size = 1usize << log;
        let omega = get_root_of_unity(size);
        assert!(omega.pow(size as u64).equals(&Scalar::one()));
        if size > 1 {
            assert!(!omega.pow((size / 2) as u64).equals(&Scalar::one()));
        }
        assert!(omega.equals(&from_fr(Fr::get_root_of_unity(size as u64).unwrap())));
    }
}

#[test]
fn root_of_unity_rounds_the_size_up() {
    assert!(get_root_of_unity(0).equals(&Scalar::one()));
    assert!(get_root_of_unity(1).equals(&Scalar::one()));
    assert!(get_root_of_unity(3).equals(&get_root_of_unity(4)));
    assert!(get_root_of_unity(5).equals(&get_root_of_unity(8)));
    assert!(get_root_of_unity(9).equals(&get_root_of_unity(16)));
    assert!(!get_root_of_unity(2).equals(&get_root_of_unity(4)));
    let coefficients = vec![Scalar::zero(); 8];
    assert!(get_omega(&coefficients).equals(&get_root_of_unity(8)));
}
