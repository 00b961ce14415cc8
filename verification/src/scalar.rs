//! Elements of the scalar field of BLS12-381, held as four 64-bit limbs.

use vstd::prelude::*;
use ark_bls12_381::Fr;
use ark_ff::BigInt;
use ark_ff::Field;
use ark_ff::FftField;
use vstd::arithmetic::div_mod::{lemma_mod_bound, lemma_mul_mod_noop_general, lemma_small_mod};
use vstd::arithmetic::mul::lemma_mul_is_associative;

verus! {

/// The order of the scalar field.
pub open spec fn modulus() -> nat {
    52435875175126190479447740508185965837690552500527637822603658699938581184513nat
}

/// Sum of two field elements.
pub open spec fn fadd(a: nat, b: nat) -> nat {
    (a + b) % modulus()
}

/// Difference of two field elements.
pub open spec fn fsub(a: nat, b: nat) -> nat {
    ((a as int - b as int) % (modulus() as int)) as nat
}

/// Product of two field elements.
pub open spec fn fmul(a: nat, b: nat) -> nat {
    (a * b) % modulus()
}

/// `base` raised to `exp`, in the field.
pub open spec fn fpow(base: nat, exp: nat) -> nat
    decreases exp,
{
    if exp == 0 {
        1
    } else {
        fmul(base, fpow(base, (exp - 1) as nat))
    }
}

/// The number that four little-endian 64-bit limbs stand for.
pub open spec fn limbs_value(l: Seq<u64>) -> nat {
    (l[0] as nat) + (l[1] as nat) * 0x1_0000_0000_0000_0000nat
        + (l[2] as nat) * 0x1_0000_0000_0000_0000_0000_0000_0000_0000nat
        + (l[3] as nat)
        * 0x1_0000_0000_0000_0000_0000_0000_0000_0000_0000_0000_0000_0000nat
}

/// A scalar in standard (non-Montgomery) form, least significant limb first.
#[derive(Clone, Copy, Debug)]
pub struct Scalar {
    pub(crate) limbs: [u64; 4],
}

impl View for Scalar {
    type V = nat;

    closed spec fn view(&self) -> nat {
        limbs_value(self.limbs@)
    }
}

impl Scalar {
    /// The limbs stand for a number below the modulus.
    pub open spec fn wf(&self) -> bool {
        self@ < modulus()
    }

    /// The four limbs, least significant first.
    pub fn limbs(&self) -> (r: [u64; 4])
        ensures
            limbs_value(r@) == self@,
    {
        self.limbs
    }

    /// The additive identity.
    pub fn zero() -> (r: Scalar)
        ensures
            r.wf(),
            r@ == 0,
    {
        Scalar { limbs: [0u64, 0u64, 0u64, 0u64] }
    }

    /// The multiplicative identity.
    pub fn one() -> (r: Scalar)
        ensures
            r.wf(),
            r@ == 1,
    {
        Scalar { limbs: [1u64, 0u64, 0u64, 0u64] }
    }

    /// The scalar that stands for a small number.
    pub fn from_u64(x: u64) -> (r: Scalar)
        ensures
            r.wf(),
            r@ == x,
    {
        Scalar { limbs: [x, 0u64, 0u64, 0u64] }
    }

    /// The scalar with the given limbs, if they stand for a number below the
    /// modulus.
    pub fn from_limbs(limbs: [u64; 4]) -> (r: Option<Scalar>)
        ensures
            r is Some <==> limbs_value(limbs@) < modulus(),
            r matches Some(s) ==> s.wf() && s@ == limbs_value(limbs@),
    {
        let m: [u64; 4] = [
            0xffff_ffff_0000_0001u64,
            0x53bd_a402_fffe_5bfeu64,
            0x3339_d808_09a1_d805u64,
            0x73ed_a753_299d_7d48u64,
        ];
        proof {
            lemma_limbs_order(limbs@, m@);
        }
        let below = if limbs[3] != m[3] {
            limbs[3] < m[3]
        } else if limbs[2] != m[2] {
            limbs[2] < m[2]
        } else if limbs[1] != m[1] {
            limbs[1] < m[1]
        } else {
            limbs[0] < m[0]
        };
        if below {
            Some(Scalar { limbs })
        } else {
            None
        }
    }
}

/// Of two numbers written with a low part below `2^64` and a high part, the
/// one with the smaller high part is smaller, and with equal high parts the
/// one with the smaller low part.
proof fn lemma_two_part_order(lo: int, hi: int, lo2: int, hi2: int)
    requires
        0 <= lo < 0x1_0000_0000_0000_0000,
        0 <= lo2 < 0x1_0000_0000_0000_0000,
    ensures
        (lo + 0x1_0000_0000_0000_0000 * hi < lo2 + 0x1_0000_0000_0000_0000 * hi2) <==> (hi < hi2
            || (hi == hi2 && lo < lo2)),
{
    if hi < hi2 {
        assert(0x1_0000_0000_0000_0000 * hi + 0x1_0000_0000_0000_0000 <= 0x1_0000_0000_0000_0000
            * hi2);
    } else if hi > hi2 {
        assert(0x1_0000_0000_0000_0000 * hi2 + 0x1_0000_0000_0000_0000 <= 0x1_0000_0000_0000_0000
            * hi);
    }
}

/// Numbers compare as their limbs do, from the most significant limb down.
pub proof fn lemma_limbs_order(a: Seq<u64>, b: Seq<u64>)
    requires
        a.len() == 4,
        b.len() == 4,
    ensures
        limbs_value(a) < limbs_value(b) <==> (if a[3] != b[3] {
            a[3] < b[3]
        } else if a[2] != b[2] {
            a[2] < b[2]
        } else if a[1] != b[1] {
            a[1] < b[1]
        } else {
            a[0] < b[0]
        }),
{
    let a2 = a[2] as int + 0x1_0000_0000_0000_0000 * a[3] as int;
    let b2 = b[2] as int + 0x1_0000_0000_0000_0000 * b[3] as int;
    let a1 = a[1] as int + 0x1_0000_0000_0000_0000 * a2;
    let b1 = b[1] as int + 0x1_0000_0000_0000_0000 * b2;
    lemma_two_part_order(a[2] as int, a[3] as int, b[2] as int, b[3] as int);
    lemma_two_part_order(a[1] as int, a2, b[1] as int, b2);
    lemma_two_part_order(a[0] as int, a1, b[0] as int, b1);
    assert(limbs_value(a) == a[0] as int + 0x1_0000_0000_0000_0000 * a1);
    assert(limbs_value(b) == b[0] as int + 0x1_0000_0000_0000_0000 * b1);
}

/// The multiplicative generator that the field's two-adic root is derived from.
pub open spec fn generator() -> nat {
    7
}

/// The field's two-adicity: `modulus() - 1` is `2^32` times an odd number.
pub const TWO_ADICITY: u32 = 32;

/// A root of unity of order `2^32`: the generator raised to the odd part of
/// `modulus() - 1`.
pub open spec fn two_adic_root() -> nat {
    fpow(generator(), ((modulus() - 1) / 0x1_0000_0000) as nat)
}

/// `Fr`'s `+`: addition modulo the field order, on canonical representatives.
#[verifier::external_body]
pub(crate) fn fr_add(a: &Scalar, b: &Scalar) -> (r: Scalar)
    requires
        a.wf(),
        b.wf(),
    ensures
        r.wf(),
        r@ == fadd(a@, b@),
{
    let x = Fr::from(BigInt::new(a.limbs));
    let y = Fr::from(BigInt::new(b.limbs));
    Scalar { limbs: BigInt::from(x + y).0 }
}

/// `Fr`'s `-`: subtraction modulo the field order, on canonical representatives.
#[verifier::external_body]
pub(crate) fn fr_sub(a: &Scalar, b: &Scalar) -> (r: Scalar)
    requires
        a.wf(),
        b.wf(),
    ensures
        r.wf(),
        r@ == fsub(a@, b@),
{
    let x = Fr::from(BigInt::new(a.limbs));
    let y = Fr::from(BigInt::new(b.limbs));
    Scalar { limbs: BigInt::from(x - y).0 }
}

/// `Fr`'s `*`: multiplication modulo the field order, on canonical
/// representatives.
#[verifier::external_body]
pub(crate) fn fr_mul(a: &Scalar, b: &Scalar) -> (r: Scalar)
    requires
        a.wf(),
        b.wf(),
    ensures
        r.wf(),
        r@ == fmul(a@, b@),
{
    let x = Fr::from(BigInt::new(a.limbs));
    let y = Fr::from(BigInt::new(b.limbs));
    Scalar { limbs: BigInt::from(x * y).0 }
}

/// `Field::inverse` on `Fr`: `None` for zero and for nothing else; otherwise the
/// element whose product with the argument is one.
#[verifier::external_body]
pub(crate) fn fr_inverse(a: &Scalar) -> (r: Option<Scalar>)
    requires
        a.wf(),
    ensures
        r is None <==> a@ == 0,
        r matches Some(b) ==> b.wf() && fmul(a@, b@) == 1,
{
    let x = Fr::from(BigInt::new(a.limbs));
    x.inverse().map(|v| Scalar { limbs: BigInt::from(v).0 })
}

/// `Field::pow` on `Fr` with a one-limb exponent: the argument multiplied by
/// itself `exp` times, one for `exp == 0`.
#[verifier::external_body]
pub(crate) fn fr_pow(a: &Scalar, exp: u64) -> (r: Scalar)
    requires
        a.wf(),
    ensures
        r.wf(),
        r@ == fpow(a@, exp as nat),
{
    let x = Fr::from(BigInt::new(a.limbs));
    Scalar { limbs: BigInt::from(x.pow([exp])).0 }
}

/// `FftField::TWO_ADIC_ROOT_OF_UNITY` of `Fr`: the field's generator, 7, raised
/// to the odd part of the order of the multiplicative group.
#[verifier::external_body]
pub(crate) fn fr_two_adic_root() -> (r: Scalar)
    ensures
        r.wf(),
        r@ == two_adic_root(),
{
    Scalar { limbs: BigInt::from(Fr::TWO_ADIC_ROOT_OF_UNITY).0 }
}

impl Scalar {
    /// The sum.
    pub fn add(&self, other: &Scalar) -> (r: Scalar)
        requires
            self.wf(),
            other.wf(),
        ensures
            r.wf(),
            r@ == fadd(self@, other@),
    {
        fr_add(self, other)
    }

    /// The difference.
    pub fn sub(&self, other: &Scalar) -> (r: Scalar)
        requires
            self.wf(),
            other.wf(),
        ensures
            r.wf(),
            r@ == fsub(self@, other@),
    {
        fr_sub(self, other)
    }

    /// The product.
    pub fn mul(&self, other: &Scalar) -> (r: Scalar)
        requires
            self.wf(),
            other.wf(),
        ensures
            r.wf(),
            r@ == fmul(self@, other@),
    {
        fr_mul(self, other)
    }

    /// The additive inverse.
    pub fn neg(&self) -> (r: Scalar)
        requires
            self.wf(),
        ensures
            r.wf(),
            r@ == fsub(0, self@),
    {
        let z = Scalar::zero();
        fr_sub(&z, self)
    }

    /// The multiplicative inverse; `None` exactly for zero.
    pub fn inverse(&self) -> (r: Option<Scalar>)
        requires
            self.wf(),
        ensures
            r is None <==> self@ == 0,
            r matches Some(b) ==> b.wf() && fmul(self@, b@) == 1,
    {
        fr_inverse(self)
    }

    /// The power to a small exponent.
    pub fn pow(&self, exp: u64) -> (r: Scalar)
        requires
            self.wf(),
        ensures
            r.wf(),
            r@ == fpow(self@, exp as nat),
    {
        fr_pow(self, exp)
    }

    /// Whether the scalar is zero.
    pub fn is_zero(&self) -> (r: bool)
        ensures
            r == (self@ == 0),
    {
        let z = Scalar::zero();
        self.equals(&z)
    }

    /// Whether two scalars stand for the same number.
    pub fn equals(&self, other: &Scalar) -> (r: bool)
        ensures
            r == (self@ == other@),
    {
        proof {
            lemma_limbs_injective(self.limbs@, other.limbs@);
        }
        self.limbs[0] == other.limbs[0] && self.limbs[1] == other.limbs[1] && self.limbs[2]
            == other.limbs[2] && self.limbs[3] == other.limbs[3]
    }
}

/// A multiple of `2^64` strictly between `-2^64` and `2^64` is zero.
proof fn lemma_small_multiple(d: int, t: int)
    requires
        -0x1_0000_0000_0000_0000 < d < 0x1_0000_0000_0000_0000,
        d + 0x1_0000_0000_0000_0000 * t == 0,
    ensures
        d == 0,
        t == 0,
{
    if t >= 1 {
        assert(0x1_0000_0000_0000_0000 * t >= 0x1_0000_0000_0000_0000);
    } else if t <= -1 {
        assert(0x1_0000_0000_0000_0000 * t <= -0x1_0000_0000_0000_0000);
    }
}

/// Different limbs stand for different numbers.
pub proof fn lemma_limbs_injective(a: Seq<u64>, b: Seq<u64>)
    requires
        a.len() == 4,
        b.len() == 4,
    ensures
        limbs_value(a) == limbs_value(b) <==> (a[0] == b[0] && a[1] == b[1] && a[2] == b[2]
            && a[3] == b[3]),
{
    if limbs_value(a) == limbs_value(b) {
        let d0 = a[0] as int - b[0] as int;
        let d1 = a[1] as int - b[1] as int;
        let d2 = a[2] as int - b[2] as int;
        let d3 = a[3] as int - b[3] as int;
        let t2 = d2 + 0x1_0000_0000_0000_0000 * d3;
        let t1 = d1 + 0x1_0000_0000_0000_0000 * t2;
        assert(d0 + 0x1_0000_0000_0000_0000 * t1 == 0);
        lemma_small_multiple(d0, t1);
        lemma_small_multiple(d1, t2);
        lemma_small_multiple(d2, d3);
    }
}

/// Field elements are the numbers below the modulus.
pub open spec fn is_elem(a: nat) -> bool {
    a < modulus()
}

/// A sum is a field element.
pub proof fn lemma_fadd_elem(a: nat, b: nat)
    ensures
        is_elem(fadd(a, b)),
{
    lemma_mod_bound((a + b) as int, modulus() as int);
}

/// Addition commutes.
pub proof fn lemma_fadd_comm(a: nat, b: nat)
    ensures
        fadd(a, b) == fadd(b, a),
{
}

/// Multiplication commutes.
pub proof fn lemma_fmul_comm(a: nat, b: nat)
    ensures
        fmul(a, b) == fmul(b, a),
{
    assert(a * b == b * a) by (nonlinear_arith);
}

/// Multiplication associates.
pub proof fn lemma_fmul_assoc(a: nat, b: nat, c: nat)
    ensures
        fmul(fmul(a, b), c) == fmul(a, fmul(b, c)),
{
    let m = modulus() as int;
    lemma_mul_mod_noop_general((a * b) as int, c as int, m);
    lemma_mul_mod_noop_general(a as int, (b * c) as int, m);
    lemma_mul_is_associative(a as int, b as int, c as int);
}

/// Zero and one are neutral, and zero absorbs.
pub proof fn lemma_identities(a: nat)
    requires
        is_elem(a),
    ensures
        fadd(a, 0) == a,
        fadd(0, a) == a,
        fsub(a, 0) == a,
        fsub(a, a) == 0,
        fmul(a, 1) == a,
        fmul(1, a) == a,
        fmul(a, 0) == 0,
        fmul(0, a) == 0,
{
    lemma_small_mod(a, modulus());
    assert(a * 1 == a && 1 * a == a && a * 0 == 0 && 0 * a == 0) by (nonlinear_arith);
}

/// Whether a field element has a multiplicative inverse. The field's order is
/// prime, so every element but zero has one; the library relies on that only
/// where an inverse has been computed.
pub open spec fn invertible(a: nat) -> bool {
    exists|b: nat| is_elem(b) && fmul(a, b) == 1
}

/// The multiplicative inverse of an invertible element.
pub open spec fn finv(a: nat) -> nat {
    choose|b: nat| is_elem(b) && fmul(a, b) == 1
}

/// An element has at most one inverse.
pub proof fn lemma_inverse_unique(a: nat, b: nat, c: nat)
    requires
        is_elem(b),
        is_elem(c),
        fmul(a, b) == 1,
        fmul(a, c) == 1,
    ensures
        b == c,
{
    lemma_identities(b);
    lemma_identities(c);
    lemma_fmul_assoc(b, a, c);
    lemma_fmul_comm(a, b);
}

/// An element with a known inverse is invertible, and `finv` names that
/// inverse.
pub proof fn lemma_finv_is(a: nat, b: nat)
    requires
        is_elem(b),
        fmul(a, b) == 1,
    ensures
        invertible(a),
        finv(a) == b,
{
    lemma_inverse_unique(a, finv(a), b);
}

/// The inverse of an invertible element is an element, and their product is
/// one.
pub proof fn lemma_finv(a: nat)
    requires
        invertible(a),
    ensures
        is_elem(finv(a)),
        fmul(a, finv(a)) == 1,
        fmul(finv(a), a) == 1,
{
    lemma_fmul_comm(a, finv(a));
}

/// Zero has no inverse.
pub proof fn lemma_zero_not_invertible()
    ensures
        !invertible(0),
{
    assert forall|b: nat| fmul(0, b) != 1 by {
        assert(0 * b == 0) by (nonlinear_arith);
    }
}

} // verus!
