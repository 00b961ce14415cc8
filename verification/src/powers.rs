//! Powers in the field: how exponents add and multiply, and what repeated
//! squaring gives.

use vstd::prelude::*;
use crate::congruence::{
    cong, lemma_cong_add, lemma_cong_elems, lemma_cong_mul, lemma_cong_sub, lemma_field_ops_cong,
};
use crate::poly::squared_times;
use crate::scalar::{
    fadd, finv, fmul, fpow, fsub, invertible, is_elem, lemma_finv, lemma_finv_is, lemma_identities,
    modulus,
};
use crate::sums::{ipow, lemma_ipow_adds};
use vstd::arithmetic::power2::{lemma_pow2_unfold, pow2};

verus! {

/// Powers add their exponents.
pub proof fn lemma_fpow_adds(b: nat, e: nat, f: nat)
    ensures
        fpow(b, e + f) == fmul(fpow(b, e), fpow(b, f)),
{
    lemma_fpow_cong(b, e);
    lemma_fpow_cong(b, f);
    lemma_fpow_cong(b, e + f);
    lemma_ipow_adds(b as int, e, f);
    lemma_field_ops_cong(fpow(b, e), fpow(b, f));
    lemma_cong_mul(fpow(b, e) as int, ipow(b as int, e), fpow(b, f) as int, ipow(b as int, f));
    lemma_cong_elems(fpow(b, e + f), fmul(fpow(b, e), fpow(b, f)));
}

/// The power to twice an exponent is the square of the power.
pub proof fn lemma_fpow_double(b: nat, e: nat)
    ensures
        fpow(b, e + e) == fmul(fpow(b, e), fpow(b, e)),
{
    lemma_fpow_adds(b, e, e);
}

/// The first power of an element is the element, and its second its square.
pub proof fn lemma_fpow_small(b: nat)
    requires
        is_elem(b),
    ensures
        fpow(b, 0) == 1,
        fpow(b, 1) == b,
        fpow(b, 2) == fmul(b, b),
{
    lemma_identities(b);
    assert(fpow(b, 1) == fmul(b, fpow(b, 0)));
    assert(fpow(b, 2) == fmul(b, fpow(b, 1)));
}

/// Squaring `m` times and then `k` times is squaring `m + k` times.
pub proof fn lemma_squared_times_adds(a: nat, m: nat, k: nat)
    ensures
        squared_times(squared_times(a, m), k) == squared_times(a, m + k),
    decreases k,
{
    if k > 0 {
        lemma_squared_times_adds(a, m, (k - 1) as nat);
    }
}

/// Squaring `k` times raises to the power `2^k`.
pub proof fn lemma_squared_times_is_power(a: nat, k: nat)
    requires
        is_elem(a),
    ensures
        squared_times(a, k) == fpow(a, pow2(k)),
        is_elem(squared_times(a, k)),
    decreases k,
{
    if k == 0 {
        vstd::arithmetic::power2::lemma2_to64();
        lemma_fpow_small(a);
    } else {
        lemma_squared_times_is_power(a, (k - 1) as nat);
        lemma_pow2_unfold(k);
        let h = pow2((k - 1) as nat);
        lemma_fpow_double(a, h);
        assert(h + h == pow2(k));
        lemma_field_ops_cong(fpow(a, h), fpow(a, h));
    }
}

/// Where two elements have inverses, so has their product.
pub proof fn lemma_invertible_product(a: nat, b: nat)
    requires
        invertible(a),
        invertible(b),
    ensures
        invertible(fmul(a, b)),
{
    let ai = finv(a);
    let bi = finv(b);
    lemma_finv(a);
    lemma_finv(b);
    lemma_field_ops_cong(a, b);
    lemma_field_ops_cong(ai, bi);
    lemma_field_ops_cong(a, ai);
    lemma_field_ops_cong(b, bi);
    lemma_field_ops_cong(fmul(a, b), fmul(ai, bi));
    lemma_cong_mul(fmul(a, b) as int, a as int * b as int, fmul(ai, bi) as int, ai as int * bi as int);
    lemma_cong_mul(a as int * ai as int, 1, b as int * bi as int, 1);
    assert((a as int * b as int) * (ai as int * bi as int) == (a as int * ai as int) * (b as int
        * bi as int)) by (nonlinear_arith);
    lemma_cong_elems(fmul(fmul(a, b), fmul(ai, bi)), 1);
    lemma_finv_is(fmul(a, b), fmul(ai, bi));
}

/// Where an element has an inverse, so has its negation.
pub proof fn lemma_invertible_neg(a: nat)
    requires
        invertible(a),
    ensures
        invertible(fsub(0, a)),
{
    let ai = finv(a);
    lemma_finv(a);
    lemma_field_ops_cong(0, a);
    lemma_field_ops_cong(0, ai);
    lemma_field_ops_cong(a, ai);
    lemma_field_ops_cong(fsub(0, a), fsub(0, ai));
    lemma_cong_mul(fsub(0, a) as int, 0 - a as int, fsub(0, ai) as int, 0 - ai as int);
    assert((0 - a as int) * (0 - ai as int) == a as int * ai as int) by (nonlinear_arith);
    lemma_cong_elems(fmul(fsub(0, a), fsub(0, ai)), 1);
    lemma_finv_is(fsub(0, a), fsub(0, ai));
}

/// Two has an inverse, and so has minus two.
pub proof fn lemma_two_invertible()
    ensures
        invertible(2),
        invertible(fsub(0, 2)),
{
    let half = 26217937587563095239723870254092982918845276250263818911301829349969290592257nat;
    assert(fmul(2, half) == 1) by (nonlinear_arith)
        requires
            modulus() == 52435875175126190479447740508185965837690552500527637822603658699938581184513nat,
            half == 26217937587563095239723870254092982918845276250263818911301829349969290592257nat,
    ;
    lemma_finv_is(2, half);
    lemma_invertible_neg(2);
}

/// The powers of two up to `2^32` have inverses.
pub proof fn lemma_pow2_invertible(k: nat)
    requires
        k <= 32,
    ensures
        invertible(pow2(k)),
        pow2(k) <= 0x1_0000_0000,
        pow2(k) >= 1,
    decreases k,
{
    vstd::arithmetic::power2::lemma2_to64();
    if k == 0 {
        assert(1nat * 1nat == 1) by (nonlinear_arith);
        lemma_finv_is(1, 1);
    } else {
        lemma_pow2_invertible((k - 1) as nat);
        lemma_pow2_unfold(k);
        vstd::arithmetic::power2::lemma_pow2_strictly_increases((k - 1) as nat, k);
        if k < 32 {
            vstd::arithmetic::power2::lemma_pow2_strictly_increases(k, 32);
        }
        lemma_two_invertible();
        lemma_invertible_product(2, pow2((k - 1) as nat));
        let h = pow2((k - 1) as nat);
        assert(fmul(2, h) == 2 * h) by {
            vstd::arithmetic::div_mod::lemma_small_mod(2 * h, modulus());
        }
    }
}

/// The powers of minus one: minus one for odd exponents, one for even ones.
pub proof fn lemma_fpow_minus_one(d: nat)
    ensures
        fpow((modulus() - 1) as nat, d) == (if d % 2 == 1 {
            (modulus() - 1) as nat
        } else {
            1
        }),
    decreases d,
{
    let m1 = (modulus() - 1) as nat;
    if d > 0 {
        lemma_fpow_minus_one((d - 1) as nat);
        assert(fmul(m1, m1) == 1) by (nonlinear_arith)
            requires
                modulus() == 52435875175126190479447740508185965837690552500527637822603658699938581184513nat,
                m1 == 52435875175126190479447740508185965837690552500527637822603658699938581184512nat,
        ;
        lemma_identities(m1);
    }
}

/// The sum of the powers of `y` from the zeroth up to the `m - 1`-th.
pub open spec fn geometric_sum(y: nat, m: nat) -> nat
    decreases m,
{
    if m == 0 {
        0
    } else {
        fadd(geometric_sum(y, (m - 1) as nat), fpow(y, (m - 1) as nat))
    }
}

/// `y - 1` times the sum of the first `m` powers of `y` is `y^m - 1`.
pub proof fn lemma_geometric_sum(y: nat, m: nat)
    requires
        is_elem(y),
    ensures
        fmul(fsub(y, 1), geometric_sum(y, m)) == fsub(fpow(y, m), 1),
    decreases m,
{
    let d = fsub(y, 1);
    let yi = y as int;
    lemma_field_ops_cong(y, 1);
    if m == 0 {
        lemma_field_ops_cong(1, 1);
        assert(d * 0 == 0) by (nonlinear_arith);
    } else {
        lemma_geometric_sum(y, (m - 1) as nat);
        let g = geometric_sum(y, (m - 1) as nat);
        let p = fpow(y, (m - 1) as nat);
        let p2 = fpow(y, m);
        lemma_fpow_cong(y, (m - 1) as nat);
        lemma_field_ops_cong(g, p);
        lemma_field_ops_cong(d, g);
        lemma_field_ops_cong(d, fadd(g, p));
        lemma_field_ops_cong(p, 1);
        lemma_field_ops_cong(p2, 1);
        lemma_field_ops_cong(y, p);
        // d * (g + p) = d * g + (y - 1) * p = (p - 1) + (y * p - p) = y * p - 1
        lemma_cong_mul(d as int, yi - 1, fadd(g, p) as int, g as int + p as int);
        lemma_cong_mul(d as int, yi - 1, g as int, g as int);
        assert((yi - 1) * (g as int + p as int) == (yi - 1) * g as int + (yi * p as int - p as int))
            by (nonlinear_arith);
        lemma_cong_add(
            (yi - 1) * g as int,
            p as int - 1,
            yi * p as int - p as int,
            yi * p as int - p as int,
        );
        lemma_cong_sub(yi * p as int, p2 as int, 1, 1);
        lemma_cong_elems(fmul(d, fadd(g, p)), fsub(p2, 1));
    }
}

/// A power in the field is the integers' up to congruence.
pub proof fn lemma_fpow_cong(s: nat, e: nat)
    ensures
        cong(fpow(s, e) as int, ipow(s as int, e)),
        is_elem(fpow(s, e)),
    decreases e,
{
    if e > 0 {
        lemma_fpow_cong(s, (e - 1) as nat);
        lemma_field_ops_cong(s, fpow(s, (e - 1) as nat));
        lemma_cong_mul(
            s as int,
            s as int,
            fpow(s, (e - 1) as nat) as int,
            ipow(s as int, (e - 1) as nat),
        );
    }
}

} // verus!
