//! A polynomial with more roots than coefficients is zero, so polynomials
//! that agree at enough points are the same.

use vstd::prelude::*;
use crate::congruence::{lemma_cong_add, lemma_cong_elems, lemma_cong_mul, lemma_field_ops_cong};
use crate::division::{lemma_division, lemma_division_eval, lemma_linear_divisible};
use crate::evaluation::{
    lemma_eval_constant, lemma_eval_linear_factor, lemma_eval_same_coeffs, lemma_eval_sub,
    same_coeffs,
};
use crate::poly::{
    coeff, is_poly, is_zero_poly, lemma_conv_sum_zero, linear_factor, poly_div, poly_eval,
    poly_mul, poly_rem, poly_sub,
};
use crate::scalar::{finv, fmul, fsub, invertible, is_elem, lemma_finv, lemma_identities};
use crate::sums::lemma_eval_elem;

verus! {

/// The difference of any two of the points has an inverse. In a field that
/// is to say that no two of them are the same.
pub open spec fn separated(xs: Seq<nat>) -> bool {
    forall|i: int, j: int|
        0 <= i < xs.len() && 0 <= j < xs.len() && i != j ==> invertible(
            fsub(#[trigger] xs[i], #[trigger] xs[j]),
        )
}

/// Every one of the points is a root of the polynomial.
pub open spec fn vanishes_at(p: Seq<nat>, xs: Seq<nat>) -> bool {
    forall|i: int| 0 <= i < xs.len() ==> poly_eval(p, #[trigger] xs[i]) == 0
}

/// A product with an invertible element is zero only where the other factor
/// is.
pub proof fn lemma_cancel(e: nat, d: nat)
    requires
        is_elem(e),
        invertible(d),
        fmul(e, d) == 0,
    ensures
        e == 0,
{
    let dinv = finv(d);
    lemma_finv(d);
    lemma_field_ops_cong(e, d);
    lemma_field_ops_cong(d, dinv);
    lemma_cong_mul(e as int * d as int, 0, dinv as int, dinv as int);
    lemma_cong_mul(e as int, e as int, d as int * dinv as int, 1);
    assert(e as int * (d as int * dinv as int) == (e as int * d as int) * dinv as int)
        by (nonlinear_arith);
    assert(0 * dinv as int == 0) by (nonlinear_arith);
    assert(e as int * 1 == e as int) by (nonlinear_arith);
    lemma_cong_elems(e, 0);
}

/// A polynomial with no more coefficients than it has separated roots is
/// zero.
pub proof fn lemma_roots_force_zero(p: Seq<nat>, xs: Seq<nat>)
    requires
        is_poly(p),
        is_poly(xs),
        separated(xs),
        p.len() <= xs.len(),
        vanishes_at(p, xs),
    ensures
        is_zero_poly(p),
    decreases xs.len(),
{
    if p.len() == 0 {
    } else if p.len() == 1 {
        lemma_eval_constant(p, xs[0]);
    } else {
        let m = xs.len();
        let a = xs[m - 1];
        let den = linear_factor(a);
        let quot = poly_div(p, den);
        let rem = poly_rem(p, den);
        lemma_linear_divisible(a);
        lemma_division(p, den);
        lemma_division_eval(p, den, a);
        lemma_eval_linear_factor(a, a);
        lemma_identities(a);
        lemma_eval_constant(rem, a);
        let qa = poly_eval(quot, a);
        assert(qa * 0 == 0) by (nonlinear_arith);
        lemma_eval_elem(rem, a);
        lemma_identities(poly_eval(rem, a));
        assert(coeff(rem, 0) == 0);
        assert(is_zero_poly(rem));
        let rest = xs.subrange(0, m - 1);
        assert forall|j: int| 0 <= j < rest.len() implies poly_eval(quot, #[trigger] rest[j])
            == 0 by {
            let x = xs[j];
            assert(rest[j] == x);
            lemma_division_eval(p, den, x);
            lemma_eval_constant(rem, x);
            lemma_eval_linear_factor(a, x);
            lemma_eval_elem(quot, x);
            lemma_field_ops_cong(poly_eval(quot, x), fsub(x, a));
            lemma_identities(fmul(poly_eval(quot, x), fsub(x, a)));
            assert(invertible(fsub(xs[j], xs[m - 1])));
            lemma_cancel(poly_eval(quot, x), fsub(x, a));
        }
        assert forall|i: int, j: int|
            0 <= i < rest.len() && 0 <= j < rest.len() && i != j implies invertible(
            fsub(#[trigger] rest[i], #[trigger] rest[j]),
        ) by {
            assert(rest[i] == xs[i] && rest[j] == xs[j]);
        }
        lemma_roots_force_zero(quot, rest);
        assert forall|k: int| 0 <= k < p.len() implies #[trigger] p[k] == 0 by {
            let prod = poly_mul(quot, den);
            if k < prod.len() {
                lemma_conv_sum_zero(quot, den, k, quot.len());
            }
            assert(coeff(prod, k) == 0);
            assert(rem[k] == 0);
        }
    }
}

/// The first `n` coefficients of a polynomial.
pub open spec fn truncated(p: Seq<nat>, n: nat) -> Seq<nat> {
    if p.len() <= n {
        p
    } else {
        p.subrange(0, n as int)
    }
}

/// Two polynomials that have no coefficients beyond the number of points,
/// and the same values at separated points, have the same coefficients and
/// the same value everywhere.
pub proof fn lemma_agree_everywhere(a: Seq<nat>, b: Seq<nat>, xs: Seq<nat>, s: nat)
    requires
        is_poly(a),
        is_poly(b),
        is_poly(xs),
        separated(xs),
        forall|k: int| xs.len() <= k < a.len() ==> #[trigger] a[k] == 0,
        forall|k: int| xs.len() <= k < b.len() ==> #[trigger] b[k] == 0,
        forall|i: int|
            0 <= i < xs.len() ==> poly_eval(a, #[trigger] xs[i]) == poly_eval(b, xs[i]),
    ensures
        same_coeffs(a, b),
        poly_eval(a, s) == poly_eval(b, s),
{
    let n = xs.len();
    let a2 = truncated(a, n);
    let b2 = truncated(b, n);
    assert(same_coeffs(a, a2));
    assert(same_coeffs(b, b2));
    let diff = poly_sub(a2, b2);
    assert forall|k: int| 0 <= k < diff.len() implies is_elem(#[trigger] diff[k]) by {
        lemma_field_ops_cong(coeff(a2, k), coeff(b2, k));
    }
    assert forall|i: int| 0 <= i < xs.len() implies poly_eval(diff, #[trigger] xs[i]) == 0 by {
        let x = xs[i];
        lemma_eval_sub(a2, b2, x);
        lemma_eval_same_coeffs(a, a2, x);
        lemma_eval_same_coeffs(b, b2, x);
        lemma_eval_elem(a, x);
        lemma_identities(poly_eval(a, x));
    }
    lemma_roots_force_zero(diff, xs);
    assert forall|k: int| 0 <= k implies coeff(a, k) == coeff(b, k) by {
        if k < diff.len() {
            assert(diff[k] == 0);
            let u = coeff(a2, k);
            let v = coeff(b2, k);
            lemma_field_ops_cong(u, v);
            lemma_cong_add(u as int - v as int, 0, v as int, v as int);
            lemma_cong_elems(u, v);
        }
    }
    lemma_eval_same_coeffs(a, b, s);
}

} // verus!
