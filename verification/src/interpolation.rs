//! Lagrange interpolation: the polynomial it gives has the wanted values, and
//! it is the only one of its length that has them.

use vstd::prelude::*;
use crate::congruence::{lemma_cong_elems, lemma_cong_mul, lemma_cong_sub, lemma_field_ops_cong};
use crate::division::{divisible_by, lemma_division, lemma_division_eval, lemma_mul_is_poly};
use crate::evaluation::{
    lemma_eval_add, lemma_eval_constant, lemma_eval_linear_factor, lemma_eval_scale,
};
use crate::laws::padded;
use crate::poly::{
    basis_denominator, basis_numerator, basis_term, coeff, effective_len, evaluations,
    interpolable, interpolation_sum, is_poly, lemma_basis_numerator_len,
    lemma_basis_numerator_monic, lemma_interpolation_sum_len, linear_factor, poly_add, poly_div,
    poly_eval, poly_interpolate, poly_rem, poly_scale, vanishing_poly, zeros,
};
use crate::roots::{lemma_agree_everywhere, separated};
use crate::scalar::{
    fadd, finv, fmul, fsub, invertible, is_elem, lemma_finv, lemma_finv_is, lemma_identities,
};
use crate::sums::{lemma_eval_elem, lemma_eval_mul};

verus! {

/// The product of `x - pts[j]` over the `j` below `m`, but for `j == skip`.
pub open spec fn prod_diff(x: nat, pts: Seq<nat>, skip: int, m: nat) -> nat
    decreases m,
{
    if m == 0 {
        1
    } else if m - 1 == skip {
        prod_diff(x, pts, skip, (m - 1) as nat)
    } else {
        fmul(prod_diff(x, pts, skip, (m - 1) as nat), fsub(x, pts[m - 1]))
    }
}

/// A basis polynomial's denominator is its numerator's value at its own
/// point.
pub proof fn lemma_denominator_is_prod(pts: Seq<nat>, i: int, m: nat)
    ensures
        basis_denominator(pts, i, m) == prod_diff(pts[i], pts, i, m),
    decreases m,
{
    if m > 0 {
        lemma_denominator_is_prod(pts, i, (m - 1) as nat);
    }
}

/// A product of differences is a field element.
pub proof fn lemma_prod_diff_elem(x: nat, pts: Seq<nat>, skip: int, m: nat)
    ensures
        is_elem(prod_diff(x, pts, skip, m)),
    decreases m,
{
    if m > 0 {
        lemma_prod_diff_elem(x, pts, skip, (m - 1) as nat);
        lemma_field_ops_cong(prod_diff(x, pts, skip, (m - 1) as nat), fsub(x, pts[m - 1]));
    }
}

/// A product of linear factors is a polynomial.
pub proof fn lemma_basis_numerator_is_poly(pts: Seq<nat>, skip: int, m: nat)
    ensures
        is_poly(basis_numerator(pts, skip, m)),
    decreases m,
{
    if m > 0 {
        lemma_basis_numerator_is_poly(pts, skip, (m - 1) as nat);
        lemma_mul_is_poly(basis_numerator(pts, skip, (m - 1) as nat), linear_factor(pts[m - 1]));
    }
}

/// The value of a product of linear factors is the product of the
/// differences.
pub proof fn lemma_eval_basis_numerator(pts: Seq<nat>, skip: int, m: nat, x: nat)
    requires
        is_elem(x),
    ensures
        poly_eval(basis_numerator(pts, skip, m), x) == prod_diff(x, pts, skip, m),
    decreases m,
{
    if m == 0 {
        let one = seq![1nat];
        assert(is_poly(one));
        lemma_eval_constant(one, x);
    } else {
        lemma_eval_basis_numerator(pts, skip, (m - 1) as nat, x);
        if m - 1 != skip {
            lemma_eval_mul(
                basis_numerator(pts, skip, (m - 1) as nat),
                linear_factor(pts[m - 1]),
                x,
            );
            lemma_eval_linear_factor(pts[m - 1], x);
        }
    }
}

/// A product of differences with a factor `x - x` is zero.
pub proof fn lemma_prod_diff_zero(x: nat, pts: Seq<nat>, skip: int, m: nat, j: int)
    requires
        is_elem(x),
        0 <= j < m,
        j != skip,
        pts[j] == x,
    ensures
        prod_diff(x, pts, skip, m) == 0,
    decreases m,
{
    let prev = prod_diff(x, pts, skip, (m - 1) as nat);
    if j == m - 1 {
        lemma_identities(x);
        assert(prev * 0 == 0) by (nonlinear_arith);
    } else {
        lemma_prod_diff_zero(x, pts, skip, (m - 1) as nat, j);
        if m - 1 != skip {
            let d = fsub(x, pts[m - 1]);
            assert(0 * d == 0) by (nonlinear_arith);
        }
    }
}

/// Where a product has an inverse, so has each factor.
pub proof fn lemma_invertible_factors(a: nat, b: nat)
    requires
        invertible(fmul(a, b)),
    ensures
        invertible(a),
        invertible(b),
{
    let c = finv(fmul(a, b));
    lemma_finv(fmul(a, b));
    lemma_field_ops_cong(a, b);
    lemma_field_ops_cong(fmul(a, b), c);
    lemma_field_ops_cong(b, c);
    lemma_field_ops_cong(a, c);
    lemma_field_ops_cong(a, fmul(b, c));
    lemma_field_ops_cong(b, fmul(a, c));
    let ai = a as int;
    let bi = b as int;
    let ci = c as int;
    lemma_cong_mul(fmul(a, b) as int, ai * bi, ci, ci);
    lemma_cong_mul(ai, ai, fmul(b, c) as int, bi * ci);
    lemma_cong_mul(bi, bi, fmul(a, c) as int, ai * ci);
    assert(ai * (bi * ci) == (ai * bi) * ci) by (nonlinear_arith);
    assert(bi * (ai * ci) == (ai * bi) * ci) by (nonlinear_arith);
    lemma_cong_elems(fmul(a, fmul(b, c)), 1);
    lemma_cong_elems(fmul(b, fmul(a, c)), 1);
    lemma_finv_is(a, fmul(b, c));
    lemma_finv_is(b, fmul(a, c));
}

/// Where a product of differences has an inverse, so has each difference.
pub proof fn lemma_prod_factors_invertible(x: nat, pts: Seq<nat>, skip: int, m: nat)
    requires
        invertible(prod_diff(x, pts, skip, m)),
    ensures
        forall|j: int| 0 <= j < m && j != skip ==> invertible(fsub(x, #[trigger] pts[j])),
    decreases m,
{
    if m > 0 {
        if m - 1 != skip {
            lemma_invertible_factors(
                prod_diff(x, pts, skip, (m - 1) as nat),
                fsub(x, pts[m - 1]),
            );
        }
        lemma_prod_factors_invertible(x, pts, skip, (m - 1) as nat);
    }
}

/// Points that can be interpolated through are separated.
pub proof fn lemma_interpolable_separated(pts: Seq<nat>)
    requires
        interpolable(pts),
    ensures
        separated(pts),
{
    assert forall|i: int, j: int|
        0 <= i < pts.len() && 0 <= j < pts.len() && i != j implies invertible(
        fsub(#[trigger] pts[i], #[trigger] pts[j]),
    ) by {
        assert(invertible(basis_denominator(pts, i, pts.len())));
        lemma_denominator_is_prod(pts, i, pts.len());
        lemma_prod_factors_invertible(pts[i], pts, i, pts.len());
    }
}

/// Multiplying by an element and by its inverse changes nothing.
pub proof fn lemma_scale_back(d: nat, v: nat)
    requires
        invertible(d),
        is_elem(v),
    ensures
        fmul(fmul(d, v), finv(d)) == v,
{
    let dinv = finv(d);
    lemma_finv(d);
    lemma_field_ops_cong(d, v);
    lemma_field_ops_cong(fmul(d, v), dinv);
    lemma_field_ops_cong(d, dinv);
    let di = d as int;
    let vi = v as int;
    let ii = dinv as int;
    lemma_cong_mul(fmul(d, v) as int, di * vi, ii, ii);
    lemma_cong_mul(vi, vi, di * ii, 1);
    assert((di * vi) * ii == vi * (di * ii)) by (nonlinear_arith);
    assert(vi * 1 == vi) by (nonlinear_arith);
    lemma_cong_elems(fmul(fmul(d, v), dinv), v);
}

/// The value of one term of the interpolation: the product of the
/// differences, times the wanted value, by the denominator.
pub proof fn lemma_eval_basis_term(pts: Seq<nat>, vals: Seq<nat>, i: int, x: nat)
    requires
        is_elem(x),
        0 <= i < pts.len(),
        pts.len() == vals.len(),
    ensures
        poly_eval(basis_term(pts, vals, i), x) == fmul(
            fmul(prod_diff(x, pts, i, pts.len()), vals[i]),
            finv(basis_denominator(pts, i, pts.len())),
        ),
{
    let n = pts.len();
    let numerator = basis_numerator(pts, i, n);
    let inverse = finv(basis_denominator(pts, i, n));
    let scaled = poly_scale(poly_scale(numerator, vals[i]), inverse);
    assert(basis_term(pts, vals, i) =~= scaled);
    lemma_eval_scale(poly_scale(numerator, vals[i]), inverse, x);
    lemma_eval_scale(numerator, vals[i], x);
    lemma_eval_basis_numerator(pts, i, n, x);
}

/// An interpolation sum is a polynomial.
pub proof fn lemma_interpolation_sum_is_poly(pts: Seq<nat>, vals: Seq<nat>, m: nat)
    ensures
        is_poly(interpolation_sum(pts, vals, m)),
    decreases m,
{
    if m > 0 {
        let prev = interpolation_sum(pts, vals, (m - 1) as nat);
        let term = basis_term(pts, vals, m - 1);
        assert forall|k: int| 0 <= k < poly_add(prev, term).len() implies is_elem(
            #[trigger] poly_add(prev, term)[k],
        ) by {
            lemma_field_ops_cong(coeff(prev, k), coeff(term, k));
        }
    }
}

/// At a point of the interpolation, the sum of the first `m` terms has the
/// wanted value if that point's term is among them, and is zero if not.
pub proof fn lemma_eval_interpolation_sum(pts: Seq<nat>, vals: Seq<nat>, m: nat, j: int)
    requires
        is_poly(pts),
        is_poly(vals),
        pts.len() == vals.len(),
        interpolable(pts),
        m <= pts.len(),
        0 <= j < pts.len(),
    ensures
        poly_eval(interpolation_sum(pts, vals, m), pts[j]) == (if j < m {
            vals[j]
        } else {
            0
        }),
    decreases m,
{
    let n = pts.len();
    let x = pts[j];
    if m == 0 {
        let z = zeros(n);
        assert(is_poly(z));
        lemma_eval_constant(z, x);
    } else {
        let i = m - 1;
        lemma_eval_interpolation_sum(pts, vals, (m - 1) as nat, j);
        let prev = interpolation_sum(pts, vals, (m - 1) as nat);
        let term = basis_term(pts, vals, i);
        lemma_eval_add(prev, term, x);
        lemma_eval_basis_term(pts, vals, i, x);
        let d = basis_denominator(pts, i, n);
        if j == i {
            lemma_denominator_is_prod(pts, i, n);
            assert(invertible(d));
            lemma_scale_back(d, vals[i]);
            lemma_identities(vals[i]);
        } else {
            lemma_prod_diff_zero(x, pts, i, n, j);
            let v = vals[i];
            let dinv = finv(d);
            assert(0 * v == 0) by (nonlinear_arith);
            assert(0 * dinv == 0) by (nonlinear_arith);
            if j < i {
                lemma_identities(vals[j]);
            }
        }
    }
}

/// Interpolation hits its values: the polynomial it gives has, at each of the
/// points, the value wanted there.
pub proof fn law_interpolation_hits_values(pts: Seq<nat>, vals: Seq<nat>, j: int)
    requires
        is_poly(pts),
        is_poly(vals),
        pts.len() == vals.len(),
        interpolable(pts),
        0 <= j < pts.len(),
    ensures
        poly_eval(poly_interpolate(pts, vals), pts[j]) == vals[j],
{
    lemma_eval_interpolation_sum(pts, vals, pts.len(), j);
}

/// Interpolating a polynomial's own values gives the polynomial back: through
/// points that can be interpolated through, and for a polynomial with no more
/// coefficients than there are points, the interpolation of its values at the
/// points is the polynomial, followed by zeros up to the number of points.
pub proof fn law_interpolation_round_trip(p: Seq<nat>, pts: Seq<nat>)
    requires
        is_poly(p),
        is_poly(pts),
        interpolable(pts),
        p.len() <= pts.len(),
    ensures
        poly_interpolate(pts, evaluations(p, pts)) == padded(p, (pts.len() - p.len()) as nat),
{
    let vals = evaluations(p, pts);
    let found = poly_interpolate(pts, vals);
    assert forall|i: int| 0 <= i < vals.len() implies is_elem(#[trigger] vals[i]) by {
        lemma_eval_elem(p, pts[i]);
    }
    lemma_interpolation_sum_is_poly(pts, vals, pts.len());
    lemma_interpolation_sum_len(pts, vals, pts.len());
    lemma_interpolable_separated(pts);
    assert forall|i: int| 0 <= i < pts.len() implies poly_eval(found, #[trigger] pts[i])
        == poly_eval(p, pts[i]) by {
        law_interpolation_hits_values(pts, vals, i);
    }
    lemma_agree_everywhere(found, p, pts, 0);
    assert forall|k: int| 0 <= k < found.len() implies found[k] == padded(
        p,
        (pts.len() - p.len()) as nat,
    )[k] by {
        assert(coeff(found, k) == coeff(p, k));
    }
    assert(found =~= padded(p, (pts.len() - p.len()) as nat));
}

/// The polynomial that vanishes at the points can be divided by, and it does
/// vanish at each of them.
pub proof fn lemma_vanishing_poly(pts: Seq<nat>)
    requires
        is_poly(pts),
    ensures
        divisible_by(vanishing_poly(pts)),
        effective_len(vanishing_poly(pts)) == pts.len() + 1,
        forall|j: int| 0 <= j < pts.len() ==> poly_eval(vanishing_poly(pts), #[trigger] pts[j]) == 0,
{
    let z = vanishing_poly(pts);
    lemma_basis_numerator_monic(pts, -1, pts.len());
    lemma_basis_numerator_len(pts, -1, pts.len());
    lemma_basis_numerator_is_poly(pts, -1, pts.len());
    assert(1nat * 1nat == 1) by (nonlinear_arith);
    lemma_finv_is(1, 1);
    assert forall|j: int| 0 <= j < pts.len() implies poly_eval(z, #[trigger] pts[j]) == 0 by {
        lemma_eval_basis_numerator(pts, -1, pts.len(), pts[j]);
        lemma_prod_diff_zero(pts[j], pts, -1, pts.len(), j);
    }
}

/// What is left of a sum after taking one summand away is the other.
pub proof fn lemma_sum_less_summand(a: nat, b: nat, x: nat)
    requires
        is_elem(x),
        a == fadd(b, x),
    ensures
        x == fsub(a, b),
{
    lemma_field_ops_cong(b, x);
    lemma_field_ops_cong(a, b);
    lemma_cong_sub(a as int, b as int + x as int, b as int, b as int);
    lemma_cong_elems(x, fsub(a, b));
}

/// Division by the polynomial that vanishes at the points leaves the
/// polynomial that has the numerator's values there: where `target` has no
/// more coefficients than there are points and the numerator's values at
/// them, the quotient's value times the vanishing polynomial's is, at every
/// `s`, the numerator's value less the target's.
pub proof fn lemma_quotient_by_vanishing(num: Seq<nat>, target: Seq<nat>, pts: Seq<nat>, s: nat)
    requires
        is_poly(num),
        is_poly(target),
        is_poly(pts),
        separated(pts),
        target.len() <= pts.len(),
        forall|j: int|
            0 <= j < pts.len() ==> poly_eval(num, #[trigger] pts[j]) == poly_eval(target, pts[j]),
    ensures
        fmul(poly_eval(poly_div(num, vanishing_poly(pts)), s), poly_eval(vanishing_poly(pts), s))
            == fsub(poly_eval(num, s), poly_eval(target, s)),
{
    let z = vanishing_poly(pts);
    let quot = poly_div(num, z);
    let rem = poly_rem(num, z);
    lemma_vanishing_poly(pts);
    lemma_division(num, z);
    assert forall|j: int| 0 <= j < pts.len() implies poly_eval(rem, #[trigger] pts[j])
        == poly_eval(target, pts[j]) by {
        let x = pts[j];
        lemma_division_eval(num, z, x);
        let q = poly_eval(quot, x);
        assert(q * 0 == 0) by (nonlinear_arith);
        lemma_eval_elem(rem, x);
        lemma_identities(poly_eval(rem, x));
    }
    lemma_agree_everywhere(rem, target, pts, s);
    lemma_division_eval(num, z, s);
    lemma_field_ops_cong(poly_eval(quot, s), poly_eval(z, s));
    lemma_sum_less_summand(
        poly_eval(num, s),
        poly_eval(rem, s),
        fmul(poly_eval(quot, s), poly_eval(z, s)),
    );
}

} // verus!
