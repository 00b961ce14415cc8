//! What holds of the polynomial operations taken together.

use vstd::prelude::*;
use crate::asvc::{domain, index_points, subvector};
use crate::congruence::lemma_field_ops_cong;
use crate::division::{
    divisible_by, lemma_conv_sum_same_coeffs, lemma_division, lemma_division_eval,
    lemma_linear_divisible, lemma_mul_is_poly, lemma_quotient_unique,
};
use crate::evaluation::{
    lemma_eval_constant, lemma_eval_linear_factor, lemma_eval_opening_numerator, lemma_eval_sub,
    same_coeffs,
};
use crate::interpolation::{
    law_interpolation_hits_values, lemma_interpolable_separated, lemma_interpolation_sum_is_poly,
    lemma_quotient_by_vanishing,
};
use crate::kzg::{batch_quotient, opening_quotient};
use crate::poly::{
    coeff, effective_len, evaluations, interpolable, is_poly, lemma_conv_sum_elem,
    lemma_effective_len_zero, lemma_interpolation_sum_len, linear_factor, opening_numerator,
    poly_div, poly_eval, poly_interpolate, poly_mul, poly_rem, poly_sub, root_of_unity,
    vanishing_poly, zeros,
};
use crate::powers::lemma_fpow_cong;
use crate::scalar::{fadd, fmul, fsub, is_elem, lemma_identities};
use crate::sums::lemma_eval_elem;

verus! {

/// A polynomial followed by `extra` zero coefficients.
pub open spec fn padded(p: Seq<nat>, extra: nat) -> Seq<nat> {
    p + zeros(extra)
}

/// Division undoes multiplication: the product of `p` and `q`, divided by
/// `q`, is `p`, followed by as many zeros as `q` has trailing zeros. So where
/// `q` ends on a coefficient that is not zero, the quotient is `p` itself.
pub proof fn law_division_undoes_multiplication(p: Seq<nat>, q: Seq<nat>)
    requires
        is_poly(p),
        p.len() >= 1,
        divisible_by(q),
    ensures
        poly_div(poly_mul(p, q), q) == padded(p, (q.len() - effective_len(q)) as nat),
        effective_len(q) == q.len() ==> poly_div(poly_mul(p, q), q) == p,
{
    let num = poly_mul(p, q);
    let dl = effective_len(q);
    lemma_effective_len_zero(q);
    let quot = padded(p, (q.len() - dl) as nat);
    let rem = Seq::<nat>::empty();
    lemma_mul_is_poly(p, q);
    assert(same_coeffs(quot, p));
    assert forall|k: int| 0 <= k < num.len() implies #[trigger] num[k] == fadd(
        coeff(rem, k),
        coeff(poly_mul(quot, q), k),
    ) by {
        lemma_conv_sum_same_coeffs(quot, p, q, k);
        lemma_conv_sum_elem(p, q, k, p.len());
        lemma_identities(num[k]);
    }
    lemma_quotient_unique(num, q, quot, rem);
    if dl == q.len() {
        assert(quot =~= p);
    }
}

/// The identity behind an opening proof: at every point `s`, the quotient's
/// value times `s - z` is the polynomial's value less its value at `z`.
pub proof fn law_opening_quotient(p: Seq<nat>, z: nat, s: nat)
    requires
        is_poly(p),
        is_elem(z),
        is_elem(s),
    ensures
        fmul(poly_eval(opening_quotient(p, z), s), fsub(s, z)) == fsub(
            poly_eval(p, s),
            poly_eval(p, z),
        ),
{
    let v = poly_eval(p, z);
    let num = opening_numerator(p, v);
    let den = linear_factor(z);
    let quot = poly_div(num, den);
    let rem = poly_rem(num, den);
    lemma_eval_elem(p, z);
    lemma_eval_opening_numerator(p, v, s);
    lemma_eval_opening_numerator(p, v, z);
    lemma_linear_divisible(z);
    lemma_division(num, den);
    lemma_division_eval(num, den, s);
    lemma_division_eval(num, den, z);
    lemma_eval_linear_factor(z, s);
    lemma_eval_linear_factor(z, z);
    lemma_eval_constant(rem, s);
    lemma_eval_constant(rem, z);
    // at z the denominator is zero, so the remainder's constant is the
    // numerator's value at z, which is zero
    lemma_identities(v);
    lemma_identities(z);
    let qz = poly_eval(quot, z);
    assert(qz * 0 == 0) by (nonlinear_arith);
    lemma_eval_elem(rem, z);
    lemma_identities(poly_eval(rem, z));
    assert(coeff(rem, 0) == 0);
    lemma_field_ops_cong(poly_eval(quot, s), fsub(s, z));
    lemma_identities(fmul(poly_eval(quot, s), fsub(s, z)));
}

/// The identity behind a batch proof: at every point `s`, the quotient's
/// value times that of the polynomial that vanishes at the points is the
/// polynomial's value less that of the interpolation of its values at the
/// points.
pub proof fn law_batch_quotient(p: Seq<nat>, pts: Seq<nat>, s: nat)
    requires
        is_poly(p),
        is_poly(pts),
        interpolable(pts),
        is_elem(s),
    ensures
        fmul(
            poly_eval(batch_quotient(p, pts), s),
            poly_eval(vanishing_poly(pts), s),
        ) == fsub(
            poly_eval(p, s),
            poly_eval(
                poly_interpolate(pts, evaluations(p, pts)),
                s,
            ),
        ),
{
    let vals = evaluations(p, pts);
    let lagrange = poly_interpolate(pts, vals);
    let num = poly_sub(p, lagrange);
    let nothing = Seq::<nat>::empty();
    assert forall|i: int| 0 <= i < vals.len() implies is_elem(#[trigger] vals[i]) by {
        lemma_eval_elem(p, pts[i]);
    }
    assert forall|k: int| 0 <= k < num.len() implies is_elem(#[trigger] num[k]) by {
        lemma_field_ops_cong(coeff(p, k), coeff(lagrange, k));
    }
    lemma_interpolable_separated(pts);
    assert forall|j: int| 0 <= j < pts.len() implies poly_eval(num, #[trigger] pts[j])
        == poly_eval(nothing, pts[j]) by {
        let x = pts[j];
        lemma_eval_sub(p, lagrange, x);
        law_interpolation_hits_values(pts, vals, j);
        lemma_eval_elem(p, x);
        lemma_identities(poly_eval(p, x));
    }
    lemma_quotient_by_vanishing(num, nothing, pts, s);
    lemma_eval_sub(p, lagrange, s);
    lemma_eval_elem(num, s);
    lemma_identities(poly_eval(num, s));
}

/// The identity behind a proof for positions of a vector: at every point
/// `s`, the quotient's value times that of the polynomial that vanishes at
/// the positions' points is the value of the polynomial through the whole
/// vector, less that of the polynomial through the entries at the positions.
pub proof fn law_position_quotient(n: nat, indices: Seq<usize>, vector: Seq<nat>, s: nat)
    requires
        is_poly(vector),
        vector.len() == n,
        interpolable(domain(n)),
        interpolable(index_points(n, indices)),
        forall|k: int| 0 <= k < indices.len() ==> #[trigger] indices[k] < n,
        is_elem(s),
    ensures
        ({
            let points = index_points(n, indices);
            let whole = poly_interpolate(domain(n), vector);
            let part = poly_interpolate(
                points,
                subvector(vector, indices),
            );
            let vanishing = vanishing_poly(points);
            fmul(poly_eval(poly_div(whole, vanishing), s), poly_eval(vanishing, s)) == fsub(
                poly_eval(whole, s),
                poly_eval(part, s),
            )
        }),
{
    let dom = domain(n);
    let points = index_points(n, indices);
    let sub = subvector(vector, indices);
    let whole = poly_interpolate(dom, vector);
    let part = poly_interpolate(points, sub);
    assert forall|i: int| 0 <= i < dom.len() implies is_elem(#[trigger] dom[i]) by {
        lemma_fpow_cong(root_of_unity(n), i as nat);
    }
    assert forall|k: int| 0 <= k < points.len() implies is_elem(#[trigger] points[k]) by {
        lemma_fpow_cong(root_of_unity(n), indices[k] as nat);
    }
    assert forall|k: int| 0 <= k < sub.len() implies is_elem(#[trigger] sub[k]) by {
        assert(indices[k] < n);
    }
    lemma_interpolation_sum_is_poly(dom, vector, dom.len());
    lemma_interpolation_sum_is_poly(points, sub, points.len());
    lemma_interpolation_sum_len(points, sub, points.len());
    lemma_interpolable_separated(points);
    assert forall|j: int| 0 <= j < points.len() implies poly_eval(whole, #[trigger] points[j])
        == poly_eval(part, points[j]) by {
        assert(indices[j] < n);
        assert(points[j] == dom[indices[j] as int]);
        law_interpolation_hits_values(dom, vector, indices[j] as int);
        law_interpolation_hits_values(points, sub, j);
    }
    lemma_quotient_by_vanishing(whole, part, points, s);
}

} // verus!
