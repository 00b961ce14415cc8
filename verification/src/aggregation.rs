//! Aggregation: what a weighted sum of proofs for single positions has to do
//! with the proof for all of them.

use vstd::prelude::*;
use crate::asvc::{domain, domain_point, index_points, subvector};
use crate::congruence::{
    cong, lemma_cong_add, lemma_cong_elems, lemma_cong_mul, lemma_cong_sub, lemma_field_ops_cong,
};
use crate::curve::dot_sum;
use crate::evaluation::{lemma_eval_add, lemma_eval_constant, lemma_eval_same_coeffs, same_coeffs};
use crate::interpolation::{
    law_interpolation_round_trip, lemma_eval_basis_numerator, lemma_eval_basis_term, prod_diff,
};
use crate::laws::{law_position_quotient, padded};
use crate::poly::{
    basis_denominator, basis_term, coeff, evaluations, interpolable, interpolation_sum, is_poly,
    poly_div, poly_eval, poly_interpolate, root_of_unity, vanishing_poly, zeros,
};
use crate::powers::lemma_fpow_cong;
use crate::roots::separated;
use crate::scalar::{fadd, finv, fmul, fsub, is_elem, lemma_identities};
use crate::unity::lemma_separated_interpolable;

verus! {

/// The values at `s` of the quotients behind the proofs for each of the
/// positions alone.
pub open spec fn single_quotient_values(
    n: nat,
    indices: Seq<usize>,
    vector: Seq<nat>,
    s: nat,
) -> Seq<nat> {
    Seq::new(
        indices.len(),
        |k: int|
            poly_eval(
                poly_div(
                    poly_interpolate(domain(n), vector),
                    vanishing_poly(index_points(n, seq![indices[k]])),
                ),
                s,
            ),
    )
}

/// The weights with which the proofs for single positions add up to the proof
/// for all of them: for each position, the inverse of the product of the
/// differences of its point from the others'.
pub open spec fn partial_fraction_weights(points: Seq<nat>) -> Seq<nat> {
    Seq::new(points.len(), |k: int| finv(basis_denominator(points, k, points.len())))
}

/// Leaving out a position that is not there leaves out nothing.
pub proof fn lemma_prod_diff_skip_beyond(x: nat, pts: Seq<nat>, k: int, m: nat)
    requires
        k >= m,
    ensures
        prod_diff(x, pts, k, m) == prod_diff(x, pts, -1, m),
    decreases m,
{
    if m > 0 {
        lemma_prod_diff_skip_beyond(x, pts, k, (m - 1) as nat);
    }
}

/// The product of all differences is the product without one of them, times
/// that one.
pub proof fn lemma_prod_diff_split(x: nat, pts: Seq<nat>, k: int, m: nat)
    requires
        0 <= k < m,
    ensures
        prod_diff(x, pts, -1, m) == fmul(prod_diff(x, pts, k, m), fsub(x, pts[k])),
    decreases m,
{
    let fk = fsub(x, pts[k]);
    if m - 1 == k {
        lemma_prod_diff_skip_beyond(x, pts, k, (m - 1) as nat);
    } else {
        lemma_prod_diff_split(x, pts, k, (m - 1) as nat);
        let rest = prod_diff(x, pts, k, (m - 1) as nat);
        let last = fsub(x, pts[m - 1]);
        lemma_field_ops_cong(rest, fk);
        lemma_field_ops_cong(rest, last);
        lemma_field_ops_cong(fmul(rest, fk), last);
        lemma_field_ops_cong(fmul(rest, last), fk);
        lemma_cong_mul(fmul(rest, fk) as int, rest as int * fk as int, last as int, last as int);
        lemma_cong_mul(fmul(rest, last) as int, rest as int * last as int, fk as int, fk as int);
        assert((rest as int * fk as int) * last as int == (rest as int * last as int) * fk as int)
            by (nonlinear_arith);
        lemma_cong_elems(fmul(fmul(rest, fk), last), fmul(fmul(rest, last), fk));
    }
}

/// The polynomial that vanishes at one point is `X` less that point, and the
/// interpolation through one point is the constant wanted there.
pub proof fn lemma_one_point(x: nat, v: nat, s: nat)
    requires
        is_elem(x),
        is_elem(v),
        is_elem(s),
    ensures
        poly_eval(vanishing_poly(seq![x]), s) == fsub(s, x),
        interpolable(seq![x]),
        poly_eval(poly_interpolate(seq![x], seq![v]), s) == v,
{
    let pts = seq![x];
    lemma_eval_basis_numerator(pts, -1, 1, s);
    assert(prod_diff(s, pts, -1, 1) == fmul(prod_diff(s, pts, -1, 0), fsub(s, pts[0])));
    lemma_field_ops_cong(s, x);
    lemma_identities(fsub(s, x));
    assert(separated(pts));
    lemma_separated_interpolable(pts);
    let p = seq![v];
    assert(is_poly(p));
    assert(is_poly(pts));
    law_interpolation_round_trip(p, pts);
    assert(padded(p, 0) =~= p);
    lemma_eval_constant(p, s);
    assert(evaluations(p, pts) =~= seq![v]) by {
        lemma_eval_constant(p, x);
    }
}

/// The identity behind the proof for one position: at every point `s`, the
/// quotient's value times `s` less the position's point is the value of the
/// polynomial through the vector, less the entry at the position.
pub proof fn lemma_single_quotient(n: nat, position: usize, vector: Seq<nat>, s: nat)
    requires
        is_poly(vector),
        vector.len() == n,
        interpolable(domain(n)),
        position < n,
        is_elem(s),
    ensures
        fmul(
            poly_eval(
                poly_div(
                    poly_interpolate(domain(n), vector),
                    vanishing_poly(index_points(n, seq![position])),
                ),
                s,
            ),
            fsub(s, domain_point(n, position as nat)),
        ) == fsub(poly_eval(poly_interpolate(domain(n), vector), s), vector[position as int]),
{
    let indices = seq![position];
    let x = domain_point(n, position as nat);
    let v = vector[position as int];
    lemma_fpow_cong(root_of_unity(n), position as nat);
    lemma_one_point(x, v, s);
    assert(index_points(n, indices) =~= seq![x]);
    assert(subvector(vector, indices) =~= seq![v]);
    law_position_quotient(n, indices, vector, s);
}

/// The sum of the first `m` products of a partial-fraction weight with a
/// single quotient's value, times the value of the polynomial that vanishes
/// at all the positions' points, is the value of the polynomial through the
/// vector times that of the interpolation through ones at the first `m`
/// points, less that of the interpolation through the first `m` entries.
proof fn lemma_partial_fractions(
    n: nat,
    indices: Seq<usize>,
    vector: Seq<nat>,
    s: nat,
    m: nat,
)
    requires
        is_poly(vector),
        vector.len() == n,
        interpolable(domain(n)),
        forall|k: int| 0 <= k < indices.len() ==> #[trigger] indices[k] < n,
        is_elem(s),
        m <= indices.len(),
    ensures
        ({
            let points = index_points(n, indices);
            let ones = Seq::new(indices.len(), |k: int| 1nat);
            cong(
                dot_sum(
                    single_quotient_values(n, indices, vector, s),
                    partial_fraction_weights(points),
                    m,
                ) as int * poly_eval(vanishing_poly(points), s) as int,
                poly_eval(poly_interpolate(domain(n), vector), s) as int * poly_eval(
                    interpolation_sum(points, ones, m),
                    s,
                ) as int - poly_eval(
                    interpolation_sum(points, subvector(vector, indices), m),
                    s,
                ) as int,
            )
        }),
    decreases m,
{
    let points = index_points(n, indices);
    let sub = subvector(vector, indices);
    let ones = Seq::new(indices.len(), |k: int| 1nat);
    let qs = single_quotient_values(n, indices, vector, s);
    let ws = partial_fraction_weights(points);
    let ds = poly_eval(vanishing_poly(points), s) as int;
    let ls = poly_eval(poly_interpolate(domain(n), vector), s) as int;
    let total = points.len();
    if m == 0 {
        let z = zeros(total);
        assert(is_poly(z));
        lemma_eval_constant(z, s);
        assert(0 * ds == 0) by (nonlinear_arith);
        assert(ls * 0 == 0) by (nonlinear_arith);
    } else {
        let k = m - 1;
        lemma_partial_fractions(n, indices, vector, s, (m - 1) as nat);
        let x = points[k];
        let v = sub[k];
        let c = ws[k];
        let q = qs[k];
        let nk = prod_diff(s, points, k, total);
        assert(indices[k] < n);
        // the single quotient
        lemma_single_quotient(n, indices[k], vector, s);
        assert(fmul(q, fsub(s, x)) == fsub(poly_eval(poly_interpolate(domain(n), vector), s), v));
        // the vanishing polynomial's value
        lemma_eval_basis_numerator(points, -1, total, s);
        lemma_prod_diff_split(s, points, k, total);
        // the two interpolation sums
        let e1 = poly_eval(interpolation_sum(points, ones, (m - 1) as nat), s);
        let e2 = poly_eval(interpolation_sum(points, sub, (m - 1) as nat), s);
        lemma_eval_add(interpolation_sum(points, ones, (m - 1) as nat), basis_term(points, ones, k), s);
        lemma_eval_add(interpolation_sum(points, sub, (m - 1) as nat), basis_term(points, sub, k), s);
        lemma_eval_basis_term(points, ones, k, s);
        lemma_eval_basis_term(points, sub, k, s);
        let t1 = fmul(fmul(nk, 1), c);
        let t2 = fmul(fmul(nk, v), c);
        // everything up to congruence
        let prev = dot_sum(qs, ws, (m - 1) as nat);
        lemma_field_ops_cong(q, c);
        lemma_field_ops_cong(prev, fmul(q, c));
        lemma_field_ops_cong(q, fsub(s, x));
        lemma_field_ops_cong(nk, fsub(s, x));
        lemma_field_ops_cong(nk, 1);
        lemma_field_ops_cong(nk, v);
        lemma_field_ops_cong(fmul(nk, 1), c);
        lemma_field_ops_cong(fmul(nk, v), c);
        lemma_field_ops_cong(e1, t1);
        lemma_field_ops_cong(e2, t2);
        lemma_field_ops_cong(poly_eval(poly_interpolate(domain(n), vector), s), v);
        let qi = q as int;
        let ci = c as int;
        let ni = nk as int;
        let vi = v as int;
        let fx = fsub(s, x) as int;
        // q * fx = ls - v
        assert(cong(qi * fx, ls - vi));
        // ds = nk * fx
        assert(cong(ds, ni * fx));
        // the new term times ds
        lemma_cong_mul(fmul(q, c) as int, qi * ci, ds, ni * fx);
        assert((qi * ci) * (ni * fx) == (ci * ni) * (qi * fx)) by (nonlinear_arith);
        lemma_cong_mul(ci * ni, ci * ni, qi * fx, ls - vi);
        assert((ci * ni) * (ls - vi) == ls * (ni * 1 * ci) - ni * vi * ci) by (nonlinear_arith);
        lemma_cong_mul(fmul(nk, 1) as int, ni * 1, ci, ci);
        lemma_cong_mul(fmul(nk, v) as int, ni * vi, ci, ci);
        lemma_cong_mul(ls, ls, t1 as int, ni * 1 * ci);
        lemma_cong_sub(ls * t1 as int, ls * (ni * 1 * ci), t2 as int, ni * vi * ci);
        assert(cong(fmul(q, c) as int * ds, ls * t1 as int - t2 as int));
        // the sum so far plus the new term, times ds
        lemma_cong_mul(dot_sum(qs, ws, m) as int, prev as int + fmul(q, c) as int, ds, ds);
        assert((prev as int + fmul(q, c) as int) * ds == prev as int * ds + fmul(q, c) as int * ds)
            by (nonlinear_arith);
        lemma_cong_add(
            prev as int * ds,
            ls * e1 as int - e2 as int,
            fmul(q, c) as int * ds,
            ls * t1 as int - t2 as int,
        );
        assert(ls * e1 as int - e2 as int + (ls * t1 as int - t2 as int) == ls * (e1 as int
            + t1 as int) - (e2 as int + t2 as int)) by (nonlinear_arith);
        lemma_cong_mul(ls, ls, fadd(e1, t1) as int, e1 as int + t1 as int);
        lemma_cong_sub(
            ls * fadd(e1, t1) as int,
            ls * (e1 as int + t1 as int),
            fadd(e2, t2) as int,
            e2 as int + t2 as int,
        );
    }
}

/// The partial fractions of a quotient: the proofs for single positions,
/// weighted by the inverses of the products of the differences of their
/// points, add up to the proof for all the positions. At every point `s`,
/// the weighted sum of the single quotients' values, times the value of the
/// polynomial that vanishes at all the positions' points, is the value of the
/// polynomial through the vector less that of the polynomial through the
/// entries at the positions.
pub proof fn law_partial_fractions(n: nat, indices: Seq<usize>, vector: Seq<nat>, s: nat)
    requires
        is_poly(vector),
        vector.len() == n,
        interpolable(domain(n)),
        interpolable(index_points(n, indices)),
        forall|k: int| 0 <= k < indices.len() ==> #[trigger] indices[k] < n,
        indices.len() >= 1,
        is_elem(s),
    ensures
        ({
            let points = index_points(n, indices);
            fmul(
                dot_sum(
                    single_quotient_values(n, indices, vector, s),
                    partial_fraction_weights(points),
                    indices.len(),
                ),
                poly_eval(vanishing_poly(points), s),
            ) == fsub(
                poly_eval(poly_interpolate(domain(n), vector), s),
                poly_eval(poly_interpolate(points, subvector(vector, indices)), s),
            )
        }),
{
    let points = index_points(n, indices);
    let sub = subvector(vector, indices);
    let ones = Seq::new(indices.len(), |k: int| 1nat);
    let one = seq![1nat];
    let m = indices.len();
    lemma_partial_fractions(n, indices, vector, s, m);
    assert forall|k: int| 0 <= k < points.len() implies is_elem(#[trigger] points[k]) by {
        lemma_fpow_cong(root_of_unity(n), indices[k] as nat);
    }
    // the interpolation through ones is the constant one
    assert(is_poly(one));
    law_interpolation_round_trip(one, points);
    assert(evaluations(one, points) =~= ones) by {
        assert forall|k: int| 0 <= k < points.len() implies poly_eval(one, points[k]) == 1 by {
            lemma_eval_constant(one, points[k]);
        }
    }
    let through_ones = poly_interpolate(points, ones);
    assert(same_coeffs(through_ones, one)) by {
        assert forall|i: int| 0 <= i implies coeff(through_ones, i) == coeff(one, i) by {
            if 0 < i < through_ones.len() {
                assert(padded(one, (points.len() - 1) as nat)[i] == 0);
            }
        }
    }
    lemma_eval_same_coeffs(through_ones, one, s);
    lemma_eval_constant(one, s);
    let ls = poly_eval(poly_interpolate(domain(n), vector), s);
    let rs = poly_eval(poly_interpolate(points, sub), s);
    let total = dot_sum(
        single_quotient_values(n, indices, vector, s),
        partial_fraction_weights(points),
        m,
    );
    let ds = poly_eval(vanishing_poly(points), s);
    lemma_field_ops_cong(total, ds);
    lemma_field_ops_cong(ls, rs);
    assert(ls as int * 1 == ls as int) by (nonlinear_arith);
    lemma_cong_elems(fmul(total, ds), fsub(ls, rs));
}

} // verus!
