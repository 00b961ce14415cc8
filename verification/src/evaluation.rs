//! How the value of a polynomial at a point goes with the operations on
//! polynomials.

use vstd::prelude::*;
use crate::congruence::{
    cong, lemma_cong_add, lemma_cong_elems, lemma_cong_mul, lemma_cong_sub, lemma_field_ops_cong,
};
use crate::poly::{
    coeff, eval_from, is_poly, linear_factor, opening_numerator, poly_add, poly_eval, poly_scale,
    poly_sub,
};
use crate::scalar::{fadd, fmul, fsub, is_elem, lemma_identities};
use crate::sums::{
    ieval, ipow, lemma_eval_elem, lemma_ieval_beyond, lemma_ieval_linear, lemma_poly_eval_cong,
};

verus! {

/// Two polynomials agree in every coefficient, trailing zeros aside.
pub open spec fn same_coeffs(p: Seq<nat>, q: Seq<nat>) -> bool {
    forall|i: int| 0 <= i ==> coeff(p, i) == coeff(q, i)
}

/// Polynomials that differ only in trailing zeros have the same values.
pub proof fn lemma_eval_same_coeffs(p: Seq<nat>, q: Seq<nat>, x: nat)
    requires
        same_coeffs(p, q),
    ensures
        poly_eval(p, x) == poly_eval(q, x),
{
    let m = if p.len() >= q.len() {
        p.len()
    } else {
        q.len()
    };
    let xi = x as int;
    lemma_ieval_linear(p, q, q, 1, 0, xi, xi, m);
    lemma_ieval_beyond(p, xi, m);
    lemma_ieval_beyond(q, xi, m);
    lemma_poly_eval_cong(p, x);
    lemma_poly_eval_cong(q, x);
    lemma_eval_elem(p, x);
    lemma_eval_elem(q, x);
    lemma_cong_elems(poly_eval(p, x), poly_eval(q, x));
}

/// The value of a sum is the sum of the values.
pub proof fn lemma_eval_add(p: Seq<nat>, q: Seq<nat>, x: nat)
    ensures
        poly_eval(poly_add(p, q), x) == fadd(poly_eval(p, x), poly_eval(q, x)),
{
    let r = poly_add(p, q);
    let xi = x as int;
    assert forall|i: int| 0 <= i < r.len() implies cong(
        coeff(r, i) as int,
        1int * coeff(p, i) + 1int * coeff(q, i),
    ) by {
        lemma_field_ops_cong(coeff(p, i), coeff(q, i));
    }
    lemma_ieval_linear(r, p, q, 1, 1, xi, xi, r.len());
    lemma_ieval_beyond(p, xi, r.len());
    lemma_ieval_beyond(q, xi, r.len());
    lemma_poly_eval_cong(r, x);
    lemma_poly_eval_cong(p, x);
    lemma_poly_eval_cong(q, x);
    lemma_cong_add(
        poly_eval(p, x) as int,
        ieval(p, xi, p.len()),
        poly_eval(q, x) as int,
        ieval(q, xi, q.len()),
    );
    lemma_field_ops_cong(poly_eval(p, x), poly_eval(q, x));
    lemma_eval_elem(r, x);
    lemma_cong_elems(poly_eval(r, x), fadd(poly_eval(p, x), poly_eval(q, x)));
}

/// The value of a difference is the difference of the values.
pub proof fn lemma_eval_sub(p: Seq<nat>, q: Seq<nat>, x: nat)
    ensures
        poly_eval(poly_sub(p, q), x) == fsub(poly_eval(p, x), poly_eval(q, x)),
{
    let r = poly_sub(p, q);
    let xi = x as int;
    assert forall|i: int| 0 <= i < r.len() implies cong(
        coeff(r, i) as int,
        1int * coeff(p, i) + (-1int) * coeff(q, i),
    ) by {
        lemma_field_ops_cong(coeff(p, i), coeff(q, i));
    }
    lemma_ieval_linear(r, p, q, 1, -1, xi, xi, r.len());
    lemma_ieval_beyond(p, xi, r.len());
    lemma_ieval_beyond(q, xi, r.len());
    lemma_poly_eval_cong(r, x);
    lemma_poly_eval_cong(p, x);
    lemma_poly_eval_cong(q, x);
    lemma_cong_sub(
        poly_eval(p, x) as int,
        ieval(p, xi, p.len()),
        poly_eval(q, x) as int,
        ieval(q, xi, q.len()),
    );
    lemma_field_ops_cong(poly_eval(p, x), poly_eval(q, x));
    lemma_eval_elem(r, x);
    lemma_cong_elems(poly_eval(r, x), fsub(poly_eval(p, x), poly_eval(q, x)));
}

/// The value of a polynomial times a number is its value times that number.
pub proof fn lemma_eval_scale(p: Seq<nat>, c: nat, x: nat)
    ensures
        poly_eval(poly_scale(p, c), x) == fmul(poly_eval(p, x), c),
{
    let r = poly_scale(p, c);
    let xi = x as int;
    assert forall|i: int| 0 <= i < r.len() implies cong(
        coeff(r, i) as int,
        c as int * coeff(p, i) + 0int * coeff(p, i),
    ) by {
        lemma_field_ops_cong(coeff(p, i), c);
        assert(coeff(p, i) as int * c as int == c as int * coeff(p, i) + 0int * coeff(p, i))
            by (nonlinear_arith);
    }
    lemma_ieval_linear(r, p, p, c as int, 0, xi, xi, r.len());
    lemma_poly_eval_cong(r, x);
    lemma_poly_eval_cong(p, x);
    let e = ieval(p, xi, p.len());
    lemma_cong_mul(poly_eval(p, x) as int, e, c as int, c as int);
    assert(c as int * e + 0 * e == e * c as int) by (nonlinear_arith);
    lemma_field_ops_cong(poly_eval(p, x), c);
    lemma_eval_elem(r, x);
    lemma_cong_elems(poly_eval(r, x), fmul(poly_eval(p, x), c));
}

/// The value of `X - a` at `x` is `x - a`.
pub proof fn lemma_eval_linear_factor(a: nat, x: nat)
    requires
        is_elem(x),
    ensures
        poly_eval(linear_factor(a), x) == fsub(x, a),
{
    let p = linear_factor(a);
    let xi = x as int;
    lemma_poly_eval_cong(p, x);
    assert(ieval(p, xi, 2) == ieval(p, xi, 1) + coeff(p, 1) * ipow(xi, 1));
    assert(ieval(p, xi, 1) == ieval(p, xi, 0) + coeff(p, 0) * ipow(xi, 0));
    assert(ipow(xi, 1) == xi * ipow(xi, 0));
    assert(ieval(p, xi, 2) == fsub(0, a) + xi) by (nonlinear_arith)
        requires
            ieval(p, xi, 2) == 0 + fsub(0, a) * 1 + 1 * (xi * 1),
    ;
    lemma_field_ops_cong(0, a);
    lemma_field_ops_cong(x, a);
    lemma_cong_add(fsub(0, a) as int, 0 - a as int, xi, xi);
    lemma_eval_elem(p, x);
    lemma_cong_elems(poly_eval(p, x), fsub(x, a));
}

/// A polynomial that is zero from degree one on has its constant coefficient
/// as its value everywhere.
pub proof fn lemma_eval_constant(p: Seq<nat>, x: nat)
    requires
        is_poly(p),
        forall|k: int| 1 <= k < p.len() ==> #[trigger] p[k] == 0,
    ensures
        poly_eval(p, x) == coeff(p, 0),
{
    let c = seq![coeff(p, 0)];
    assert(same_coeffs(p, c));
    lemma_eval_same_coeffs(p, c, x);
    assert(poly_eval(c, x) == fadd(c[0], fmul(x, eval_from(c, x, 1))));
    assert(x * 0 == 0) by (nonlinear_arith);
    lemma_identities(c[0]);
}

/// The value of a polynomial less a constant is its value less the constant.
pub proof fn lemma_eval_opening_numerator(p: Seq<nat>, v: nat, x: nat)
    requires
        is_poly(p),
        is_elem(v),
        p.len() == 0 ==> v == 0,
    ensures
        poly_eval(opening_numerator(p, v), x) == fsub(poly_eval(p, x), v),
        is_poly(opening_numerator(p, v)),
{
    let num = opening_numerator(p, v);
    if p.len() == 0 {
    } else {
        let c = seq![v];
        lemma_field_ops_cong(p[0], v);
        assert forall|k: int| 0 <= k < p.len() implies num[k] == fsub(coeff(p, k), coeff(c, k)) by {
            if k > 0 {
                lemma_identities(p[k]);
            }
        }
        assert(num =~= poly_sub(p, c));
        lemma_eval_sub(p, c, x);
        assert(is_poly(c));
        lemma_eval_constant(c, x);
    }
}

} // verus!
