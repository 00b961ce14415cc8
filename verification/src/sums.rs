//! Values and products of polynomials written out as sums over the integers,
//! and what they have to do with the field's own arithmetic.

use vstd::prelude::*;
use crate::congruence::{
    cong, lemma_cong_add, lemma_cong_elems, lemma_cong_mul, lemma_field_ops_cong,
};
use crate::poly::{coeff, conv_sum, eval_from, poly_eval, poly_mul};
use crate::scalar::{fmul, is_elem};

verus! {

/// `x` to the power `e`, over the integers.
pub open spec fn ipow(x: int, e: nat) -> int
    decreases e,
{
    if e == 0 {
        1
    } else {
        x * ipow(x, (e - 1) as nat)
    }
}

/// The sum of `p[i] * x^i` over `i < m`.
pub open spec fn ieval(p: Seq<nat>, x: int, m: nat) -> int
    decreases m,
{
    if m == 0 {
        0
    } else {
        ieval(p, x, (m - 1) as nat) + coeff(p, m - 1) * ipow(x, (m - 1) as nat)
    }
}

/// The sum of `p[i] * q[k - i]` over `i < n`.
pub open spec fn iconv(p: Seq<nat>, q: Seq<nat>, k: int, n: nat) -> int
    decreases n,
{
    if n == 0 {
        0
    } else {
        iconv(p, q, k, (n - 1) as nat) + coeff(p, n - 1) * coeff(q, k - (n - 1))
    }
}

/// The sum of `q[k - s] * x^k` over `k < m`: `q` shifted up by `s` degrees.
pub open spec fn ishift(q: Seq<nat>, x: int, m: nat, s: nat) -> int
    decreases m,
{
    if m == 0 {
        0
    } else {
        ishift(q, x, (m - 1) as nat, s) + coeff(q, m - 1 - s) * ipow(x, (m - 1) as nat)
    }
}

/// The sum over `k < m` of `x^k` times the sum of `p[i] * q[k - i]` over
/// `i < n`.
pub open spec fn idouble(p: Seq<nat>, q: Seq<nat>, x: int, m: nat, n: nat) -> int
    decreases m,
{
    if m == 0 {
        0
    } else {
        idouble(p, q, x, (m - 1) as nat, n) + iconv(p, q, m - 1, n) * ipow(x, (m - 1) as nat)
    }
}

/// Powers add their exponents.
pub proof fn lemma_ipow_adds(x: int, a: nat, b: nat)
    ensures
        ipow(x, a + b) == ipow(x, a) * ipow(x, b),
    decreases a,
{
    if a == 0 {
        assert(ipow(x, 0) * ipow(x, b) == ipow(x, b)) by (nonlinear_arith)
            requires
                ipow(x, 0) == 1,
        ;
    } else {
        lemma_ipow_adds(x, (a - 1) as nat, b);
        let u = ipow(x, (a - 1) as nat);
        let v = ipow(x, b);
        assert(x * (u * v) == (x * u) * v) by (nonlinear_arith);
        assert(ipow(x, a + b) == x * ipow(x, (a + b - 1) as nat));
    }
}

/// Powers of congruent numbers are congruent.
pub proof fn lemma_ipow_cong(x: int, y: int, e: nat)
    requires
        cong(x, y),
    ensures
        cong(ipow(x, e), ipow(y, e)),
    decreases e,
{
    if e > 0 {
        lemma_ipow_cong(x, y, (e - 1) as nat);
        lemma_cong_mul(x, y, ipow(x, (e - 1) as nat), ipow(y, (e - 1) as nat));
    }
}

/// Beyond a polynomial's length the sum of its terms no longer grows.
pub proof fn lemma_ieval_beyond(p: Seq<nat>, x: int, m: nat)
    requires
        m >= p.len(),
    ensures
        ieval(p, x, m) == ieval(p, x, p.len()),
    decreases m,
{
    if m > p.len() {
        lemma_ieval_beyond(p, x, (m - 1) as nat);
        assert(0 * ipow(x, (m - 1) as nat) == 0) by (nonlinear_arith);
    }
}

/// Where the coefficients of `r` are those of `a * p + b * q` up to
/// congruence, so is its sum of terms, at congruent points.
pub proof fn lemma_ieval_linear(
    r: Seq<nat>,
    p: Seq<nat>,
    q: Seq<nat>,
    a: int,
    b: int,
    x: int,
    y: int,
    m: nat,
)
    requires
        cong(x, y),
        forall|i: int| 0 <= i < m ==> cong(coeff(r, i) as int, a * coeff(p, i) + b * coeff(q, i)),
    ensures
        cong(ieval(r, x, m), a * ieval(p, y, m) + b * ieval(q, y, m)),
    decreases m,
{
    if m > 0 {
        lemma_ieval_linear(r, p, q, a, b, x, y, (m - 1) as nat);
        let i = (m - 1) as int;
        let xi = ipow(x, (m - 1) as nat);
        let yi = ipow(y, (m - 1) as nat);
        lemma_ipow_cong(x, y, (m - 1) as nat);
        let cr = coeff(r, i) as int;
        let cp = coeff(p, i) as int;
        let cq = coeff(q, i) as int;
        lemma_cong_mul(cr, a * cp + b * cq, xi, yi);
        lemma_cong_add(
            ieval(r, x, (m - 1) as nat),
            a * ieval(p, y, (m - 1) as nat) + b * ieval(q, y, (m - 1) as nat),
            cr * xi,
            (a * cp + b * cq) * yi,
        );
        let ep = ieval(p, y, (m - 1) as nat);
        let eq = ieval(q, y, (m - 1) as nat);
        assert(a * ep + b * eq + (a * cp + b * cq) * yi == a * (ep + cp * yi) + b * (eq + cq * yi))
            by (nonlinear_arith);
    }
}

/// A partial convolution sum in the field is the integers' up to congruence.
pub proof fn lemma_conv_sum_cong(p: Seq<nat>, q: Seq<nat>, k: int, n: nat)
    ensures
        cong(conv_sum(p, q, k, n) as int, iconv(p, q, k, n)),
    decreases n,
{
    if n > 0 {
        lemma_conv_sum_cong(p, q, k, (n - 1) as nat);
        let a = coeff(p, n - 1);
        let b = coeff(q, k - (n - 1));
        lemma_field_ops_cong(a, b);
        lemma_field_ops_cong(conv_sum(p, q, k, (n - 1) as nat), fmul(a, b));
        lemma_cong_add(
            conv_sum(p, q, k, (n - 1) as nat) as int,
            iconv(p, q, k, (n - 1) as nat),
            fmul(a, b) as int,
            a as int * b as int,
        );
    }
}

/// Horner's rule gives the sum of the terms, up to congruence.
pub proof fn lemma_eval_from_cong(p: Seq<nat>, x: nat, i: nat)
    requires
        i <= p.len(),
    ensures
        cong(
            ieval(p, x as int, p.len()),
            ieval(p, x as int, i) + ipow(x as int, i) * eval_from(p, x, i),
        ),
    decreases p.len() - i,
{
    let xi = ipow(x as int, i);
    if i == p.len() {
        assert(xi * 0 == 0) by (nonlinear_arith);
    } else {
        lemma_eval_from_cong(p, x, i + 1);
        let e1 = eval_from(p, x, i + 1);
        let e0 = eval_from(p, x, i);
        let c = p[i as int];
        lemma_field_ops_cong(x, e1);
        lemma_field_ops_cong(c, fmul(x, e1));
        // e0 = c + x * e1 up to congruence
        lemma_cong_add(c as int, c as int, fmul(x, e1) as int, x as int * e1 as int);
        assert(cong(e0 as int, c as int + x as int * e1 as int));
        lemma_cong_mul(xi, xi, e0 as int, c as int + x as int * e1 as int);
        let base = ieval(p, x as int, i);
        lemma_cong_add(base, base, xi * e0, xi * (c as int + x as int * e1 as int));
        assert(ipow(x as int, i + 1) == x as int * xi);
        assert(base + xi * (c as int + x as int * e1) == (base + c as int * xi) + (x as int * xi)
            * e1) by (nonlinear_arith);
    }
}

/// The value of a polynomial is the sum of its terms, up to congruence.
pub proof fn lemma_poly_eval_cong(p: Seq<nat>, x: nat)
    ensures
        cong(poly_eval(p, x) as int, ieval(p, x as int, p.len())),
{
    lemma_eval_from_cong(p, x, 0);
    let e = eval_from(p, x, 0) as int;
    assert(1 * e == e) by (nonlinear_arith);
}

/// A shifted polynomial has no terms below the shift.
pub proof fn lemma_ishift_below(q: Seq<nat>, x: int, m: nat, s: nat)
    requires
        m <= s,
    ensures
        ishift(q, x, m, s) == 0,
    decreases m,
{
    if m > 0 {
        lemma_ishift_below(q, x, (m - 1) as nat, s);
        assert(0 * ipow(x, (m - 1) as nat) == 0) by (nonlinear_arith);
    }
}

/// A polynomial shifted up by `s` degrees is `x^s` times the polynomial.
pub proof fn lemma_ishift(q: Seq<nat>, x: int, m: nat, s: nat)
    requires
        m >= s,
    ensures
        ishift(q, x, m, s) == ipow(x, s) * ieval(q, x, (m - s) as nat),
    decreases m,
{
    if m == s {
        lemma_ishift_below(q, x, m, s);
        assert(ipow(x, s) * 0 == 0) by (nonlinear_arith);
    } else {
        lemma_ishift(q, x, (m - 1) as nat, s);
        lemma_ipow_adds(x, s, (m - 1 - s) as nat);
        let c = coeff(q, m - 1 - s) as int;
        let xs = ipow(x, s);
        let xr = ipow(x, (m - 1 - s) as nat);
        let e = ieval(q, x, (m - 1 - s) as nat);
        assert(xs * e + c * (xs * xr) == xs * (e + c * xr)) by (nonlinear_arith);
    }
}

/// Taking one more coefficient of `p` into the double sum adds that
/// coefficient times the shifted `q`.
pub proof fn lemma_idouble_step(p: Seq<nat>, q: Seq<nat>, x: int, m: nat, n: nat)
    requires
        n > 0,
    ensures
        idouble(p, q, x, m, n) == idouble(p, q, x, m, (n - 1) as nat) + coeff(p, n - 1) * ishift(
            q,
            x,
            m,
            (n - 1) as nat,
        ),
    decreases m,
{
    let c = coeff(p, n - 1) as int;
    if m == 0 {
        assert(c * 0 == 0) by (nonlinear_arith);
    } else {
        lemma_idouble_step(p, q, x, (m - 1) as nat, n);
        let xk = ipow(x, (m - 1) as nat);
        let d = coeff(q, m - 1 - (n - 1)) as int;
        let s0 = ishift(q, x, (m - 1) as nat, (n - 1) as nat);
        let v = iconv(p, q, m - 1, (n - 1) as nat);
        assert((v + c * d) * xk + c * s0 == v * xk + c * (s0 + d * xk)) by (nonlinear_arith);
    }
}

/// With no coefficient of `p` taken, the double sum is zero.
pub proof fn lemma_idouble_zero(p: Seq<nat>, q: Seq<nat>, x: int, m: nat)
    ensures
        idouble(p, q, x, m, 0) == 0,
    decreases m,
{
    if m > 0 {
        lemma_idouble_zero(p, q, x, (m - 1) as nat);
        assert(0 * ipow(x, (m - 1) as nat) == 0) by (nonlinear_arith);
    }
}

/// The double sum over enough degrees is the product of the two sums.
pub proof fn lemma_idouble_product(p: Seq<nat>, q: Seq<nat>, x: int, m: nat, n: nat)
    requires
        n == 0 || m >= n - 1 + q.len(),
    ensures
        idouble(p, q, x, m, n) == ieval(p, x, n) * ieval(q, x, q.len()),
    decreases n,
{
    let eq = ieval(q, x, q.len());
    if n == 0 {
        lemma_idouble_zero(p, q, x, m);
        assert(0 * eq == 0) by (nonlinear_arith);
    } else {
        lemma_idouble_product(p, q, x, m, (n - 1) as nat);
        lemma_idouble_step(p, q, x, m, n);
        lemma_ishift(q, x, m, (n - 1) as nat);
        lemma_ieval_beyond(q, x, (m - (n - 1)) as nat);
        let c = coeff(p, n - 1) as int;
        let xs = ipow(x, (n - 1) as nat);
        let ep = ieval(p, x, (n - 1) as nat);
        assert(ep * eq + c * (xs * eq) == (ep + c * xs) * eq) by (nonlinear_arith);
    }
}

/// Where the coefficients of `r` are the convolution sums of `p` and `q` up
/// to congruence, the sum of its terms is the double sum.
pub proof fn lemma_ieval_of_product(r: Seq<nat>, p: Seq<nat>, q: Seq<nat>, x: int, m: nat, n: nat)
    requires
        forall|k: int| 0 <= k < m ==> cong(coeff(r, k) as int, iconv(p, q, k, n)),
    ensures
        cong(ieval(r, x, m), idouble(p, q, x, m, n)),
    decreases m,
{
    if m > 0 {
        lemma_ieval_of_product(r, p, q, x, (m - 1) as nat, n);
        let xk = ipow(x, (m - 1) as nat);
        lemma_cong_mul(coeff(r, m - 1) as int, iconv(p, q, m - 1, n), xk, xk);
        lemma_cong_add(
            ieval(r, x, (m - 1) as nat),
            idouble(p, q, x, (m - 1) as nat, n),
            coeff(r, m - 1) * xk,
            iconv(p, q, m - 1, n) * xk,
        );
    }
}

/// The value of a product is the product of the values.
pub proof fn lemma_eval_mul(p: Seq<nat>, q: Seq<nat>, x: nat)
    ensures
        poly_eval(poly_mul(p, q), x) == fmul(poly_eval(p, x), poly_eval(q, x)),
{
    let r = poly_mul(p, q);
    let xi = x as int;
    assert forall|k: int| 0 <= k < r.len() implies cong(
        coeff(r, k) as int,
        iconv(p, q, k, p.len()),
    ) by {
        lemma_conv_sum_cong(p, q, k, p.len());
    }
    lemma_ieval_of_product(r, p, q, xi, r.len(), p.len());
    if p.len() > 0 {
        lemma_idouble_product(p, q, xi, r.len(), p.len());
    } else {
        lemma_idouble_product(p, q, xi, r.len(), 0);
    }
    lemma_poly_eval_cong(r, x);
    lemma_poly_eval_cong(p, x);
    lemma_poly_eval_cong(q, x);
    lemma_cong_mul(
        poly_eval(p, x) as int,
        ieval(p, xi, p.len()),
        poly_eval(q, x) as int,
        ieval(q, xi, q.len()),
    );
    lemma_field_ops_cong(poly_eval(p, x), poly_eval(q, x));
    lemma_eval_elem(r, x);
    lemma_cong_elems(poly_eval(r, x), fmul(poly_eval(p, x), poly_eval(q, x)));
}

/// The value of a polynomial is a field element.
pub proof fn lemma_eval_elem(p: Seq<nat>, x: nat)
    ensures
        is_elem(poly_eval(p, x)),
{
    if p.len() > 0 {
        lemma_field_ops_cong(p[0], fmul(x, eval_from(p, x, 1)));
    }
}

} // verus!
