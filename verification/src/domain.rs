//! The domain of a vector: the powers of a root of unity. What key generation
//! computes from `X^n - 1` are the Lagrange basis polynomials of that domain.

use vstd::prelude::*;
use crate::asvc::{domain, domain_point, domain_vanishing, lagrange_basis, vanishing_quotient};
use crate::congruence::{
    cong, lemma_cong_add, lemma_cong_elems, lemma_cong_mul, lemma_cong_sub, lemma_field_ops_cong,
};
use crate::division::{
    lemma_division, lemma_division_eval, lemma_linear_divisible, lemma_quotient_unique,
};
use crate::evaluation::{
    lemma_eval_add, lemma_eval_constant, lemma_eval_linear_factor, lemma_eval_scale,
};
use crate::interpolation::{law_interpolation_hits_values, lemma_interpolation_sum_is_poly};
use crate::poly::{
    coeff, conv_sum, interpolable, is_poly, lemma_conv_sum_elem, lemma_interpolation_sum_len,
    linear_factor, poly_add, poly_div, poly_eval, poly_interpolate, poly_mul, poly_rem, poly_scale,
    root_of_unity, zeros,
};
use crate::powers::lemma_fpow_cong;
use crate::roots::{lemma_agree_everywhere, lemma_cancel, separated};
use crate::scalar::{
    fadd, finv, fmul, fpow, fsub, invertible, is_elem, lemma_finv, lemma_identities,
};
use crate::sums::{
    iconv, ieval, ipow, lemma_conv_sum_cong, lemma_eval_elem, lemma_ipow_adds, lemma_ipow_cong,
    lemma_poly_eval_cong,
};

verus! {

/// The powers of `a` from the `n - 1`-th down to the zeroth: the coefficients
/// of `(X^n - 1) / (X - a)` where `a^n` is one.
pub open spec fn falling_powers(a: nat, n: nat) -> Seq<nat> {
    Seq::new(n, |k: int| fpow(a, (n - 1 - k) as nat))
}

/// The convolution with `X - a` has two products for each degree.
pub proof fn lemma_iconv_linear_factor(p: Seq<nat>, a: nat, k: int, n: nat)
    requires
        n <= p.len(),
    ensures
        iconv(p, linear_factor(a), k, n) == (if 0 <= k - 1 < n {
            p[k - 1] as int
        } else {
            0
        }) + (if 0 <= k < n {
            p[k] * linear_factor(a)[0]
        } else {
            0
        }),
    decreases n,
{
    if n > 0 {
        lemma_iconv_linear_factor(p, a, k, (n - 1) as nat);
        let i = n - 1;
        let c = p[i] as int;
        let d = coeff(linear_factor(a), k - i) as int;
        if k - i == 1 {
            assert(c * 1 == c) by (nonlinear_arith);
        } else if k - i == 0 {
        } else {
            assert(c * 0 == 0) by (nonlinear_arith);
        }
    }
}

/// `X^n - 1` is `X - a` times the falling powers of `a`, where `a^n` is one.
pub proof fn lemma_vanishing_factor(a: nat, n: nat)
    requires
        is_elem(a),
        n >= 1,
        fpow(a, n) == 1,
    ensures
        poly_div(domain_vanishing(n), linear_factor(a)) == falling_powers(a, n),
        is_poly(falling_powers(a, n)),
        is_poly(domain_vanishing(n)),
{
    let num = domain_vanishing(n);
    let den = linear_factor(a);
    let quot = falling_powers(a, n);
    let rem = Seq::<nat>::empty();
    lemma_linear_divisible(a);
    lemma_field_ops_cong(0, 1);
    lemma_field_ops_cong(0, a);
    assert forall|k: int| 0 <= k < quot.len() implies is_elem(#[trigger] quot[k]) by {
        lemma_fpow_cong(a, (n - 1 - k) as nat);
    }
    assert forall|k: int| 0 <= k < num.len() implies #[trigger] num[k] == fadd(
        coeff(rem, k),
        coeff(poly_mul(quot, den), k),
    ) by {
        let prod = coeff(poly_mul(quot, den), k);
        assert(prod == conv_sum(quot, den, k, quot.len()));
        lemma_conv_sum_cong(quot, den, k, quot.len());
        lemma_conv_sum_elem(quot, den, k, quot.len());
        lemma_iconv_linear_factor(quot, a, k, quot.len());
        lemma_identities(prod);
        let ai = a as int;
        let minus_a = fsub(0, a) as int;
        if k == n {
            assert(quot[k - 1] == fpow(a, 0));
            lemma_cong_elems(prod, 1);
        } else {
            let high = fpow(a, (n - 1 - k) as nat);
            assert(quot[k] == high);
            lemma_fpow_cong(a, (n - 1 - k) as nat);
            // high * (-a) is minus the next power
            assert(fpow(a, (n - k) as nat) == fmul(a, high));
            lemma_field_ops_cong(a, high);
            lemma_cong_mul(high as int, high as int, minus_a, 0 - ai);
            assert(high as int * (0 - ai) == 0 - ai * high as int) by (nonlinear_arith);
            lemma_cong_sub(0, 0, fmul(a, high) as int, ai * high as int);
            if k == 0 {
                // the product is minus a^n, which is minus one
                assert(cong(prod as int, 0 - 1));
                lemma_cong_elems(prod, fsub(0, 1));
            } else {
                assert(quot[k - 1] == fpow(a, (n - k) as nat));
                lemma_cong_add(
                    fmul(a, high) as int,
                    fmul(a, high) as int,
                    high as int * minus_a,
                    0 - fmul(a, high) as int,
                );
                lemma_cong_elems(prod, 0);
            }
        }
    }
    lemma_quotient_unique(num, den, quot, rem);
}

/// The sum of the first `m` terms of the falling powers of `a` at `a` itself
/// is `m` times the `n - 1`-th power.
pub proof fn lemma_falling_powers_sum(a: nat, n: nat, m: nat)
    requires
        m <= n,
    ensures
        cong(ieval(falling_powers(a, n), a as int, m), m * ipow(a as int, (n - 1) as nat)),
    decreases m,
{
    let ai = a as int;
    let top = ipow(ai, (n - 1) as nat);
    let g = falling_powers(a, n);
    if m == 0 {
        assert(0 * top == 0) by (nonlinear_arith);
    } else {
        lemma_falling_powers_sum(a, n, (m - 1) as nat);
        let k = (m - 1) as nat;
        let term = g[k as int] as int * ipow(ai, k);
        assert(ieval(g, ai, m) == ieval(g, ai, k) + term);
        assert(g[k as int] == fpow(a, (n - 1 - k) as nat));
        lemma_fpow_cong(a, (n - 1 - k) as nat);
        lemma_cong_mul(g[k as int] as int, ipow(ai, (n - 1 - k) as nat), ipow(ai, k), ipow(ai, k));
        lemma_ipow_adds(ai, (n - 1 - k) as nat, k);
        assert(cong(term, top));
        lemma_cong_add(ieval(g, ai, k), k * top, term, top);
        assert(k * top + top == m * top) by (nonlinear_arith)
            requires
                m == k + 1,
        ;
    }
}

/// The value of `X^n - 1` at `x` is `x^n - 1`.
pub proof fn lemma_eval_domain_vanishing(n: nat, x: nat)
    requires
        n >= 1,
        is_elem(x),
    ensures
        poly_eval(domain_vanishing(n), x) == fsub(fpow(x, n), 1),
{
    let p = domain_vanishing(n);
    let xi = x as int;
    lemma_field_ops_cong(0, 1);
    lemma_sparse_sum(p, xi, n);
    assert(ieval(p, xi, n + 1) == ieval(p, xi, n) + p[n as int] * ipow(xi, n));
    assert(1 * ipow(xi, n) == ipow(xi, n)) by (nonlinear_arith);
    lemma_poly_eval_cong(p, x);
    lemma_fpow_cong(x, n);
    lemma_field_ops_cong(fpow(x, n), 1);
    lemma_cong_add(p[0] as int, 0 - 1, ipow(xi, n), fpow(x, n) as int);
    lemma_eval_elem(p, x);
    lemma_cong_elems(poly_eval(p, x), fsub(fpow(x, n), 1));
}

/// A polynomial with zeros from degree one up to below `m` sums to its
/// constant coefficient up to there.
proof fn lemma_sparse_sum(p: Seq<nat>, x: int, m: nat)
    requires
        m >= 1,
        m <= p.len(),
        forall|k: int| 1 <= k < m ==> #[trigger] p[k] == 0,
    ensures
        ieval(p, x, m) == p[0] as int,
    decreases m,
{
    if m == 1 {
        assert(ieval(p, x, 1) == ieval(p, x, 0) + p[0] * ipow(x, 0));
        assert(p[0] * 1 == p[0] as int) by (nonlinear_arith);
    } else {
        lemma_sparse_sum(p, x, (m - 1) as nat);
        assert(0 * ipow(x, (m - 1) as nat) == 0) by (nonlinear_arith);
    }
}

/// A power of a power is the power to the product of the exponents, over the
/// integers.
pub proof fn lemma_ipow_mul(x: int, e: nat, f: nat)
    ensures
        ipow(ipow(x, e), f) == ipow(x, e * f),
    decreases f,
{
    if f == 0 {
        assert(e * 0 == 0) by (nonlinear_arith);
    } else {
        lemma_ipow_mul(x, e, (f - 1) as nat);
        lemma_ipow_adds(x, e, e * (f - 1) as nat);
        assert(e + e * (f - 1) == e * f) by (nonlinear_arith);
    }
}

/// A power of a power is the power to the product of the exponents.
pub proof fn lemma_fpow_mul(b: nat, e: nat, f: nat)
    ensures
        fpow(fpow(b, e), f) == fpow(b, e * f),
{
    lemma_fpow_cong(fpow(b, e), f);
    lemma_fpow_cong(b, e);
    lemma_fpow_cong(b, e * f);
    lemma_ipow_cong(fpow(b, e) as int, ipow(b as int, e), f);
    lemma_ipow_mul(b as int, e, f);
    lemma_cong_elems(fpow(fpow(b, e), f), fpow(b, e * f));
}

/// Every power of one is one.
pub proof fn lemma_fpow_of_one(e: nat)
    ensures
        fpow(1, e) == 1,
    decreases e,
{
    if e > 0 {
        lemma_fpow_of_one((e - 1) as nat);
        lemma_identities(1);
    }
}

/// What the domain of `n` points has to be for the scheme to work: its root
/// of unity has an order that divides `n`, its points are separated, and `n`
/// has an inverse. That is so where `n` is a power of two up to `2^32`.
pub open spec fn good_domain(n: nat) -> bool {
    &&& n >= 1
    &&& fpow(root_of_unity(n), n) == 1
    &&& invertible(n)
    &&& separated(domain(n))
}

/// Every point of a good domain is an `n`-th root of unity.
pub proof fn lemma_domain_point_order(n: nat, i: nat)
    requires
        good_domain(n),
    ensures
        fpow(domain_point(n, i), n) == 1,
        is_elem(domain_point(n, i)),
{
    let w = root_of_unity(n);
    lemma_fpow_mul(w, i, n);
    lemma_fpow_mul(w, n, i);
    assert(i * n == n * i) by (nonlinear_arith);
    lemma_fpow_of_one(i);
    lemma_fpow_cong(w, i);
}

/// The quotient of `X^n - 1` by `X - a`, where `a^n` is one, has at every
/// point the value of `X^n - 1` there, divided by `x - a`.
pub proof fn lemma_vanishing_quotient_eval(n: nat, a: nat, x: nat)
    requires
        n >= 1,
        is_elem(a),
        is_elem(x),
        fpow(a, n) == 1,
    ensures
        fmul(poly_eval(falling_powers(a, n), x), fsub(x, a)) == fsub(fpow(x, n), 1),
{
    let num = domain_vanishing(n);
    let den = linear_factor(a);
    let rem = poly_rem(num, den);
    lemma_vanishing_factor(a, n);
    lemma_linear_divisible(a);
    lemma_division(num, den);
    lemma_division_eval(num, den, a);
    lemma_division_eval(num, den, x);
    lemma_eval_linear_factor(a, a);
    lemma_eval_linear_factor(a, x);
    lemma_eval_domain_vanishing(n, a);
    lemma_eval_domain_vanishing(n, x);
    lemma_eval_constant(rem, a);
    lemma_eval_constant(rem, x);
    lemma_identities(a);
    lemma_identities(1);
    let qa = poly_eval(falling_powers(a, n), a);
    assert(qa * 0 == 0) by (nonlinear_arith);
    lemma_eval_elem(rem, a);
    lemma_identities(poly_eval(rem, a));
    lemma_field_ops_cong(poly_eval(falling_powers(a, n), x), fsub(x, a));
    lemma_identities(fmul(poly_eval(falling_powers(a, n), x), fsub(x, a)));
}

/// On a good domain, what key generation computes for position `i` is the
/// Lagrange basis polynomial of that position: one at the position's own
/// point and zero at the others.
pub proof fn lemma_basis_on_domain(n: nat, i: nat, j: nat)
    requires
        good_domain(n),
        i < n,
        j < n,
    ensures
        poly_eval(lagrange_basis(n, i), domain_point(n, j)) == (if i == j {
            1nat
        } else {
            0nat
        }),
        lagrange_basis(n, i).len() == n,
        is_poly(lagrange_basis(n, i)),
{
    let a = domain_point(n, i);
    let x = domain_point(n, j);
    let ninv = finv(n);
    let c = fmul(a, ninv);
    let g = falling_powers(a, n);
    lemma_domain_point_order(n, i);
    lemma_domain_point_order(n, j);
    lemma_vanishing_factor(a, n);
    assert(vanishing_quotient(n, i) == g);
    lemma_eval_scale(g, c, x);
    lemma_field_ops_cong(a, ninv);
    assert forall|k: int| 0 <= k < lagrange_basis(n, i).len() implies is_elem(
        #[trigger] lagrange_basis(n, i)[k],
    ) by {
        lemma_field_ops_cong(g[k], c);
    }
    lemma_eval_elem(g, x);
    if i == j {
        let ai = a as int;
        let ni = n as int;
        lemma_poly_eval_cong(g, a);
        lemma_falling_powers_sum(a, n, n);
        lemma_finv(n);
        lemma_field_ops_cong(n, ninv);
        lemma_field_ops_cong(poly_eval(g, a), c);
        lemma_fpow_cong(a, n);
        lemma_ipow_adds(ai, (n - 1) as nat, 1);
        assert(ipow(ai, 1) == ai * ipow(ai, 0));
        let top = ipow(ai, (n - 1) as nat);
        lemma_cong_mul(poly_eval(g, a) as int, ni * top, c as int, ai * ninv as int);
        assert((ni * top) * (ai * ninv as int) == (top * ai) * (ni * ninv as int))
            by (nonlinear_arith);
        assert(top * ai == ipow(ai, n)) by (nonlinear_arith)
            requires
                ipow(ai, n) == top * ipow(ai, 1),
                ipow(ai, 1) == ai * 1,
        ;
        lemma_cong_mul(ipow(ai, n), 1, ni * ninv as int, 1);
        lemma_cong_elems(fmul(poly_eval(g, a), c), 1);
    } else {
        lemma_vanishing_quotient_eval(n, a, x);
        lemma_identities(1);
        assert(domain(n)[j as int] == x && domain(n)[i as int] == a);
        assert(invertible(fsub(domain(n)[j as int], domain(n)[i as int])));
        lemma_cancel(poly_eval(g, x), fsub(x, a));
        assert(0 * c == 0) by (nonlinear_arith);
    }
}

/// The sum of the first `m` basis polynomials of the domain, each times the
/// entry at its position.
pub open spec fn basis_mix(n: nat, vector: Seq<nat>, m: nat) -> Seq<nat>
    decreases m,
{
    if m == 0 {
        zeros(n)
    } else {
        poly_add(
            basis_mix(n, vector, (m - 1) as nat),
            poly_scale(lagrange_basis(n, (m - 1) as nat), vector[m - 1]),
        )
    }
}

/// The sum of the values at `s` of the first `m` basis polynomials of the
/// domain, each times the entry at its position.
pub open spec fn mix_value(n: nat, vector: Seq<nat>, s: nat, m: nat) -> nat
    decreases m,
{
    if m == 0 {
        0
    } else {
        fadd(
            mix_value(n, vector, s, (m - 1) as nat),
            fmul(poly_eval(lagrange_basis(n, (m - 1) as nat), s), vector[m - 1]),
        )
    }
}

/// The mix of the basis polynomials is a polynomial of `n` coefficients,
/// whose value is the mix of their values.
pub proof fn lemma_basis_mix(n: nat, vector: Seq<nat>, s: nat, m: nat)
    requires
        good_domain(n),
        m <= n,
    ensures
        is_poly(basis_mix(n, vector, m)),
        basis_mix(n, vector, m).len() == n,
        poly_eval(basis_mix(n, vector, m), s) == mix_value(n, vector, s, m),
        is_elem(mix_value(n, vector, s, m)),
    decreases m,
{
    if m == 0 {
        let z = zeros(n);
        assert(is_poly(z));
        lemma_eval_constant(z, s);
    } else {
        lemma_basis_mix(n, vector, s, (m - 1) as nat);
        let prev = basis_mix(n, vector, (m - 1) as nat);
        let basis = lagrange_basis(n, (m - 1) as nat);
        let term = poly_scale(basis, vector[m - 1]);
        lemma_basis_on_domain(n, (m - 1) as nat, 0);
        lemma_eval_add(prev, term, s);
        lemma_eval_scale(basis, vector[m - 1], s);
        assert forall|k: int| 0 <= k < poly_add(prev, term).len() implies is_elem(
            #[trigger] poly_add(prev, term)[k],
        ) by {
            lemma_field_ops_cong(coeff(prev, k), coeff(term, k));
        }
        lemma_field_ops_cong(
            mix_value(n, vector, s, (m - 1) as nat),
            fmul(poly_eval(basis, s), vector[m - 1]),
        );
    }
}

/// At a point of the domain, the mix of the first `m` basis polynomials has
/// the entry of that point's position if it is among them, and is zero if
/// not.
pub proof fn lemma_mix_on_domain(n: nat, vector: Seq<nat>, m: nat, j: nat)
    requires
        good_domain(n),
        is_poly(vector),
        vector.len() == n,
        m <= n,
        j < n,
    ensures
        mix_value(n, vector, domain_point(n, j), m) == (if j < m {
            vector[j as int]
        } else {
            0
        }),
    decreases m,
{
    if m > 0 {
        lemma_mix_on_domain(n, vector, (m - 1) as nat, j);
        lemma_basis_on_domain(n, (m - 1) as nat, j);
        let v = vector[m - 1];
        lemma_identities(v);
        if j < m - 1 {
            lemma_identities(vector[j as int]);
        }
    }
}

/// On a good domain, the basis polynomials mixed with a vector's entries are
/// the interpolation through the vector: they have the same value everywhere.
pub proof fn lemma_mix_is_interpolation(n: nat, vector: Seq<nat>, s: nat)
    requires
        good_domain(n),
        interpolable(domain(n)),
        is_poly(vector),
        vector.len() == n,
    ensures
        mix_value(n, vector, s, n) == poly_eval(poly_interpolate(domain(n), vector), s),
{
    let dom = domain(n);
    let mixed = basis_mix(n, vector, n);
    let through = poly_interpolate(dom, vector);
    lemma_basis_mix(n, vector, s, n);
    assert forall|i: int| 0 <= i < dom.len() implies is_elem(#[trigger] dom[i]) by {
        lemma_domain_point_order(n, i as nat);
    }
    lemma_interpolation_sum_is_poly(dom, vector, n);
    lemma_interpolation_sum_len(dom, vector, n);
    assert forall|j: int| 0 <= j < dom.len() implies poly_eval(mixed, #[trigger] dom[j])
        == poly_eval(through, dom[j]) by {
        lemma_basis_mix(n, vector, dom[j], n);
        lemma_mix_on_domain(n, vector, n, j as nat);
        law_interpolation_hits_values(dom, vector, j);
    }
    lemma_agree_everywhere(mixed, through, dom, s);
}

} // verus!
