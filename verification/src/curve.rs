//! What the schemes' correctness asks of the curve: that scalars act on the
//! two source groups as on modules, and that the pairing is bilinear. The
//! library does not prove this of the curve library; it proves what follows
//! from it.

use vstd::prelude::*;
use crate::combination::{g1_combination, g1_powers, g2_combination, g2_powers};
use crate::congruence::{
    cong, lemma_cong_add, lemma_cong_elems, lemma_cong_mul, lemma_field_ops_cong,
};
use crate::group::{
    g1_diff, g1_scaled, g1_sum, g1_valid, g2_diff, g2_scaled, g2_sum, g2_valid, pairing_value,
};
use crate::poly::{coeff, is_poly, poly_eval};
use crate::powers::lemma_fpow_cong;
use crate::scalar::{fadd, fmul, fpow, fsub, is_elem};
use crate::sums::{ieval, ipow, lemma_eval_elem, lemma_poly_eval_cong};

verus! {

/// Scalars act on G1 as on a module.
pub open spec fn g1_is_module() -> bool {
    &&& forall|p: Seq<u8>, a: nat|
        g1_valid(p) && is_elem(a) ==> g1_valid(#[trigger] g1_scaled(p, a))
    &&& forall|p: Seq<u8>, a: nat, b: nat|
        g1_valid(p) && is_elem(a) && is_elem(b) ==> #[trigger] g1_sum(
            g1_scaled(p, a),
            g1_scaled(p, b),
        ) == g1_scaled(p, fadd(a, b))
    &&& forall|p: Seq<u8>, a: nat, b: nat|
        g1_valid(p) && is_elem(a) && is_elem(b) ==> #[trigger] g1_diff(
            g1_scaled(p, a),
            g1_scaled(p, b),
        ) == g1_scaled(p, fsub(a, b))
    &&& forall|p: Seq<u8>, a: nat, b: nat|
        g1_valid(p) && is_elem(a) && is_elem(b) ==> #[trigger] g1_scaled(g1_scaled(p, a), b)
            == g1_scaled(p, fmul(a, b))
}

/// Scalars act on G2 as on a module.
pub open spec fn g2_is_module() -> bool {
    &&& forall|p: Seq<u8>, a: nat|
        g2_valid(p) && is_elem(a) ==> g2_valid(#[trigger] g2_scaled(p, a))
    &&& forall|p: Seq<u8>, a: nat, b: nat|
        g2_valid(p) && is_elem(a) && is_elem(b) ==> #[trigger] g2_sum(
            g2_scaled(p, a),
            g2_scaled(p, b),
        ) == g2_scaled(p, fadd(a, b))
    &&& forall|p: Seq<u8>, a: nat, b: nat|
        g2_valid(p) && is_elem(a) && is_elem(b) ==> #[trigger] g2_diff(
            g2_scaled(p, a),
            g2_scaled(p, b),
        ) == g2_scaled(p, fsub(a, b))
    &&& forall|p: Seq<u8>, a: nat, b: nat|
        g2_valid(p) && is_elem(a) && is_elem(b) ==> #[trigger] g2_scaled(g2_scaled(p, a), b)
            == g2_scaled(p, fmul(a, b))
}

/// A scalar may move from one side of the pairing to the other.
pub open spec fn pairing_is_bilinear() -> bool {
    forall|p: Seq<u8>, q: Seq<u8>, a: nat|
        g1_valid(p) && g2_valid(q) && is_elem(a) ==> #[trigger] pairing_value(
            p,
            g2_scaled(q, a),
        ) == pairing_value(g1_scaled(p, a), q)
}

/// The pairing with `g2` tells `g1` times `a` from `g1` times `b`.
pub open spec fn told_apart(g1: Seq<u8>, g2: Seq<u8>, a: nat, b: nat) -> bool {
    pairing_value(g1_scaled(g1, a), g2) == pairing_value(g1_scaled(g1, b), g2) ==> a == b
}

/// The pairing with `g2` tells the multiples of `g1` apart. That is so where
/// neither generator is zero, the pairing being non-degenerate.
pub open spec fn pairing_is_faithful(g1: Seq<u8>, g2: Seq<u8>) -> bool {
    forall|a: nat, b: nat| is_elem(a) && is_elem(b) ==> #[trigger] told_apart(g1, g2, a, b)
}

/// The laws of the two modules and of the pairing together.
#[verifier::opaque]
pub open spec fn curve_laws() -> bool {
    g1_is_module() && g2_is_module() && pairing_is_bilinear()
}

/// The sum of `fpow(s, i) * p[i]` over `i < n`, in the field.
pub open spec fn power_sum(p: Seq<nat>, s: nat, n: nat) -> nat
    decreases n,
{
    if n == 0 {
        0
    } else {
        fadd(power_sum(p, s, (n - 1) as nat), fmul(fpow(s, (n - 1) as nat), coeff(p, n - 1)))
    }
}

/// The sum of the powers times the coefficients is the integers' up to
/// congruence.
pub proof fn lemma_power_sum_cong(p: Seq<nat>, s: nat, n: nat)
    ensures
        cong(power_sum(p, s, n) as int, ieval(p, s as int, n)),
        is_elem(power_sum(p, s, n)),
    decreases n,
{
    if n > 0 {
        lemma_power_sum_cong(p, s, (n - 1) as nat);
        let prev = power_sum(p, s, (n - 1) as nat);
        let pw = fpow(s, (n - 1) as nat);
        let c = coeff(p, n - 1);
        lemma_fpow_cong(s, (n - 1) as nat);
        lemma_field_ops_cong(pw, c);
        lemma_field_ops_cong(prev, fmul(pw, c));
        lemma_cong_mul(pw as int, ipow(s as int, (n - 1) as nat), c as int, c as int);
        lemma_cong_add(
            prev as int,
            ieval(p, s as int, (n - 1) as nat),
            fmul(pw, c) as int,
            ipow(s as int, (n - 1) as nat) * c as int,
        );
        assert(ipow(s as int, (n - 1) as nat) * c as int == c as int * ipow(
            s as int,
            (n - 1) as nat,
        )) by (nonlinear_arith);
    }
}

/// The sum of the powers times the coefficients is the polynomial's value.
pub proof fn lemma_power_sum_is_eval(p: Seq<nat>, s: nat)
    ensures
        power_sum(p, s, p.len()) == poly_eval(p, s),
{
    lemma_power_sum_cong(p, s, p.len());
    lemma_poly_eval_cong(p, s);
    lemma_eval_elem(p, s);
    lemma_cong_elems(power_sum(p, s, p.len()), poly_eval(p, s));
}

/// Under a reference string made from `secret`, a combination in G1 is the
/// generator times the sum of the secret's powers times the coefficients.
pub proof fn lemma_g1_combination(g: Seq<u8>, secret: nat, size: nat, p: Seq<nat>, n: nat)
    requires
        g1_is_module(),
        g1_valid(g),
        is_elem(secret),
        is_poly(p),
        n <= p.len(),
        n <= size,
    ensures
        g1_combination(g, g1_powers(g, secret, size), p, n) == g1_scaled(
            g,
            power_sum(p, secret, n),
        ),
    decreases n,
{
    if n > 0 {
        lemma_g1_combination(g, secret, size, p, (n - 1) as nat);
        let crs = g1_powers(g, secret, size);
        let pw = fpow(secret, (n - 1) as nat);
        let c = p[n - 1];
        lemma_fpow_cong(secret, (n - 1) as nat);
        lemma_power_sum_cong(p, secret, (n - 1) as nat);
        lemma_field_ops_cong(pw, c);
        assert(crs[n - 1] == g1_scaled(g, pw));
        assert(g1_scaled(g1_scaled(g, pw), c) == g1_scaled(g, fmul(pw, c)));
    }
}

/// Under a reference string made from `secret`, a combination in G2 is the
/// generator times the sum of the secret's powers times the coefficients.
pub proof fn lemma_g2_combination(g: Seq<u8>, secret: nat, size: nat, p: Seq<nat>, n: nat)
    requires
        g2_is_module(),
        g2_valid(g),
        is_elem(secret),
        is_poly(p),
        n <= p.len(),
        n <= size,
    ensures
        g2_combination(g, g2_powers(g, secret, size), p, n) == g2_scaled(
            g,
            power_sum(p, secret, n),
        ),
    decreases n,
{
    if n > 0 {
        lemma_g2_combination(g, secret, size, p, (n - 1) as nat);
        let crs = g2_powers(g, secret, size);
        let pw = fpow(secret, (n - 1) as nat);
        let c = p[n - 1];
        lemma_fpow_cong(secret, (n - 1) as nat);
        lemma_power_sum_cong(p, secret, (n - 1) as nat);
        lemma_field_ops_cong(pw, c);
        assert(crs[n - 1] == g2_scaled(g, pw));
        assert(g2_scaled(g2_scaled(g, pw), c) == g2_scaled(g, fmul(pw, c)));
    }
}

/// Under a reference string made from `secret`, the commitment to a
/// polynomial is the generator times the polynomial's value at the secret.
pub proof fn lemma_commitment_is_value(g: Seq<u8>, secret: nat, size: nat, p: Seq<nat>)
    requires
        g1_is_module(),
        g1_valid(g),
        is_elem(secret),
        is_poly(p),
        p.len() <= size,
    ensures
        g1_combination(g, g1_powers(g, secret, size), p, p.len()) == g1_scaled(
            g,
            poly_eval(p, secret),
        ),
{
    lemma_g1_combination(g, secret, size, p, p.len());
    lemma_power_sum_is_eval(p, secret);
}

/// Under a reference string made from `secret`, the commitment in G2 to a
/// polynomial is the generator times the polynomial's value at the secret.
pub proof fn lemma_commitment_is_value_g2(g: Seq<u8>, secret: nat, size: nat, p: Seq<nat>)
    requires
        g2_is_module(),
        g2_valid(g),
        is_elem(secret),
        is_poly(p),
        p.len() <= size,
    ensures
        g2_combination(g, g2_powers(g, secret, size), p, p.len()) == g2_scaled(
            g,
            poly_eval(p, secret),
        ),
{
    lemma_g2_combination(g, secret, size, p, p.len());
    lemma_power_sum_is_eval(p, secret);
}

/// The sum of `e[i] * c[i]` over `i < n`, in the field.
pub open spec fn dot_sum(e: Seq<nat>, c: Seq<nat>, n: nat) -> nat
    decreases n,
{
    if n == 0 {
        0
    } else {
        fadd(dot_sum(e, c, (n - 1) as nat), fmul(e[n - 1], c[n - 1]))
    }
}

/// A sum of products is a field element.
pub proof fn lemma_dot_sum_elem(e: Seq<nat>, c: Seq<nat>, n: nat)
    ensures
        is_elem(dot_sum(e, c, n)),
{
    if n > 0 {
        lemma_field_ops_cong(dot_sum(e, c, (n - 1) as nat), fmul(e[n - 1], c[n - 1]));
    }
}

/// A combination of multiples of one point is a multiple of that point:
/// where each element is `g` times a scalar, the combination is `g` times the
/// sum of those scalars times the coefficients.
pub proof fn lemma_g1_combination_of_multiples(
    g: Seq<u8>,
    base: Seq<u8>,
    elems: Seq<Seq<u8>>,
    e: Seq<nat>,
    c: Seq<nat>,
    n: nat,
)
    requires
        g1_is_module(),
        g1_valid(g),
        g1_scaled(base, 0) == g1_scaled(g, 0),
        is_poly(e),
        is_poly(c),
        n <= e.len(),
        n <= c.len(),
        n <= elems.len(),
        forall|i: int| 0 <= i < n ==> #[trigger] elems[i] == g1_scaled(g, e[i]),
    ensures
        g1_combination(base, elems, c, n) == g1_scaled(g, dot_sum(e, c, n)),
    decreases n,
{
    if n > 0 {
        lemma_g1_combination_of_multiples(g, base, elems, e, c, (n - 1) as nat);
        lemma_dot_sum_elem(e, c, (n - 1) as nat);
        lemma_field_ops_cong(e[n - 1], c[n - 1]);
        assert(elems[n - 1] == g1_scaled(g, e[n - 1]));
        assert(g1_scaled(g1_scaled(g, e[n - 1]), c[n - 1]) == g1_scaled(
            g,
            fmul(e[n - 1], c[n - 1]),
        ));
    }
}

/// A combination of multiples of one point of G2 is a multiple of that point.
pub proof fn lemma_g2_combination_of_multiples(
    g: Seq<u8>,
    base: Seq<u8>,
    elems: Seq<Seq<u8>>,
    e: Seq<nat>,
    c: Seq<nat>,
    n: nat,
)
    requires
        g2_is_module(),
        g2_valid(g),
        g2_scaled(base, 0) == g2_scaled(g, 0),
        is_poly(e),
        is_poly(c),
        n <= e.len(),
        n <= c.len(),
        n <= elems.len(),
        forall|i: int| 0 <= i < n ==> #[trigger] elems[i] == g2_scaled(g, e[i]),
    ensures
        g2_combination(base, elems, c, n) == g2_scaled(g, dot_sum(e, c, n)),
    decreases n,
{
    if n > 0 {
        lemma_g2_combination_of_multiples(g, base, elems, e, c, (n - 1) as nat);
        lemma_dot_sum_elem(e, c, (n - 1) as nat);
        lemma_field_ops_cong(e[n - 1], c[n - 1]);
        assert(elems[n - 1] == g2_scaled(g, e[n - 1]));
        assert(g2_scaled(g2_scaled(g, e[n - 1]), c[n - 1]) == g2_scaled(
            g,
            fmul(e[n - 1], c[n - 1]),
        ));
    }
}

/// The powers of `s` from the zeroth up to the `n - 1`-th.
pub open spec fn powers(s: nat, n: nat) -> Seq<nat> {
    Seq::new(n, |i: int| fpow(s, i as nat))
}

/// The sum of the powers times the coefficients, written as a sum of
/// products.
pub proof fn lemma_dot_sum_of_powers(s: nat, size: nat, p: Seq<nat>, n: nat)
    requires
        n <= size,
        n <= p.len(),
    ensures
        dot_sum(powers(s, size), p, n) == power_sum(p, s, n),
    decreases n,
{
    if n > 0 {
        lemma_dot_sum_of_powers(s, size, p, (n - 1) as nat);
    }
}

/// Under a reference string made from `secret`, and starting from any point
/// whose zero multiple is the generator's, the commitment to a polynomial is
/// the generator times the polynomial's value at the secret.
pub proof fn lemma_commitment_from(g: Seq<u8>, base: Seq<u8>, secret: nat, size: nat, p: Seq<nat>)
    requires
        g1_is_module(),
        g1_valid(g),
        g1_scaled(base, 0) == g1_scaled(g, 0),
        is_elem(secret),
        is_poly(p),
        p.len() <= size,
    ensures
        g1_combination(base, g1_powers(g, secret, size), p, p.len()) == g1_scaled(
            g,
            poly_eval(p, secret),
        ),
{
    let e = powers(secret, size);
    assert forall|i: int| 0 <= i < e.len() implies is_elem(#[trigger] e[i]) by {
        lemma_fpow_cong(secret, i as nat);
    }
    lemma_g1_combination_of_multiples(g, base, g1_powers(g, secret, size), e, p, p.len());
    lemma_dot_sum_of_powers(secret, size, p, p.len());
    lemma_power_sum_is_eval(p, secret);
}

/// Under a reference string made from `secret`, and starting from any point
/// whose zero multiple is the generator's, the commitment in G2 to a
/// polynomial is the generator times the polynomial's value at the secret.
pub proof fn lemma_commitment_from_g2(
    g: Seq<u8>,
    base: Seq<u8>,
    secret: nat,
    size: nat,
    p: Seq<nat>,
)
    requires
        g2_is_module(),
        g2_valid(g),
        g2_scaled(base, 0) == g2_scaled(g, 0),
        is_elem(secret),
        is_poly(p),
        p.len() <= size,
    ensures
        g2_combination(base, g2_powers(g, secret, size), p, p.len()) == g2_scaled(
            g,
            poly_eval(p, secret),
        ),
{
    let e = powers(secret, size);
    assert forall|i: int| 0 <= i < e.len() implies is_elem(#[trigger] e[i]) by {
        lemma_fpow_cong(secret, i as nat);
    }
    lemma_g2_combination_of_multiples(g, base, g2_powers(g, secret, size), e, p, p.len());
    lemma_dot_sum_of_powers(secret, size, p, p.len());
    lemma_power_sum_is_eval(p, secret);
}

} // verus!
