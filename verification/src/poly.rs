//! Polynomials over the scalar field as sequences of coefficients, lowest
//! degree first: what the operations on them mean.

use vstd::prelude::*;
use crate::scalar::{
    fadd, finv, fmul, fsub, invertible, is_elem, lemma_fadd_elem, Scalar, two_adic_root,
};
use vstd::arithmetic::power2::{lemma_pow2_pos, lemma_pow2_unfold, pow2};

verus! {

/// The numbers that a sequence of scalars stands for.
pub open spec fn values(v: Seq<Scalar>) -> Seq<nat> {
    Seq::new(v.len(), |i: int| v[i]@)
}

/// Every scalar of the sequence is below the modulus.
pub open spec fn all_wf(v: Seq<Scalar>) -> bool {
    forall|i: int| 0 <= i < v.len() ==> (#[trigger] v[i]).wf()
}

/// Every coefficient is a field element.
pub open spec fn is_poly(p: Seq<nat>) -> bool {
    forall|i: int| 0 <= i < p.len() ==> is_elem(#[trigger] p[i])
}

/// The coefficient of degree `k`, zero beyond the sequence.
pub open spec fn coeff(p: Seq<nat>, k: int) -> nat {
    if 0 <= k < p.len() {
        p[k]
    } else {
        0
    }
}

/// `n` zero coefficients.
pub open spec fn zeros(n: nat) -> Seq<nat> {
    Seq::new(n, |i: int| 0nat)
}

/// The larger of two lengths.
pub open spec fn longer(a: nat, b: nat) -> nat {
    if a >= b {
        a
    } else {
        b
    }
}

/// Coefficient-wise sum, as long as the longer operand.
pub open spec fn poly_add(p: Seq<nat>, q: Seq<nat>) -> Seq<nat> {
    Seq::new(longer(p.len(), q.len()), |k: int| fadd(coeff(p, k), coeff(q, k)))
}

/// Coefficient-wise difference, as long as the longer operand.
pub open spec fn poly_sub(p: Seq<nat>, q: Seq<nat>) -> Seq<nat> {
    Seq::new(longer(p.len(), q.len()), |k: int| fsub(coeff(p, k), coeff(q, k)))
}

/// Every coefficient multiplied by `c`.
pub open spec fn poly_scale(p: Seq<nat>, c: nat) -> Seq<nat> {
    Seq::new(p.len(), |k: int| fmul(p[k], c))
}

/// The sum of `p[i] * q[k - i]` over `i < n`: the part of the product's
/// coefficient of degree `k` that the first `n` coefficients of `p` give.
pub open spec fn conv_sum(p: Seq<nat>, q: Seq<nat>, k: int, n: nat) -> nat
    decreases n,
{
    if n == 0 {
        0
    } else {
        fadd(conv_sum(p, q, k, (n - 1) as nat), fmul(coeff(p, n - 1), coeff(q, k - (n - 1))))
    }
}

/// The length of a product: one less than the sum of the lengths, and nothing
/// for two empty operands.
pub open spec fn product_len(a: nat, b: nat) -> nat {
    if a + b == 0 {
        0
    } else {
        (a + b - 1) as nat
    }
}

/// The product by full convolution.
pub open spec fn poly_mul(p: Seq<nat>, q: Seq<nat>) -> Seq<nat> {
    Seq::new(product_len(p.len(), q.len()), |k: int| conv_sum(p, q, k, p.len()))
}

/// The value at `x` of the part of `p` from degree `i` up, divided by `x^i`.
pub open spec fn eval_from(p: Seq<nat>, x: nat, i: nat) -> nat
    decreases p.len() - i,
{
    if i >= p.len() {
        0
    } else {
        fadd(p[i as int], fmul(x, eval_from(p, x, i + 1)))
    }
}

/// The value of `p` at `x`.
pub open spec fn poly_eval(p: Seq<nat>, x: nat) -> nat {
    eval_from(p, x, 0)
}

/// Every coefficient is zero; so it is of the empty polynomial.
pub open spec fn is_zero_poly(p: Seq<nat>) -> bool {
    forall|i: int| 0 <= i < p.len() ==> #[trigger] p[i] == 0
}

/// Among the first `n` coefficients, how many there are up to the last one
/// that is not zero.
pub open spec fn trimmed_len(p: Seq<nat>, n: nat) -> nat
    decreases n,
{
    if n == 0 {
        0
    } else if coeff(p, n - 1) != 0 {
        n
    } else {
        trimmed_len(p, (n - 1) as nat)
    }
}

/// The number of coefficients without the trailing zeros: the degree plus one,
/// and zero for the zero polynomial.
pub open spec fn effective_len(p: Seq<nat>) -> nat {
    trimmed_len(p, p.len())
}

/// `rem` less `c * X^pos` times the first `dl` coefficients of `den`.
pub open spec fn div_step(rem: Seq<nat>, den: Seq<nat>, dl: nat, c: nat, pos: int) -> Seq<nat> {
    Seq::new(
        rem.len(),
        |k: int|
            if pos <= k < pos + dl {
                fsub(rem[k], fmul(den[k - pos], c))
            } else {
                rem[k]
            },
    )
}

/// The quotient's coefficient of degree `pos`: the running remainder's
/// coefficient of degree `pos + dl - 1`, divided by the leading coefficient of
/// the denominator.
pub open spec fn div_coeff(rem: Seq<nat>, den: Seq<nat>, pos: int) -> nat {
    let dl = effective_len(den);
    fmul(rem[pos + dl - 1], finv(den[dl - 1]))
}

/// What is left of `num` after `steps` steps of long division by `den`, which
/// work from the highest degree of the quotient down.
pub open spec fn div_rem(num: Seq<nat>, den: Seq<nat>, steps: nat) -> Seq<nat>
    decreases steps,
{
    if steps == 0 {
        num
    } else {
        let prev = div_rem(num, den, (steps - 1) as nat);
        let dl = effective_len(den);
        let pos = num.len() - dl - (steps - 1);
        div_step(prev, den, dl, div_coeff(prev, den, pos), pos)
    }
}

/// The quotient of long division of `num` by a `den` that is not zero. It has
/// `num.len() - effective_len(den) + 1` coefficients; where `num` is shorter
/// than that, it is the one coefficient zero.
pub open spec fn poly_div(num: Seq<nat>, den: Seq<nat>) -> Seq<nat> {
    let dl = effective_len(den);
    if num.len() < dl {
        seq![0nat]
    } else {
        Seq::new(
            (num.len() - dl + 1) as nat,
            |pos: int| div_coeff(div_rem(num, den, (num.len() - dl - pos) as nat), den, pos),
        )
    }
}

/// What long division of `num` by `den` leaves: `num` less the quotient times
/// `den`.
pub open spec fn poly_rem(num: Seq<nat>, den: Seq<nat>) -> Seq<nat> {
    let dl = effective_len(den);
    if num.len() < dl {
        num
    } else {
        div_rem(num, den, (num.len() - dl + 1) as nat)
    }
}

/// The trimmed length is within the range it was taken over; where it is not
/// zero, the coefficient it ends on is not zero and all later ones are.
pub proof fn lemma_trimmed_len(p: Seq<nat>, n: nat)
    requires
        n <= p.len(),
    ensures
        trimmed_len(p, n) <= n,
        trimmed_len(p, n) > 0 ==> p[trimmed_len(p, n) - 1] != 0,
        forall|i: int| trimmed_len(p, n) <= i < n ==> #[trigger] p[i] == 0,
    decreases n,
{
    if n > 0 && coeff(p, n - 1) == 0 {
        lemma_trimmed_len(p, (n - 1) as nat);
    }
}

/// A polynomial has effective length zero exactly if it is zero.
pub proof fn lemma_effective_len_zero(p: Seq<nat>)
    ensures
        effective_len(p) == 0 <==> is_zero_poly(p),
        effective_len(p) <= p.len(),
        effective_len(p) > 0 ==> p[effective_len(p) - 1] != 0,
{
    lemma_trimmed_len(p, p.len());
}

/// Long division keeps the length of what it divides.
pub proof fn lemma_div_rem_len(num: Seq<nat>, den: Seq<nat>, steps: nat)
    ensures
        div_rem(num, den, steps).len() == num.len(),
    decreases steps,
{
    if steps > 0 {
        lemma_div_rem_len(num, den, (steps - 1) as nat);
    }
}

/// The polynomial `X - a`.
pub open spec fn linear_factor(a: nat) -> Seq<nat> {
    seq![fsub(0, a), 1nat]
}

/// The product of `X - points[j]` over the `j` below `n`, but for `j == skip`.
pub open spec fn basis_numerator(points: Seq<nat>, skip: int, n: nat) -> Seq<nat>
    decreases n,
{
    if n == 0 {
        seq![1nat]
    } else if n - 1 == skip {
        basis_numerator(points, skip, (n - 1) as nat)
    } else {
        poly_mul(basis_numerator(points, skip, (n - 1) as nat), linear_factor(points[n - 1]))
    }
}

/// The product of `points[skip] - points[j]` over the `j` below `n`, but for
/// `j == skip`.
pub open spec fn basis_denominator(points: Seq<nat>, skip: int, n: nat) -> nat
    decreases n,
{
    if n == 0 {
        1
    } else if n - 1 == skip {
        basis_denominator(points, skip, (n - 1) as nat)
    } else {
        fmul(
            basis_denominator(points, skip, (n - 1) as nat),
            fsub(points[skip], points[n - 1]),
        )
    }
}

/// The position that a product of linear factors leaves out: the one given,
/// or one that no factor has.
pub open spec fn skip_index(skip: Option<usize>) -> int {
    match skip {
        Some(i) => i as int,
        None => -1,
    }
}

/// The polynomial with the roots `points`, each as often as it is listed, and
/// leading coefficient one.
pub open spec fn vanishing_poly(points: Seq<nat>) -> Seq<nat> {
    basis_numerator(points, -1, points.len())
}

/// The Lagrange basis polynomial of `points[i]`, times `vals[i]`.
pub open spec fn basis_term(points: Seq<nat>, vals: Seq<nat>, i: int) -> Seq<nat> {
    let numerator = basis_numerator(points, i, points.len());
    let inverse = finv(basis_denominator(points, i, points.len()));
    Seq::new(numerator.len(), |k: int| fmul(fmul(numerator[k], vals[i]), inverse))
}

/// The sum of the first `n` terms of the Lagrange interpolation.
pub open spec fn interpolation_sum(points: Seq<nat>, vals: Seq<nat>, n: nat) -> Seq<nat>
    decreases n,
{
    if n == 0 {
        zeros(points.len())
    } else {
        poly_add(
            interpolation_sum(points, vals, (n - 1) as nat),
            basis_term(points, vals, n - 1),
        )
    }
}

/// The Lagrange interpolation through `(points[i], vals[i])`: as many
/// coefficients as there are points.
pub open spec fn poly_interpolate(points: Seq<nat>, vals: Seq<nat>) -> Seq<nat> {
    interpolation_sum(points, vals, points.len())
}

/// Every point's differences from the others multiply to an element that
/// has an inverse. Where a point is listed twice they multiply to zero, which
/// has none.
pub open spec fn interpolable(points: Seq<nat>) -> bool {
    forall|i: int|
        0 <= i < points.len() ==> invertible(
            #[trigger] basis_denominator(points, i, points.len()),
        )
}

/// The least `r` with `x <= 2^r`.
pub open spec fn log2_ceil(x: nat) -> nat
    decreases x,
{
    if x <= 1 {
        0
    } else {
        1 + log2_ceil((x + 1) / 2)
    }
}

/// `a` squared `n` times over.
pub open spec fn squared_times(a: nat, n: nat) -> nat
    decreases n,
{
    if n == 0 {
        a
    } else {
        fmul(squared_times(a, (n - 1) as nat), squared_times(a, (n - 1) as nat))
    }
}

/// The root of unity for a domain of `size` points: the field's root of order
/// `2^32`, squared until its order is the least power of two that is not
/// below `size`. A `size` beyond `2^32` gets the root of order `2^32` itself.
pub open spec fn root_of_unity(size: nat) -> nat {
    let k = log2_ceil(size);
    squared_times(
        two_adic_root(),
        if k >= 32 {
            0
        } else {
            (32 - k) as nat
        },
    )
}

/// The number of coefficients of a product of linear factors.
pub proof fn lemma_basis_numerator_len(points: Seq<nat>, skip: int, n: nat)
    ensures
        basis_numerator(points, skip, n).len() == (if 0 <= skip < n {
            n
        } else {
            n + 1
        }),
    decreases n,
{
    if n > 0 {
        lemma_basis_numerator_len(points, skip, (n - 1) as nat);
    }
}

/// A number between two neighbouring powers of two has the higher one's
/// exponent as its rounded-up logarithm.
pub proof fn lemma_log2_ceil_is(x: nat, r: nat)
    requires
        x <= pow2(r),
        r > 0 ==> pow2((r - 1) as nat) < x,
    ensures
        log2_ceil(x) == r,
    decreases r,
{
    if r == 0 {
        assert(pow2(0) == 1) by {
            vstd::arithmetic::power2::lemma2_to64();
        }
    } else {
        lemma_pow2_pos((r - 1) as nat);
        lemma_pow2_unfold(r);
        if r > 1 {
            lemma_pow2_unfold((r - 1) as nat);
        }
        lemma_log2_ceil_is((x + 1) / 2, (r - 1) as nat);
    }
}

/// The length of an interpolation sum is the number of points.
pub proof fn lemma_interpolation_sum_len(points: Seq<nat>, vals: Seq<nat>, n: nat)
    requires
        n <= points.len(),
    ensures
        interpolation_sum(points, vals, n).len() == points.len(),
    decreases n,
{
    if n > 0 {
        lemma_interpolation_sum_len(points, vals, (n - 1) as nat);
        lemma_basis_numerator_len(points, n - 1, points.len());
    }
}

/// The values of `poly` at each of `points`.
pub open spec fn evaluations(poly: Seq<nat>, points: Seq<nat>) -> Seq<nat> {
    Seq::new(points.len(), |i: int| poly_eval(poly, points[i]))
}

/// A partial convolution sum is zero where each of its products has a zero
/// factor.
pub proof fn lemma_conv_sum_zero(p: Seq<nat>, q: Seq<nat>, k: int, n: nat)
    requires
        forall|i: int| 0 <= i < n ==> coeff(p, i) == 0 || coeff(q, k - i) == 0,
    ensures
        conv_sum(p, q, k, n) == 0,
    decreases n,
{
    if n > 0 {
        lemma_conv_sum_zero(p, q, k, (n - 1) as nat);
        let a = coeff(p, n - 1);
        let b = coeff(q, k - (n - 1));
        assert(a * b == 0) by (nonlinear_arith)
            requires
                a == 0 || b == 0,
        ;
    }
}

/// A product of linear factors has leading coefficient one.
pub proof fn lemma_basis_numerator_monic(points: Seq<nat>, skip: int, n: nat)
    ensures
        basis_numerator(points, skip, n).len() >= 1,
        basis_numerator(points, skip, n).last() == 1,
        effective_len(basis_numerator(points, skip, n)) == basis_numerator(points, skip, n).len(),
        !is_zero_poly(basis_numerator(points, skip, n)),
    decreases n,
{
    let b = basis_numerator(points, skip, n);
    if n > 0 {
        lemma_basis_numerator_monic(points, skip, (n - 1) as nat);
        if n - 1 != skip {
            let p = basis_numerator(points, skip, (n - 1) as nat);
            let q = linear_factor(points[n - 1]);
            let top = p.len() as int;
            lemma_conv_sum_zero(p, q, top, (p.len() - 1) as nat);
            assert(conv_sum(p, q, top, p.len()) == fadd(0, fmul(p[top - 1], q[1])));
            assert(1nat * 1nat == 1) by (nonlinear_arith);
            assert(b[top] == 1);
        }
    }
    assert(b[b.len() - 1] == 1);
    lemma_effective_len_zero(b);
}

/// `poly` less `value`: only the constant coefficient changes.
pub open spec fn opening_numerator(poly: Seq<nat>, value: nat) -> Seq<nat> {
    if poly.len() == 0 {
        poly
    } else {
        poly.update(0, fsub(poly[0], value))
    }
}

/// A partial convolution sum is a field element.
pub proof fn lemma_conv_sum_elem(p: Seq<nat>, q: Seq<nat>, k: int, n: nat)
    ensures
        is_elem(conv_sum(p, q, k, n)),
    decreases n,
{
    if n > 0 {
        lemma_fadd_elem(
            conv_sum(p, q, k, (n - 1) as nat),
            fmul(coeff(p, n - 1), coeff(q, k - (n - 1))),
        );
    }
}

} // verus!
