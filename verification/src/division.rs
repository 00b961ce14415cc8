//! Long division: the numerator is the quotient times the denominator plus a
//! remainder that is shorter than the denominator.

use vstd::prelude::*;
use crate::congruence::{
    cong, lemma_cong_add, lemma_cong_elems, lemma_cong_mul, lemma_cong_sub, lemma_field_ops_cong,
};
use crate::evaluation::{lemma_eval_add, lemma_eval_same_coeffs, same_coeffs};
use crate::poly::{
    coeff, conv_sum, div_coeff, div_rem, div_step, effective_len, is_poly, lemma_conv_sum_elem,
    lemma_conv_sum_zero, lemma_div_rem_len, lemma_effective_len_zero, lemma_trimmed_len,
    linear_factor, poly_add, poly_div, poly_eval, poly_mul, poly_rem,
};
use crate::scalar::{
    fadd, finv, fmul, fsub, invertible, is_elem, lemma_finv, lemma_finv_is, lemma_identities,
};
use crate::sums::{iconv, lemma_conv_sum_cong, lemma_eval_mul};
use vstd::arithmetic::mul::{
    lemma_mul_is_associative, lemma_mul_is_distributive_add,
    lemma_mul_is_distributive_add_other_way,
};

verus! {

/// The coefficient that leads a polynomial: the last one that is not zero.
pub open spec fn leading_coeff(p: Seq<nat>) -> nat {
    p[effective_len(p) - 1]
}

/// A denominator that long division can work with: it is not zero and its
/// leading coefficient has an inverse.
pub open spec fn divisible_by(den: Seq<nat>) -> bool {
    &&& is_poly(den)
    &&& effective_len(den) >= 1
    &&& invertible(leading_coeff(den))
}

/// The sum of `q[j] * d[k - j]` over the `j` from `lo` up.
pub open spec fn iconv_from(q: Seq<nat>, d: Seq<nat>, k: int, lo: nat) -> int
    decreases q.len() - lo,
{
    if lo >= q.len() {
        0
    } else {
        coeff(q, lo as int) * coeff(d, k - lo) + iconv_from(q, d, k, lo + 1)
    }
}

/// The sum from `lo` up and the sum below `lo` make the whole sum.
pub proof fn lemma_iconv_split(q: Seq<nat>, d: Seq<nat>, k: int, lo: nat)
    requires
        lo <= q.len(),
    ensures
        iconv(q, d, k, lo) + iconv_from(q, d, k, lo) == iconv(q, d, k, q.len()),
    decreases q.len() - lo,
{
    if lo < q.len() {
        lemma_iconv_split(q, d, k, lo + 1);
    }
}

/// The denominator has no coefficient at or beyond its effective length.
pub proof fn lemma_coeff_beyond_effective(den: Seq<nat>, i: int)
    requires
        i < 0 || i >= effective_len(den),
    ensures
        coeff(den, i) == 0,
{
    lemma_trimmed_len(den, den.len());
}

/// Dividing by the leading coefficient and multiplying by it again gives the
/// same element.
pub proof fn lemma_divide_and_multiply(lead: nat, r: nat)
    requires
        invertible(lead),
        is_elem(r),
    ensures
        fmul(lead, fmul(r, finv(lead))) == r,
{
    let linv = finv(lead);
    lemma_finv(lead);
    lemma_field_ops_cong(r, linv);
    lemma_field_ops_cong(lead, fmul(r, linv));
    lemma_field_ops_cong(lead, linv);
    lemma_cong_mul(lead as int, lead as int, fmul(r, linv) as int, r as int * linv as int);
    lemma_cong_mul(r as int, r as int, lead as int * linv as int, 1);
    assert(lead as int * (r as int * linv as int) == r as int * (lead as int * linv as int))
        by (nonlinear_arith);
    assert(r as int * 1 == r as int) by (nonlinear_arith);
    lemma_cong_elems(fmul(lead, fmul(r, linv)), r);
}

/// What holds after `t` steps of long division: the running remainder is a
/// polynomial as long as the numerator, it is zero from the degree on that
/// the last step cleared, and the numerator is that remainder plus the
/// quotient's coefficients found so far times the denominator.
pub proof fn lemma_div_steps(num: Seq<nat>, den: Seq<nat>, t: nat)
    requires
        is_poly(num),
        divisible_by(den),
        num.len() >= effective_len(den),
        t <= num.len() - effective_len(den) + 1,
    ensures
        is_poly(div_rem(num, den, t)),
        div_rem(num, den, t).len() == num.len(),
        forall|k: int|
            num.len() - t <= k < num.len() ==> #[trigger] div_rem(num, den, t)[k] == 0,
        forall|k: int|
            0 <= k < num.len() ==> cong(
                #[trigger] num[k] as int,
                div_rem(num, den, t)[k] + iconv_from(
                    poly_div(num, den),
                    den,
                    k,
                    (num.len() - effective_len(den) + 1 - t) as nat,
                ),
            ),
    decreases t,
{
    let dl = effective_len(den);
    let n = num.len();
    let top = n - dl;
    let quot = poly_div(num, den);
    let rem = div_rem(num, den, t);
    lemma_div_rem_len(num, den, t);
    lemma_effective_len_zero(den);
    if t == 0 {
        assert forall|k: int| 0 <= k < n implies cong(
            #[trigger] num[k] as int,
            rem[k] + iconv_from(quot, den, k, (top + 1) as nat),
        ) by {}
    } else {
        lemma_div_steps(num, den, (t - 1) as nat);
        let prev = div_rem(num, den, (t - 1) as nat);
        let pos = top - (t - 1);
        let c = div_coeff(prev, den, pos);
        let lead = den[dl - 1];
        assert(rem == div_step(prev, den, dl, c, pos));
        assert(quot[pos] == c);
        lemma_field_ops_cong(prev[pos + dl - 1], finv(lead));
        assert(is_elem(c));
        assert forall|k: int| 0 <= k < n implies is_elem(#[trigger] rem[k]) by {
            if pos <= k < pos + dl {
                lemma_field_ops_cong(den[k - pos], c);
                lemma_field_ops_cong(prev[k], fmul(den[k - pos], c));
            }
        }
        assert forall|k: int| n - t <= k < n implies #[trigger] rem[k] == 0 by {
            if k == pos + dl - 1 {
                lemma_divide_and_multiply(lead, prev[k]);
                lemma_identities(prev[k]);
            } else {
                assert(prev[k] == 0);
            }
        }
        assert forall|k: int| 0 <= k < n implies cong(
            #[trigger] num[k] as int,
            rem[k] + iconv_from(quot, den, k, pos as nat),
        ) by {
            let rest = iconv_from(quot, den, k, (pos + 1) as nat);
            assert(cong(num[k] as int, prev[k] + rest));
            assert(iconv_from(quot, den, k, pos as nat) == c * coeff(den, k - pos) + rest);
            if pos <= k < pos + dl {
                let d = den[k - pos];
                lemma_field_ops_cong(d, c);
                lemma_field_ops_cong(prev[k], fmul(d, c));
                // rem[k] = prev[k] - d * c, so prev[k] = rem[k] + c * d
                lemma_cong_sub(
                    prev[k] as int,
                    prev[k] as int,
                    fmul(d, c) as int,
                    d as int * c as int,
                );
                assert(cong(rem[k] as int, prev[k] as int - d as int * c as int));
                lemma_cong_add(
                    rem[k] as int,
                    prev[k] as int - d as int * c as int,
                    c as int * d as int + rest,
                    c as int * d as int + rest,
                );
                assert(prev[k] as int - d as int * c as int + (c as int * d as int + rest)
                    == prev[k] + rest) by (nonlinear_arith);
            } else {
                lemma_coeff_beyond_effective(den, k - pos);
                assert(c * coeff(den, k - pos) == 0) by (nonlinear_arith)
                    requires
                        coeff(den, k - pos) == 0,
                ;
            }
        }
    }
}

/// Long division: the numerator is the remainder plus the quotient times the
/// denominator, coefficient by coefficient, and the remainder is zero from the
/// denominator's degree on.
pub proof fn lemma_division(num: Seq<nat>, den: Seq<nat>)
    requires
        is_poly(num),
        divisible_by(den),
    ensures
        is_poly(poly_div(num, den)),
        is_poly(poly_rem(num, den)),
        poly_rem(num, den).len() == num.len(),
        forall|k: int|
            0 <= k < num.len() ==> #[trigger] num[k] == fadd(
                poly_rem(num, den)[k],
                coeff(poly_mul(poly_div(num, den), den), k),
            ),
        forall|k: int|
            effective_len(den) - 1 <= k < num.len() ==> #[trigger] poly_rem(num, den)[k] == 0,
        same_coeffs(num, poly_add(poly_rem(num, den), poly_mul(poly_div(num, den), den))),
{
    let dl = effective_len(den);
    let n = num.len();
    let quot = poly_div(num, den);
    let rem = poly_rem(num, den);
    let prod = poly_mul(quot, den);
    lemma_effective_len_zero(den);
    if n < dl {
        assert forall|k: int| 0 <= k implies coeff(prod, k) == 0 by {
            if k < prod.len() {
                lemma_conv_sum_zero(quot, den, k, quot.len());
            }
        }
        assert forall|k: int| 0 <= k < n implies #[trigger] num[k] == fadd(
            rem[k],
            coeff(prod, k),
        ) by {
            lemma_identities(num[k]);
        }
    } else {
        let top = n - dl;
        lemma_div_steps(num, den, (top + 1) as nat);
        assert forall|j: int| 0 <= j < quot.len() implies is_elem(#[trigger] quot[j]) by {
            let r = div_rem(num, den, (top - j) as nat);
            lemma_field_ops_cong(r[j + dl - 1], finv(den[dl - 1]));
        }
        assert forall|k: int| 0 <= k < n implies #[trigger] num[k] == fadd(
            rem[k],
            coeff(prod, k),
        ) by {
            lemma_iconv_split(quot, den, k, 0);
            lemma_conv_sum_cong(quot, den, k, quot.len());
            assert(coeff(prod, k) == conv_sum(quot, den, k, quot.len()));
            lemma_field_ops_cong(rem[k], coeff(prod, k));
            lemma_cong_add(
                rem[k] as int,
                rem[k] as int,
                coeff(prod, k) as int,
                iconv(quot, den, k, quot.len()),
            );
            lemma_cong_elems(num[k], fadd(rem[k], coeff(prod, k)));
        }
    }
    let sum = poly_add(rem, prod);
    assert forall|k: int| 0 <= k implies coeff(num, k) == coeff(sum, k) by {
        if k >= n {
            if k < prod.len() {
                assert forall|j: int| 0 <= j < quot.len() implies coeff(quot, j) == 0 || coeff(
                    den,
                    k - j,
                ) == 0 by {
                    if n >= dl {
                        lemma_coeff_beyond_effective(den, k - j);
                    }
                }
                lemma_conv_sum_zero(quot, den, k, quot.len());
            }
            assert(coeff(prod, k) == 0);
        }
    }
}

/// Long division at a point: the numerator's value is the remainder's plus
/// the quotient's times the denominator's.
pub proof fn lemma_division_eval(num: Seq<nat>, den: Seq<nat>, x: nat)
    requires
        is_poly(num),
        divisible_by(den),
    ensures
        poly_eval(num, x) == fadd(
            poly_eval(poly_rem(num, den), x),
            fmul(poly_eval(poly_div(num, den), x), poly_eval(den, x)),
        ),
{
    let quot = poly_div(num, den);
    let rem = poly_rem(num, den);
    lemma_division(num, den);
    lemma_eval_same_coeffs(num, poly_add(rem, poly_mul(quot, den)), x);
    lemma_eval_add(rem, poly_mul(quot, den), x);
    lemma_eval_mul(quot, den, x);
}

/// Where the coefficients of `r` are those of `a * p + b * q2` up to
/// congruence, so are its convolution sums with `d`.
pub proof fn lemma_iconv_linear(
    r: Seq<nat>,
    p: Seq<nat>,
    q2: Seq<nat>,
    a: int,
    b: int,
    d: Seq<nat>,
    k: int,
    n: nat,
)
    requires
        forall|i: int| 0 <= i < n ==> cong(coeff(r, i) as int, a * coeff(p, i) + b * coeff(q2, i)),
    ensures
        cong(iconv(r, d, k, n), a * iconv(p, d, k, n) + b * iconv(q2, d, k, n)),
    decreases n,
{
    if n > 0 {
        lemma_iconv_linear(r, p, q2, a, b, d, k, (n - 1) as nat);
        let i = n - 1;
        let cr = coeff(r, i) as int;
        let cp = coeff(p, i) as int;
        let cq = coeff(q2, i) as int;
        let cd = coeff(d, k - i) as int;
        lemma_cong_mul(cr, a * cp + b * cq, cd, cd);
        let sp = iconv(p, d, k, (n - 1) as nat);
        let sq = iconv(q2, d, k, (n - 1) as nat);
        lemma_cong_add(iconv(r, d, k, (n - 1) as nat), a * sp + b * sq, cr * cd, (a * cp + b * cq) * cd);
        lemma_mul_is_distributive_add_other_way(cd, a * cp, b * cq);
        lemma_mul_is_associative(a, cp, cd);
        lemma_mul_is_associative(b, cq, cd);
        lemma_mul_is_distributive_add(a, sp, cp * cd);
        lemma_mul_is_distributive_add(b, sq, cq * cd);
    }
}

/// Beyond a polynomial's length its convolution sums no longer grow.
pub proof fn lemma_iconv_beyond(p: Seq<nat>, d: Seq<nat>, k: int, n: nat)
    requires
        n >= p.len(),
    ensures
        iconv(p, d, k, n) == iconv(p, d, k, p.len()),
    decreases n,
{
    if n > p.len() {
        lemma_iconv_beyond(p, d, k, (n - 1) as nat);
        assert(0 * coeff(d, k - (n - 1)) == 0) by (nonlinear_arith);
    }
}

/// A convolution sum of which all products but one have a zero factor is
/// that one product.
pub proof fn lemma_iconv_single(p: Seq<nat>, d: Seq<nat>, k: int, n: nat, j: int)
    requires
        forall|i: int| 0 <= i < n && i != j ==> coeff(p, i) == 0 || coeff(d, k - i) == 0,
    ensures
        iconv(p, d, k, n) == (if 0 <= j < n {
            coeff(p, j) * coeff(d, k - j)
        } else {
            0
        }),
    decreases n,
{
    if n > 0 {
        lemma_iconv_single(p, d, k, (n - 1) as nat, j);
        let a = coeff(p, n - 1) as int;
        let b = coeff(d, k - (n - 1)) as int;
        if n - 1 != j {
            assert(a * b == 0) by (nonlinear_arith)
                requires
                    a == 0 || b == 0,
            ;
        }
    }
}

/// A polynomial whose product with `den` has no coefficient from the degree
/// of `den` on is zero from `j` on.
proof fn lemma_product_short(diff: Seq<nat>, den: Seq<nat>, j: nat)
    requires
        is_poly(diff),
        divisible_by(den),
        j <= diff.len(),
        forall|k: int|
            effective_len(den) - 1 <= k < diff.len() + effective_len(den) - 1 ==> cong(
                #[trigger] iconv(diff, den, k, diff.len()),
                0,
            ),
    ensures
        forall|i: int| j <= i < diff.len() ==> #[trigger] diff[i] == 0,
    decreases diff.len() - j,
{
    if j < diff.len() {
        lemma_product_short(diff, den, j + 1);
        let dl = effective_len(den);
        let lead = leading_coeff(den);
        let linv = finv(lead);
        let k = j + dl - 1;
        lemma_effective_len_zero(den);
        assert forall|i: int| 0 <= i < diff.len() && i != j implies coeff(diff, i) == 0 || coeff(
            den,
            k - i,
        ) == 0 by {
            if i < j {
                lemma_coeff_beyond_effective(den, k - i);
            }
        }
        lemma_iconv_single(diff, den, k, diff.len(), j as int);
        let x = diff[j as int];
        assert(cong(iconv(diff, den, k, diff.len()), 0));
        assert(cong(x as int * lead as int, 0));
        // x = x * (lead * linv) = (x * lead) * linv = 0
        lemma_finv(lead);
        lemma_field_ops_cong(lead, linv);
        lemma_cong_mul(x as int * lead as int, 0, linv as int, linv as int);
        lemma_cong_mul(x as int, x as int, lead as int * linv as int, 1);
        assert(x as int * (lead as int * linv as int) == (x as int * lead as int) * linv as int)
            by (nonlinear_arith);
        assert(0 * linv as int == 0) by (nonlinear_arith);
        assert(x as int * 1 == x as int) by (nonlinear_arith);
        lemma_cong_elems(x, 0);
    }
}

/// The quotient is the only polynomial of its length that leaves a remainder
/// shorter than the denominator: where `num` is `quot * den + rem` and `rem`
/// is zero from the degree of `den` on, `quot` is what long division gives.
pub proof fn lemma_quotient_unique(num: Seq<nat>, den: Seq<nat>, quot: Seq<nat>, rem: Seq<nat>)
    requires
        is_poly(num),
        is_poly(quot),
        is_poly(rem),
        divisible_by(den),
        num.len() >= effective_len(den),
        quot.len() == num.len() - effective_len(den) + 1,
        forall|k: int|
            0 <= k < num.len() ==> #[trigger] num[k] == fadd(
                coeff(rem, k),
                coeff(poly_mul(quot, den), k),
            ),
        forall|k: int| effective_len(den) - 1 <= k < num.len() ==> coeff(rem, k) == 0,
    ensures
        poly_div(num, den) == quot,
{
    let dl = effective_len(den);
    let n = num.len();
    let found = poly_div(num, den);
    let left = poly_rem(num, den);
    lemma_division(num, den);
    lemma_effective_len_zero(den);
    let diff = Seq::new(quot.len(), |j: int| fsub(quot[j], found[j]));
    assert forall|j: int| 0 <= j < diff.len() implies is_elem(#[trigger] diff[j]) by {
        lemma_field_ops_cong(quot[j], found[j]);
    }
    assert forall|k: int| dl - 1 <= k < diff.len() + dl - 1 implies cong(
        #[trigger] iconv(diff, den, k, diff.len()),
        0,
    ) by {
        assert forall|i: int| 0 <= i < diff.len() implies cong(
            coeff(diff, i) as int,
            1int * coeff(quot, i) + (-1int) * coeff(found, i),
        ) by {
            lemma_field_ops_cong(quot[i], found[i]);
        }
        lemma_iconv_linear(diff, quot, found, 1, -1, den, k, diff.len());
        lemma_conv_sum_cong(quot, den, k, quot.len());
        lemma_conv_sum_cong(found, den, k, found.len());
        let a = coeff(poly_mul(quot, den), k);
        let b = coeff(poly_mul(found, den), k);
        assert(a == conv_sum(quot, den, k, quot.len()));
        assert(b == conv_sum(found, den, k, found.len()));
        assert(num[k] == fadd(coeff(rem, k), a));
        assert(num[k] == fadd(left[k], b));
        assert(coeff(rem, k) == 0);
        assert(left[k] == 0);
        lemma_conv_sum_elem(quot, den, k, quot.len());
        lemma_conv_sum_elem(found, den, k, found.len());
        lemma_identities(a);
        lemma_identities(b);
        assert(a == b);
        let x = iconv(quot, den, k, quot.len());
        let y = iconv(found, den, k, found.len());
        assert(cong(x, y));
        lemma_cong_sub(x, y, y, y);
    }
    lemma_product_short(diff, den, 0);
    assert forall|j: int| 0 <= j < quot.len() implies found[j] == quot[j] by {
        assert(diff[j] == 0);
        lemma_field_ops_cong(quot[j], found[j]);
        lemma_cong_sub(quot[j] as int, quot[j] as int, 0, fsub(quot[j], found[j]) as int);
        lemma_cong_elems(quot[j], found[j]);
    }
    assert(found =~= quot);
}

/// A product is a polynomial.
pub proof fn lemma_mul_is_poly(p: Seq<nat>, q: Seq<nat>)
    ensures
        is_poly(poly_mul(p, q)),
{
    assert forall|k: int| 0 <= k < poly_mul(p, q).len() implies is_elem(
        #[trigger] poly_mul(p, q)[k],
    ) by {
        lemma_conv_sum_elem(p, q, k, p.len());
    }
}

/// Convolution sums look at coefficients only: trailing zeros do not change
/// them.
pub proof fn lemma_conv_sum_same_coeffs(p: Seq<nat>, p2: Seq<nat>, q: Seq<nat>, k: int)
    requires
        same_coeffs(p, p2),
    ensures
        conv_sum(p, q, k, p.len()) == conv_sum(p2, q, k, p2.len()),
{
    let n = if p.len() >= p2.len() {
        p.len()
    } else {
        p2.len()
    };
    lemma_iconv_linear(p, p2, p2, 1, 0, q, k, n);
    lemma_iconv_beyond(p, q, k, n);
    lemma_iconv_beyond(p2, q, k, n);
    lemma_conv_sum_cong(p, q, k, p.len());
    lemma_conv_sum_cong(p2, q, k, p2.len());
    lemma_conv_sum_elem(p, q, k, p.len());
    lemma_conv_sum_elem(p2, q, k, p2.len());
    lemma_cong_elems(conv_sum(p, q, k, p.len()), conv_sum(p2, q, k, p2.len()));
}

/// `X - a` can be divided by: its leading coefficient is one.
pub proof fn lemma_linear_divisible(a: nat)
    ensures
        divisible_by(linear_factor(a)),
        effective_len(linear_factor(a)) == 2,
        is_poly(linear_factor(a)),
{
    let den = linear_factor(a);
    lemma_field_ops_cong(0, a);
    assert(den[1] == 1);
    lemma_effective_len_zero(den);
    assert(1nat * 1nat == 1) by (nonlinear_arith);
    lemma_finv_is(1, 1);
}

} // verus!
