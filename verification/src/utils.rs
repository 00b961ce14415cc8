//! Arithmetic on polynomials given by their coefficients.

use vstd::prelude::*;
use crate::error::Error;
use crate::poly::{
    all_wf, basis_denominator, basis_numerator, basis_term, coeff, conv_sum, div_coeff, div_rem,
    div_step, effective_len, eval_from, interpolable, interpolation_sum, is_zero_poly,
    lemma_basis_numerator_len, lemma_conv_sum_elem, lemma_effective_len_zero, lemma_log2_ceil_is,
    linear_factor, log2_ceil, longer, poly_add, poly_div, poly_eval, poly_interpolate, poly_mul,
    poly_scale, poly_sub, product_len, root_of_unity, skip_index, squared_times, trimmed_len,
    values, zeros,
};
use crate::scalar::{
    fadd, finv, fmul, fpow, fr_two_adic_root, fsub, invertible, lemma_fadd_comm, lemma_finv_is,
    lemma_fmul_comm, lemma_identities, lemma_zero_not_invertible, modulus, Scalar, two_adic_root,
    TWO_ADICITY,
};
use crate::unity::law_root_of_unity_order;
use vstd::pervasive::unreached;
use vstd::arithmetic::power2::pow2;

verus! {

/// A vector of `n` zeros.
pub fn zero_vector(n: usize) -> (r: Vec<Scalar>)
    ensures
        all_wf(r@),
        r@.len() == n,
        forall|j: int| 0 <= j < n ==> (#[trigger] r@[j])@ == 0,
        values(r@) == zeros(n as nat),
{
    let mut r: Vec<Scalar> = Vec::new();
    let mut i: usize = 0;
    while i < n
        invariant
            i <= n,
            r@.len() == i,
            forall|j: int| 0 <= j < i ==> (#[trigger] r@[j])@ == 0,
        decreases n - i,
    {
        r.push(Scalar::zero());
        i += 1;
    }
    assert(values(r@) =~= zeros(n as nat));
    r
}

/// The coefficient of degree `k`, zero beyond the polynomial.
fn coeff_at(p: &[Scalar], k: usize) -> (r: Scalar)
    requires
        all_wf(p@),
    ensures
        r.wf(),
        r@ == coeff(values(p@), k as int),
{
    if k < p.len() {
        p[k]
    } else {
        Scalar::zero()
    }
}

/// The sum of two polynomials.
pub fn add(p1: &[Scalar], p2: &[Scalar]) -> (r: Vec<Scalar>)
    requires
        all_wf(p1@),
        all_wf(p2@),
    ensures
        all_wf(r@),
        values(r@) == poly_add(values(p1@), values(p2@)),
{
    let n = if p1.len() >= p2.len() { p1.len() } else { p2.len() };
    let mut r: Vec<Scalar> = Vec::new();
    let mut k: usize = 0;
    while k < n
        invariant
            k <= n,
            n == longer(p1@.len(), p2@.len()),
            all_wf(p1@),
            all_wf(p2@),
            all_wf(r@),
            r@.len() == k,
            forall|j: int|
                0 <= j < k ==> (#[trigger] r@[j])@ == fadd(
                    coeff(values(p1@), j),
                    coeff(values(p2@), j),
                ),
        decreases n - k,
    {
        let a = coeff_at(p1, k);
        let b = coeff_at(p2, k);
        r.push(a.add(&b));
        k += 1;
    }
    assert(values(r@) =~= poly_add(values(p1@), values(p2@)));
    r
}

/// The difference of two polynomials.
pub fn sub(p1: &[Scalar], p2: &[Scalar]) -> (r: Vec<Scalar>)
    requires
        all_wf(p1@),
        all_wf(p2@),
    ensures
        all_wf(r@),
        values(r@) == poly_sub(values(p1@), values(p2@)),
{
    let n = if p1.len() >= p2.len() { p1.len() } else { p2.len() };
    let mut r: Vec<Scalar> = Vec::new();
    let mut k: usize = 0;
    while k < n
        invariant
            k <= n,
            n == longer(p1@.len(), p2@.len()),
            all_wf(p1@),
            all_wf(p2@),
            all_wf(r@),
            r@.len() == k,
            forall|j: int|
                0 <= j < k ==> (#[trigger] r@[j])@ == fsub(
                    coeff(values(p1@), j),
                    coeff(values(p2@), j),
                ),
        decreases n - k,
    {
        let a = coeff_at(p1, k);
        let b = coeff_at(p2, k);
        r.push(a.sub(&b));
        k += 1;
    }
    assert(values(r@) =~= poly_sub(values(p1@), values(p2@)));
    r
}

/// A polynomial with every coefficient multiplied by one scalar.
pub fn scalar_mul(p: &[Scalar], c: Scalar) -> (r: Vec<Scalar>)
    requires
        all_wf(p@),
        c.wf(),
    ensures
        all_wf(r@),
        values(r@) == poly_scale(values(p@), c@),
{
    let mut r: Vec<Scalar> = Vec::new();
    let mut k: usize = 0;
    while k < p.len()
        invariant
            k <= p@.len(),
            all_wf(p@),
            c.wf(),
            all_wf(r@),
            r@.len() == k,
            forall|j: int| 0 <= j < k ==> (#[trigger] r@[j])@ == fmul(p@[j]@, c@),
        decreases p@.len() - k,
    {
        r.push(p[k].mul(&c));
        k += 1;
    }
    assert(values(r@) =~= poly_scale(values(p@), c@));
    r
}

/// The product of two polynomials.
pub fn mul(p1: &[Scalar], p2: &[Scalar]) -> (r: Vec<Scalar>)
    requires
        all_wf(p1@),
        all_wf(p2@),
        product_len(p1@.len(), p2@.len()) <= usize::MAX,
    ensures
        all_wf(r@),
        values(r@) == poly_mul(values(p1@), values(p2@)),
{
    if p1.len() == 0 && p2.len() == 0 {
        let r: Vec<Scalar> = Vec::new();
        assert(values(r@) =~= poly_mul(values(p1@), values(p2@)));
        return r;
    }
    let n = if p1.len() > 0 {
        p1.len() - 1 + p2.len()
    } else {
        p2.len() - 1
    };
    let mut result = zero_vector(n);
    let ghost p = values(p1@);
    let ghost q = values(p2@);
    let mut i: usize = 0;
    while i < p1.len()
        invariant
            i <= p1@.len(),
            n == p1@.len() + p2@.len() - 1,
            p == values(p1@),
            q == values(p2@),
            all_wf(p1@),
            all_wf(p2@),
            all_wf(result@),
            result@.len() == n,
            forall|k: int| 0 <= k < n ==> (#[trigger] result@[k])@ == conv_sum(p, q, k, i as nat),
        decreases p1@.len() - i,
    {
        let mut j: usize = 0;
        while j < p2.len()
            invariant
                i < p1@.len(),
                j <= p2@.len(),
                n == p1@.len() + p2@.len() - 1,
                p == values(p1@),
                q == values(p2@),
                all_wf(p1@),
                all_wf(p2@),
                all_wf(result@),
                result@.len() == n,
                forall|k: int|
                    0 <= k < n ==> (#[trigger] result@[k])@ == (if i <= k < i + j {
                        conv_sum(p, q, k, (i + 1) as nat)
                    } else {
                        conv_sum(p, q, k, i as nat)
                    }),
            decreases p2@.len() - j,
        {
            let t = p1[i].mul(&p2[j]);
            let s = result[i + j].add(&t);
            result.set(i + j, s);
            j += 1;
        }
        proof {
            assert forall|k: int| 0 <= k < n implies (#[trigger] result@[k])@ == conv_sum(
                p,
                q,
                k,
                (i + 1) as nat,
            ) by {
                if !(i <= k < i + p2@.len()) {
                    lemma_conv_sum_elem(p, q, k, i as nat);
                    lemma_identities(conv_sum(p, q, k, i as nat));
                    lemma_identities(p[i as int]);
                }
            }
        }
        i += 1;
    }
    assert(values(result@) =~= poly_mul(p, q));
    result
}

/// A vector with the scalars of a slice.
pub fn copy_vector(p: &[Scalar]) -> (r: Vec<Scalar>)
    ensures
        r@ == p@,
{
    let mut r: Vec<Scalar> = Vec::new();
    let mut k: usize = 0;
    while k < p.len()
        invariant
            k <= p@.len(),
            r@ == p@.subrange(0, k as int),
        decreases p@.len() - k,
    {
        r.push(p[k]);
        assert(r@ =~= p@.subrange(0, k + 1));
        k += 1;
    }
    assert(r@ =~= p@);
    r
}

/// The number of coefficients of a polynomial without its trailing zeros.
pub fn significant_len(p: &[Scalar]) -> (r: usize)
    ensures
        r == effective_len(values(p@)),
        r <= p@.len(),
{
    let mut n: usize = p.len();
    while n > 0 && p[n - 1].is_zero()
        invariant
            n <= p@.len(),
            trimmed_len(values(p@), n as nat) == effective_len(values(p@)),
        decreases n,
    {
        n -= 1;
    }
    proof {
        lemma_effective_len_zero(values(p@));
    }
    n
}

/// The quotient of one polynomial by another, by long division from the
/// highest degree down. A denominator that is empty or all zero is refused.
/// The remainder is dropped.
pub fn div(p1: &[Scalar], p2: &[Scalar]) -> (r: Result<Vec<Scalar>, Error>)
    requires
        all_wf(p1@),
        all_wf(p2@),
    ensures
        r is Err <==> is_zero_poly(values(p2@)),
        r matches Err(e) ==> e == Error::DivisionByZero,
        r matches Ok(q) ==> all_wf(q@) && values(q@) == poly_div(values(p1@), values(p2@)),
{
    let ghost num = values(p1@);
    let ghost den = values(p2@);
    proof {
        lemma_effective_len_zero(den);
    }
    let dl = significant_len(p2);
    if dl == 0 {
        return Err(Error::DivisionByZero);
    }
    if p1.len() < dl {
        let q = zero_vector(1);
        assert(values(q@) =~= poly_div(num, den));
        return Ok(q);
    }
    let inv = match p2[dl - 1].inverse() {
        Some(v) => v,
        None => unreached(),
    };
    proof {
        lemma_finv_is(den[dl - 1], inv@);
    }
    let top = p1.len() - dl;
    let mut quotient = zero_vector(top + 1);
    let mut rem = copy_vector(p1);
    let mut pos: usize = top + 1;
    while pos > 0
        invariant
            pos <= top + 1,
            top == p1@.len() - dl,
            p1@.len() <= usize::MAX,
            1 <= dl <= p2@.len(),
            dl == effective_len(den),
            num == values(p1@),
            den == values(p2@),
            all_wf(p2@),
            inv.wf(),
            inv@ == finv(den[dl - 1]),
            all_wf(rem@),
            all_wf(quotient@),
            rem@.len() == p1@.len(),
            quotient@.len() == top + 1,
            values(rem@) == div_rem(num, den, (top + 1 - pos) as nat),
            forall|j: int|
                pos <= j <= top ==> (#[trigger] quotient@[j])@ == div_coeff(
                    div_rem(num, den, (top - j) as nat),
                    den,
                    j,
                ),
        decreases pos,
    {
        pos -= 1;
        let ghost prev = values(rem@);
        let c = rem[pos + dl - 1].mul(&inv);
        quotient.set(pos, c);
        let mut i: usize = 0;
        while i < dl
            invariant
                i <= dl,
                pos + dl <= p1@.len(),
                p1@.len() <= usize::MAX,
                1 <= dl <= p2@.len(),
                den == values(p2@),
                all_wf(p2@),
                c.wf(),
                all_wf(rem@),
                rem@.len() == p1@.len(),
                prev.len() == p1@.len(),
                forall|k: int|
                    0 <= k < rem@.len() ==> (#[trigger] rem@[k])@ == (if pos <= k < pos + i {
                        fsub(prev[k], fmul(den[k - pos], c@))
                    } else {
                        prev[k]
                    }),
            decreases dl - i,
        {
            let t = p2[i].mul(&c);
            let s = rem[pos + i].sub(&t);
            rem.set(pos + i, s);
            i += 1;
        }
        assert(values(rem@) =~= div_step(prev, den, dl as nat, c@, pos as int));
    }
    assert(values(quotient@) =~= poly_div(num, den));
    Ok(quotient)
}

/// The quotient by a denominator that is known not to be zero.
pub fn quotient(p1: &[Scalar], p2: &[Scalar]) -> (r: Vec<Scalar>)
    requires
        all_wf(p1@),
        all_wf(p2@),
        !is_zero_poly(values(p2@)),
    ensures
        all_wf(r@),
        values(r@) == poly_div(values(p1@), values(p2@)),
{
    match self::div(p1, p2) {
        Ok(q) => q,
        Err(_) => unreached(),
    }
}

/// The value of a polynomial at a point, by Horner's rule.
pub fn evaluate(poly: &[Scalar], point: Scalar) -> (r: Scalar)
    requires
        all_wf(poly@),
        point.wf(),
    ensures
        r.wf(),
        r@ == poly_eval(values(poly@), point@),
{
    let mut value = Scalar::zero();
    let mut i: usize = poly.len();
    while i > 0
        invariant
            i <= poly@.len(),
            all_wf(poly@),
            point.wf(),
            value.wf(),
            value@ == eval_from(values(poly@), point@, i as nat),
        decreases i,
    {
        i -= 1;
        let prod = value.mul(&point);
        proof {
            lemma_fmul_comm(value@, point@);
            lemma_fadd_comm(prod@, poly@[i as int]@);
        }
        value = prod.add(&poly[i]);
    }
    value
}

/// The polynomial `X - a`.
pub fn linear(a: &Scalar) -> (r: Vec<Scalar>)
    requires
        a.wf(),
    ensures
        all_wf(r@),
        r@.len() == 2,
        values(r@) == linear_factor(a@),
{
    let mut r: Vec<Scalar> = Vec::new();
    r.push(a.neg());
    r.push(Scalar::one());
    assert(values(r@) =~= linear_factor(a@));
    r
}

/// `numerator` times `X - point`.
fn times_linear(numerator: &Vec<Scalar>, point: &Scalar) -> (r: Vec<Scalar>)
    requires
        all_wf(numerator@),
        point.wf(),
        numerator@.len() < usize::MAX,
    ensures
        all_wf(r@),
        values(r@) == poly_mul(values(numerator@), linear_factor(point@)),
{
    let factor = linear(point);
    self::mul(numerator.as_slice(), factor.as_slice())
}

/// The polynomial with the given roots and leading coefficient one, leaving
/// out the root at position `skip` if there is one.
pub fn product_of_factors(points: &[Scalar], skip: Option<usize>) -> (r: Vec<Scalar>)
    requires
        all_wf(points@),
        points@.len() < usize::MAX,
    ensures
        all_wf(r@),
        values(r@) == basis_numerator(values(points@), skip_index(skip), points@.len()),
{
    let ghost pts = values(points@);
    let ghost sk = skip_index(skip);
    let mut numerator: Vec<Scalar> = Vec::new();
    numerator.push(Scalar::one());
    assert(values(numerator@) =~= basis_numerator(pts, sk, 0));
    let mut j: usize = 0;
    while j < points.len()
        invariant
            j <= points@.len(),
            points@.len() < usize::MAX,
            pts == values(points@),
            sk == skip_index(skip),
            all_wf(points@),
            all_wf(numerator@),
            values(numerator@) == basis_numerator(pts, sk, j as nat),
        decreases points@.len() - j,
    {
        let skipped = match skip {
            Some(i) => i == j,
            None => false,
        };
        assert(skipped == (j as int == sk));
        assert(pts[j as int] == points@[j as int]@);
        assert(values(numerator@).len() == numerator@.len());
        proof {
            lemma_basis_numerator_len(pts, sk, j as nat);
        }
        if !skipped {
            numerator = times_linear(&numerator, &points[j]);
        }
        j += 1;
    }
    numerator
}

/// The polynomial of lowest degree through the given points, by Lagrange's
/// formula. Inputs of different lengths are refused, and so are points of
/// which one has differences from the others that multiply to zero.
pub fn interpolate(points: &[Scalar], vals: &[Scalar]) -> (r: Result<Vec<Scalar>, Error>)
    requires
        all_wf(points@),
        all_wf(vals@),
        points@.len() < usize::MAX,
    ensures
        points@.len() != vals@.len() ==> r == Err::<Vec<Scalar>, Error>(Error::LengthMismatch),
        points@.len() == vals@.len() && !interpolable(values(points@)) ==> r == Err::<
            Vec<Scalar>,
            Error,
        >(Error::DivisionByZero),
        points@.len() == vals@.len() && interpolable(values(points@)) ==> (r matches Ok(v)
            && all_wf(v@) && values(v@) == poly_interpolate(values(points@), values(vals@))),
{
    if points.len() != vals.len() {
        return Err(Error::LengthMismatch);
    }
    let n = points.len();
    let ghost pts = values(points@);
    let ghost vs = values(vals@);
    let mut result = zero_vector(n);
    let mut i: usize = 0;
    while i < n
        invariant
            i <= n,
            n == points@.len(),
            n == vals@.len(),
            n < usize::MAX,
            pts == values(points@),
            vs == values(vals@),
            all_wf(points@),
            all_wf(vals@),
            all_wf(result@),
            values(result@) == interpolation_sum(pts, vs, i as nat),
            forall|k: int|
                0 <= k < i ==> invertible(#[trigger] basis_denominator(pts, k, n as nat)),
        decreases n - i,
    {
        let numerator = product_of_factors(points, Some(i));
        let mut denominator = Scalar::one();
        let mut j: usize = 0;
        while j < n
            invariant
                j <= n,
                i < n,
                n == points@.len(),
                pts == values(points@),
                all_wf(points@),
                denominator.wf(),
                denominator@ == basis_denominator(pts, i as int, j as nat),
            decreases n - j,
        {
            if j != i {
                let difference = points[i].sub(&points[j]);
                denominator = denominator.mul(&difference);
            }
            j += 1;
        }
        let inverse = denominator.inverse();
        if inverse.is_none() {
            proof {
                lemma_zero_not_invertible();
            }
            return Err(Error::DivisionByZero);
        }
        let denominator_inv = inverse.unwrap();
        proof {
            lemma_finv_is(denominator@, denominator_inv@);
        }
        let mut term: Vec<Scalar> = Vec::new();
        let mut k: usize = 0;
        while k < numerator.len()
            invariant
                k <= numerator@.len(),
                i < n,
                n == vals@.len(),
                vs == values(vals@),
                all_wf(vals@),
                all_wf(numerator@),
                denominator_inv.wf(),
                all_wf(term@),
                term@.len() == k,
                forall|m: int|
                    0 <= m < k ==> (#[trigger] term@[m])@ == fmul(
                        fmul(numerator@[m]@, vs[i as int]),
                        denominator_inv@,
                    ),
            decreases numerator@.len() - k,
        {
            let scaled = numerator[k].mul(&vals[i]).mul(&denominator_inv);
            term.push(scaled);
            k += 1;
        }
        assert(values(term@) =~= basis_term(pts, vs, i as int));
        result = self::add(result.as_slice(), term.as_slice());
        i += 1;
    }
    Ok(result)
}

/// `ark_std::log2`: the base-2 logarithm rounded up, so the least `r` with
/// `x <= 2^r`; zero for zero.
pub assume_specification[ ark_std::log2 ](x: usize) -> (r: u32)
    ensures
        x <= pow2(r as nat),
        r > 0 ==> pow2((r - 1) as nat) < x,
;

/// The root of unity for a domain of `size` points, whose order is `size`
/// rounded up to a power of two.
pub fn get_root_of_unity(size: usize) -> (r: Scalar)
    ensures
        r.wf(),
        r@ == root_of_unity(size as nat),
        log2_ceil(size as nat) <= 32 ==> fpow(r@, pow2(log2_ceil(size as nat))) == 1,
        1 <= log2_ceil(size as nat) <= 32 ==> fpow(
            r@,
            pow2((log2_ceil(size as nat) - 1) as nat),
        ) == modulus() - 1,
{
    let exp = ark_std::log2(size);
    proof {
        lemma_log2_ceil_is(size as nat, exp as nat);
        if exp <= 32 {
            law_root_of_unity_order(size as nat);
        }
    }
    let mut omega = fr_two_adic_root();
    let mut k: u32 = exp;
    while k < TWO_ADICITY
        invariant
            TWO_ADICITY == 32,
            exp <= k,
            exp < TWO_ADICITY ==> k <= TWO_ADICITY,
            exp >= TWO_ADICITY ==> k == exp,
            log2_ceil(size as nat) == exp,
            omega.wf(),
            omega@ == squared_times(two_adic_root(), (k - exp) as nat),
        decreases TWO_ADICITY - k,
    {
        omega = omega.mul(&omega);
        k += 1;
    }
    omega
}

/// The root of unity for a polynomial with as many coefficients as given.
pub fn get_omega(coefficients: &[Scalar]) -> (r: Scalar)
    ensures
        r.wf(),
        r@ == root_of_unity(coefficients@.len()),
        log2_ceil(coefficients@.len()) <= 32 ==> fpow(r@, pow2(log2_ceil(coefficients@.len())))
            == 1,
        1 <= log2_ceil(coefficients@.len()) <= 32 ==> fpow(
            r@,
            pow2((log2_ceil(coefficients@.len()) - 1) as nat),
        ) == modulus() - 1,
{
    get_root_of_unity(coefficients.len())
}

} // verus!
