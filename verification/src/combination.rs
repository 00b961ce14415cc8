//! Commitments as linear combinations: the sum of group elements, each
//! multiplied by the coefficient at its position.

use vstd::prelude::*;
use crate::group::{
    g1_add, g1_mul, g1_scaled, g1_sum, G1Point, g2_add, g2_mul, g2_scaled, g2_sum, G2Point,
};
use crate::poly::{all_wf, values};
use crate::scalar::{fpow, Scalar};

verus! {

/// The encodings of a sequence of points of G1.
pub open spec fn g1_views(v: Seq<G1Point>) -> Seq<Seq<u8>> {
    Seq::new(v.len(), |i: int| v[i]@)
}

/// The encodings of a sequence of points of G2.
pub open spec fn g2_views(v: Seq<G2Point>) -> Seq<Seq<u8>> {
    Seq::new(v.len(), |i: int| v[i]@)
}

/// Every point of the sequence is one of G1.
pub open spec fn all_g1_wf(v: Seq<G1Point>) -> bool {
    forall|i: int| 0 <= i < v.len() ==> (#[trigger] v[i]).wf()
}

/// Every point of the sequence is one of G2.
pub open spec fn all_g2_wf(v: Seq<G2Point>) -> bool {
    forall|i: int| 0 <= i < v.len() ==> (#[trigger] v[i]).wf()
}

/// `base` times zero, plus `elems[i]` times `coeffs[i]` for each `i` below
/// `n`, added in the order of `i`.
pub open spec fn g1_combination(base: Seq<u8>, elems: Seq<Seq<u8>>, coeffs: Seq<nat>, n: nat) -> Seq<
    u8,
>
    decreases n,
{
    if n == 0 {
        g1_scaled(base, 0)
    } else {
        g1_sum(
            g1_combination(base, elems, coeffs, (n - 1) as nat),
            g1_scaled(elems[n - 1], coeffs[n - 1]),
        )
    }
}

/// `base` times zero, plus `elems[i]` times `coeffs[i]` for each `i` below
/// `n`, added in the order of `i`.
pub open spec fn g2_combination(base: Seq<u8>, elems: Seq<Seq<u8>>, coeffs: Seq<nat>, n: nat) -> Seq<
    u8,
>
    decreases n,
{
    if n == 0 {
        g2_scaled(base, 0)
    } else {
        g2_sum(
            g2_combination(base, elems, coeffs, (n - 1) as nat),
            g2_scaled(elems[n - 1], coeffs[n - 1]),
        )
    }
}

/// The combination of the first elements of `elems` with all of `coeffs`,
/// starting from `base` times zero.
pub fn combine_g1(base: &G1Point, elems: &Vec<G1Point>, coeffs: &[Scalar]) -> (r: G1Point)
    requires
        base.wf(),
        all_g1_wf(elems@),
        all_wf(coeffs@),
        coeffs@.len() <= elems@.len(),
    ensures
        r.wf(),
        r@ == g1_combination(base@, g1_views(elems@), values(coeffs@), coeffs@.len()),
{
    let zero = Scalar::zero();
    let mut acc = g1_mul(base, &zero);
    let mut i: usize = 0;
    while i < coeffs.len()
        invariant
            i <= coeffs@.len(),
            coeffs@.len() <= elems@.len(),
            all_g1_wf(elems@),
            all_wf(coeffs@),
            acc.wf(),
            acc@ == g1_combination(base@, g1_views(elems@), values(coeffs@), i as nat),
        decreases coeffs@.len() - i,
    {
        let term = g1_mul(&elems[i], &coeffs[i]);
        acc = g1_add(&acc, &term);
        i += 1;
    }
    acc
}

/// The combination of the first elements of `elems` with all of `coeffs`,
/// starting from `base` times zero.
pub fn combine_g2(base: &G2Point, elems: &Vec<G2Point>, coeffs: &[Scalar]) -> (r: G2Point)
    requires
        base.wf(),
        all_g2_wf(elems@),
        all_wf(coeffs@),
        coeffs@.len() <= elems@.len(),
    ensures
        r.wf(),
        r@ == g2_combination(base@, g2_views(elems@), values(coeffs@), coeffs@.len()),
{
    let zero = Scalar::zero();
    let mut acc = g2_mul(base, &zero);
    let mut i: usize = 0;
    while i < coeffs.len()
        invariant
            i <= coeffs@.len(),
            coeffs@.len() <= elems@.len(),
            all_g2_wf(elems@),
            all_wf(coeffs@),
            acc.wf(),
            acc@ == g2_combination(base@, g2_views(elems@), values(coeffs@), i as nat),
        decreases coeffs@.len() - i,
    {
        let term = g2_mul(&elems[i], &coeffs[i]);
        acc = g2_add(&acc, &term);
        i += 1;
    }
    acc
}

/// The reference string in G1 for a secret: `g` times the secret's powers
/// from 0 up to `n - 1`.
pub open spec fn g1_powers(g: Seq<u8>, secret: nat, n: nat) -> Seq<Seq<u8>> {
    Seq::new(n, |i: int| g1_scaled(g, fpow(secret, i as nat)))
}

/// The reference string in G2 for a secret: `g` times the secret's powers
/// from 0 up to `n - 1`.
pub open spec fn g2_powers(g: Seq<u8>, secret: nat, n: nat) -> Seq<Seq<u8>> {
    Seq::new(n, |i: int| g2_scaled(g, fpow(secret, i as nat)))
}

/// `g` times each of the first `n` powers of `secret`.
pub fn powers_g1(g: &G1Point, secret: &Scalar, n: usize) -> (r: Vec<G1Point>)
    requires
        g.wf(),
        secret.wf(),
    ensures
        all_g1_wf(r@),
        r@.len() == n,
        g1_views(r@) == g1_powers(g@, secret@, n as nat),
{
    let mut r: Vec<G1Point> = Vec::new();
    let mut i: usize = 0;
    while i < n
        invariant
            i <= n,
            g.wf(),
            secret.wf(),
            all_g1_wf(r@),
            r@.len() == i,
            forall|j: int|
                0 <= j < i ==> (#[trigger] r@[j])@ == g1_scaled(
                    g@,
                    fpow(secret@, j as nat),
                ),
        decreases n - i,
    {
        let power = secret.pow(i as u64);
        r.push(g1_mul(g, &power));
        i += 1;
    }
    assert(g1_views(r@) =~= g1_powers(g@, secret@, n as nat));
    r
}

/// `g` times each of the first `n` powers of `secret`.
pub fn powers_g2(g: &G2Point, secret: &Scalar, n: usize) -> (r: Vec<G2Point>)
    requires
        g.wf(),
        secret.wf(),
    ensures
        all_g2_wf(r@),
        r@.len() == n,
        g2_views(r@) == g2_powers(g@, secret@, n as nat),
{
    let mut r: Vec<G2Point> = Vec::new();
    let mut i: usize = 0;
    while i < n
        invariant
            i <= n,
            g.wf(),
            secret.wf(),
            all_g2_wf(r@),
            r@.len() == i,
            forall|j: int|
                0 <= j < i ==> (#[trigger] r@[j])@ == g2_scaled(
                    g@,
                    fpow(secret@, j as nat),
                ),
        decreases n - i,
    {
        let power = secret.pow(i as u64);
        r.push(g2_mul(g, &power));
        i += 1;
    }
    assert(g2_views(r@) =~= g2_powers(g@, secret@, n as nat));
    r
}

/// A vector with the same points of G1.
pub fn copy_g1(v: &Vec<G1Point>) -> (r: Vec<G1Point>)
    ensures
        r@ == v@,
{
    let mut r: Vec<G1Point> = Vec::new();
    let mut k: usize = 0;
    while k < v.len()
        invariant
            k <= v@.len(),
            r@ == v@.subrange(0, k as int),
        decreases v@.len() - k,
    {
        r.push(v[k]);
        assert(r@ =~= v@.subrange(0, k + 1));
        k += 1;
    }
    assert(r@ =~= v@);
    r
}

/// A vector with the same points of G2.
pub fn copy_g2(v: &Vec<G2Point>) -> (r: Vec<G2Point>)
    ensures
        r@ == v@,
{
    let mut r: Vec<G2Point> = Vec::new();
    let mut k: usize = 0;
    while k < v.len()
        invariant
            k <= v@.len(),
            r@ == v@.subrange(0, k as int),
        decreases v@.len() - k,
    {
        r.push(v[k]);
        assert(r@ =~= v@.subrange(0, k + 1));
        k += 1;
    }
    assert(r@ =~= v@);
    r
}

} // verus!
