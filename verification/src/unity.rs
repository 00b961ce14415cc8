//! Domains whose size is a power of two: their root of unity has exactly the
//! order of the size, so their points are separated and can be interpolated
//! through.

use vstd::prelude::*;
use crate::asvc::{domain, index_points};
use crate::congruence::{lemma_cong_elems, lemma_cong_mul, lemma_cong_sub, lemma_field_ops_cong};
use crate::domain::{good_domain, lemma_fpow_mul};
use crate::interpolation::{lemma_denominator_is_prod, lemma_invertible_factors, prod_diff};
use crate::poly::{
    basis_denominator, interpolable, lemma_log2_ceil_is, log2_ceil, root_of_unity, squared_times,
};
use crate::powers::{
    geometric_sum, lemma_fpow_adds, lemma_fpow_cong, lemma_fpow_minus_one, lemma_fpow_small,
    lemma_geometric_sum, lemma_invertible_neg, lemma_invertible_product, lemma_pow2_invertible,
    lemma_squared_times_adds, lemma_squared_times_is_power, lemma_two_invertible,
};
use crate::root_value::lemma_root_order;
use crate::roots::separated;
use crate::scalar::{
    fmul, fpow, fsub, generator, invertible, is_elem, lemma_finv_is, modulus, two_adic_root,
};
use vstd::arithmetic::power2::{
    lemma_pow2_pos, lemma_pow2_strictly_increases, lemma_pow2_unfold, pow2,
};

verus! {

/// Squaring once more at the end is squaring once at the start.
pub proof fn lemma_squared_times_shift(a: nat, m: nat)
    ensures
        squared_times(a, m + 1) == squared_times(fmul(a, a), m),
    decreases m,
{
    if m > 0 {
        lemma_squared_times_shift(a, (m - 1) as nat);
    } else {
        assert(squared_times(a, 1) == fmul(squared_times(a, 0), squared_times(a, 0)));
    }
}

/// Where `w` squared `k - 1` times is minus one, so that `w` has order `2^k`,
/// no power of `w` below the `2^k`-th but the zeroth is one: each of them,
/// less one, has an inverse.
pub proof fn lemma_power_is_not_one(w: nat, k: nat, d: nat)
    requires
        is_elem(w),
        k >= 1,
        squared_times(w, (k - 1) as nat) == modulus() - 1,
        0 < d < pow2(k),
    ensures
        invertible(fsub(fpow(w, d), 1)),
    decreases k,
{
    let m1 = (modulus() - 1) as nat;
    let half = pow2((k - 1) as nat);
    lemma_pow2_unfold(k);
    lemma_pow2_pos((k - 1) as nat);
    if d % 2 == 1 {
        let y = fpow(w, d);
        lemma_fpow_cong(w, d);
        lemma_squared_times_is_power(w, (k - 1) as nat);
        lemma_fpow_mul(w, d, half);
        lemma_fpow_mul(w, half, d);
        assert(d * half == half * d) by (nonlinear_arith);
        lemma_fpow_minus_one(d);
        assert(fpow(y, half) == m1);
        lemma_geometric_sum(y, half);
        lemma_two_invertible();
        assert(fsub(m1, 1) == fsub(0, 2)) by {
            lemma_field_ops_cong(m1, 1);
            lemma_field_ops_cong(0, 2);
            vstd::arithmetic::div_mod::lemma_mod_add_multiples_vanish(0 - 2, modulus() as int);
            lemma_cong_elems(fsub(m1, 1), fsub(0, 2));
        }
        lemma_invertible_factors(fsub(y, 1), geometric_sum(y, half));
    } else {
        assert(k >= 2) by {
            if k == 1 {
                vstd::arithmetic::power2::lemma2_to64();
            }
        }
        let w2 = fmul(w, w);
        lemma_field_ops_cong(w, w);
        lemma_squared_times_shift(w, (k - 2) as nat);
        let d2 = d / 2;
        lemma_power_is_not_one(w2, (k - 1) as nat, d2);
        lemma_fpow_small(w);
        lemma_fpow_mul(w, 2, d2);
    }
}

/// The least power of two that is not below `n` is `n` itself: `n` is a
/// power of two, and of one up to `2^32`.
pub open spec fn is_power_of_two(n: nat) -> bool {
    log2_ceil(n) <= 32 && n == pow2(log2_ceil(n))
}

/// The rounded-up logarithm of a power of two is its exponent.
pub proof fn lemma_log2_of_pow2(k: nat)
    ensures
        log2_ceil(pow2(k)) == k,
{
    if k > 0 {
        lemma_pow2_strictly_increases((k - 1) as nat, k);
    }
    lemma_log2_ceil_is(pow2(k), k);
}

/// The root of unity of a domain of `2^k` points has order `2^k`: its
/// `2^k`-th power is one, and squared `k - 1` times it is minus one.
pub proof fn lemma_root_of_unity_order(k: nat)
    requires
        k <= 32,
    ensures
        is_elem(root_of_unity(pow2(k))),
        fpow(root_of_unity(pow2(k)), pow2(k)) == 1,
        k >= 1 ==> squared_times(root_of_unity(pow2(k)), (k - 1) as nat) == modulus() - 1,
{
    let root = two_adic_root();
    let w = root_of_unity(pow2(k));
    lemma_log2_of_pow2(k);
    lemma_fpow_cong(generator(), ((modulus() - 1) / 0x1_0000_0000) as nat);
    lemma_root_order();
    if k == 32 {
        assert(w == squared_times(root, 0));
    } else {
        assert(w == squared_times(root, (32 - k) as nat));
    }
    lemma_squared_times_is_power(root, (32 - k) as nat);
    lemma_squared_times_is_power(w, k);
    lemma_squared_times_adds(root, (32 - k) as nat, k);
    if k >= 1 {
        lemma_squared_times_adds(root, (32 - k) as nat, (k - 1) as nat);
    }
}

/// A power of an element whose `n`-th power is one has an inverse.
pub proof fn lemma_root_power_invertible(w: nat, n: nat, j: nat)
    requires
        fpow(w, n) == 1,
        j <= n,
    ensures
        invertible(fpow(w, j)),
{
    lemma_fpow_adds(w, j, (n - j) as nat);
    lemma_fpow_cong(w, (n - j) as nat);
    lemma_finv_is(fpow(w, j), fpow(w, (n - j) as nat));
}

/// The points of a domain of `2^k` points are separated.
pub proof fn lemma_domain_separated(k: nat)
    requires
        k <= 32,
    ensures
        separated(domain(pow2(k))),
{
    let n = pow2(k);
    let w = root_of_unity(n);
    let dom = domain(n);
    lemma_root_of_unity_order(k);
    assert forall|i: int, j: int|
        0 <= i < dom.len() && 0 <= j < dom.len() && i != j implies invertible(
        fsub(#[trigger] dom[i], #[trigger] dom[j]),
    ) by {
        let hi = if i > j {
            i
        } else {
            j
        };
        let lo = if i > j {
            j
        } else {
            i
        };
        let d = (hi - lo) as nat;
        assert(k >= 1) by {
            if k == 0 {
                vstd::arithmetic::power2::lemma2_to64();
            }
        }
        let a = fpow(w, lo as nat);
        let b = fpow(w, hi as nat);
        let y = fpow(w, d);
        lemma_power_is_not_one(w, k, d);
        lemma_root_power_invertible(w, n, lo as nat);
        lemma_invertible_product(a, fsub(y, 1));
        // b - a = a * (y - 1)
        lemma_fpow_adds(w, lo as nat, d);
        lemma_fpow_cong(w, lo as nat);
        lemma_fpow_cong(w, hi as nat);
        lemma_field_ops_cong(a, y);
        lemma_field_ops_cong(y, 1);
        lemma_field_ops_cong(a, fsub(y, 1));
        lemma_field_ops_cong(b, a);
        lemma_field_ops_cong(a, b);
        lemma_cong_mul(a as int, a as int, fsub(y, 1) as int, y as int - 1);
        assert(a as int * (y as int - 1) == a as int * y as int - a as int) by (nonlinear_arith);
        lemma_cong_sub(a as int * y as int, b as int, a as int, a as int);
        lemma_cong_elems(fmul(a, fsub(y, 1)), fsub(b, a));
        if i > j {
            assert(dom[i] == b && dom[j] == a);
        } else {
            assert(dom[i] == a && dom[j] == b);
            lemma_invertible_neg(fsub(b, a));
            lemma_field_ops_cong(0, fsub(b, a));
            lemma_cong_sub(0, 0, fsub(b, a) as int, b as int - a as int);
            lemma_cong_elems(fsub(0, fsub(b, a)), fsub(a, b));
        }
    }
}

/// Where each difference has an inverse, so has their product.
pub proof fn lemma_prod_diff_invertible(x: nat, pts: Seq<nat>, skip: int, m: nat)
    requires
        m <= pts.len(),
        forall|j: int| 0 <= j < m && j != skip ==> invertible(fsub(x, #[trigger] pts[j])),
    ensures
        invertible(prod_diff(x, pts, skip, m)),
    decreases m,
{
    if m == 0 {
        assert(1nat * 1nat == 1) by (nonlinear_arith);
        lemma_finv_is(1, 1);
    } else {
        lemma_prod_diff_invertible(x, pts, skip, (m - 1) as nat);
        if m - 1 != skip {
            assert(invertible(fsub(x, pts[m - 1])));
            lemma_invertible_product(prod_diff(x, pts, skip, (m - 1) as nat), fsub(x, pts[m - 1]));
        }
    }
}

/// Separated points can be interpolated through.
pub proof fn lemma_separated_interpolable(pts: Seq<nat>)
    requires
        separated(pts),
    ensures
        interpolable(pts),
{
    assert forall|i: int| 0 <= i < pts.len() implies invertible(
        #[trigger] basis_denominator(pts, i, pts.len()),
    ) by {
        lemma_denominator_is_prod(pts, i, pts.len());
        assert forall|j: int| 0 <= j < pts.len() && j != i implies invertible(
            fsub(pts[i], #[trigger] pts[j]),
        ) by {}
        lemma_prod_diff_invertible(pts[i], pts, i, pts.len());
    }
}

/// A domain whose size is a power of two up to `2^32` is a good one, and its
/// points can be interpolated through.
pub proof fn lemma_power_of_two_domain(n: nat)
    requires
        is_power_of_two(n),
    ensures
        good_domain(n),
        interpolable(domain(n)),
{
    let k = log2_ceil(n);
    lemma_root_of_unity_order(k);
    lemma_pow2_invertible(k);
    lemma_domain_separated(k);
    lemma_separated_interpolable(domain(n));
}

/// No position is listed twice, and each is one of the vector's.
pub open spec fn distinct_positions(indices: Seq<usize>, n: nat) -> bool {
    &&& forall|k: int| 0 <= k < indices.len() ==> #[trigger] indices[k] < n
    &&& forall|k: int, l: int|
        0 <= k < indices.len() && 0 <= l < indices.len() && k != l ==> #[trigger] indices[k]
            != #[trigger] indices[l]
}

/// The points of distinct positions of a separated domain can be interpolated
/// through.
pub proof fn lemma_positions_interpolable(n: nat, indices: Seq<usize>)
    requires
        separated(domain(n)),
        distinct_positions(indices, n),
    ensures
        interpolable(index_points(n, indices)),
        separated(index_points(n, indices)),
{
    let dom = domain(n);
    let pts = index_points(n, indices);
    assert forall|k: int, l: int|
        0 <= k < pts.len() && 0 <= l < pts.len() && k != l implies invertible(
        fsub(#[trigger] pts[k], #[trigger] pts[l]),
    ) by {
        assert(indices[k] != indices[l]);
        assert(pts[k] == dom[indices[k] as int]);
        assert(pts[l] == dom[indices[l] as int]);
    }
    lemma_separated_interpolable(pts);
}

/// There are no more distinct positions than the vector has entries.
pub proof fn lemma_positions_count(indices: Seq<usize>, n: nat)
    requires
        distinct_positions(indices, n),
    ensures
        indices.len() <= n,
{
    let as_ints = Seq::new(indices.len(), |k: int| indices[k] as int);
    assert(as_ints.no_duplicates()) by {
        assert forall|k: int, l: int|
            0 <= k < as_ints.len() && 0 <= l < as_ints.len() && k != l implies as_ints[k]
            != as_ints[l] by {
            assert(indices[k] != indices[l]);
        }
    }
    as_ints.unique_seq_to_set();
    let range = vstd::set_lib::set_int_range(0, n as int);
    vstd::set_lib::lemma_int_range(0, n as int);
    assert(as_ints.to_set().subset_of(range)) by {
        assert forall|x: int| as_ints.to_set().contains(x) implies range.contains(x) by {
            let k = choose|k: int| 0 <= k < as_ints.len() && as_ints[k] == x;
            assert(indices[k] < n);
        }
    }
    vstd::set_lib::lemma_len_subset(as_ints.to_set(), range);
}

/// The root of unity for a domain has exactly the order of the domain's
/// size rounded up to a power of two: raised to that power it is one, and
/// raised to half of it minus one. That is so for sizes up to `2^32`.
pub proof fn law_root_of_unity_order(size: nat)
    requires
        log2_ceil(size) <= 32,
    ensures
        fpow(root_of_unity(size), pow2(log2_ceil(size))) == 1,
        log2_ceil(size) >= 1 ==> fpow(
            root_of_unity(size),
            pow2((log2_ceil(size) - 1) as nat),
        ) == modulus() - 1,
{
    let k = log2_ceil(size);
    lemma_log2_of_pow2(k);
    assert(root_of_unity(size) == root_of_unity(pow2(k)));
    lemma_root_of_unity_order(k);
    if k >= 1 {
        lemma_squared_times_is_power(root_of_unity(size), (k - 1) as nat);
    }
}

} // verus!
