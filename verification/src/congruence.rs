//! Congruence modulo the field's order: the bridge between field elements and
//! the integers, where sums and products are easier to rearrange.

use vstd::prelude::*;
use crate::scalar::{fadd, fmul, fsub, is_elem, modulus};
use vstd::arithmetic::div_mod::{
    lemma_add_mod_noop, lemma_mod_bound, lemma_mod_twice, lemma_mul_mod_noop_general,
    lemma_small_mod, lemma_sub_mod_noop,
};

verus! {

/// Two integers differ by a multiple of the field's order.
pub open spec fn cong(a: int, b: int) -> bool {
    a % (modulus() as int) == b % (modulus() as int)
}

/// Field elements that are congruent are equal.
pub proof fn lemma_cong_elems(a: nat, b: nat)
    requires
        is_elem(a),
        is_elem(b),
        cong(a as int, b as int),
    ensures
        a == b,
{
    lemma_small_mod(a, modulus());
    lemma_small_mod(b, modulus());
}

/// Sums of congruent numbers are congruent.
pub proof fn lemma_cong_add(a: int, a2: int, b: int, b2: int)
    requires
        cong(a, a2),
        cong(b, b2),
    ensures
        cong(a + b, a2 + b2),
{
    let m = modulus() as int;
    lemma_add_mod_noop(a, b, m);
    lemma_add_mod_noop(a2, b2, m);
}

/// Differences of congruent numbers are congruent.
pub proof fn lemma_cong_sub(a: int, a2: int, b: int, b2: int)
    requires
        cong(a, a2),
        cong(b, b2),
    ensures
        cong(a - b, a2 - b2),
{
    let m = modulus() as int;
    lemma_sub_mod_noop(a, b, m);
    lemma_sub_mod_noop(a2, b2, m);
}

/// Products of congruent numbers are congruent.
pub proof fn lemma_cong_mul(a: int, a2: int, b: int, b2: int)
    requires
        cong(a, a2),
        cong(b, b2),
    ensures
        cong(a * b, a2 * b2),
{
    let m = modulus() as int;
    lemma_mul_mod_noop_general(a, b, m);
    lemma_mul_mod_noop_general(a2, b2, m);
}

/// The field's operations are the integers' up to congruence.
pub proof fn lemma_field_ops_cong(a: nat, b: nat)
    ensures
        cong(fadd(a, b) as int, a as int + b as int),
        cong(fsub(a, b) as int, a as int - b as int),
        cong(fmul(a, b) as int, a as int * b as int),
        is_elem(fadd(a, b)),
        is_elem(fsub(a, b)),
        is_elem(fmul(a, b)),
{
    let m = modulus() as int;
    lemma_mod_twice((a + b) as int, m);
    lemma_mod_twice(a as int - b as int, m);
    lemma_mod_twice((a * b) as int, m);
    lemma_mod_bound((a + b) as int, m);
    lemma_mod_bound(a as int - b as int, m);
    lemma_mod_bound((a * b) as int, m);
}

/// What is taken away can be told from what is left.
pub proof fn lemma_fsub_injective(a: nat, b: nat, c: nat)
    requires
        is_elem(b),
        is_elem(c),
        fsub(a, b) == fsub(a, c),
    ensures
        b == c,
{
    let ai = a as int;
    lemma_field_ops_cong(a, b);
    lemma_field_ops_cong(a, c);
    lemma_cong_sub(ai, ai, fsub(a, b) as int, ai - b as int);
    lemma_cong_sub(ai, ai, fsub(a, c) as int, ai - c as int);
    assert(ai - (ai - b as int) == b as int);
    assert(ai - (ai - c as int) == c as int);
    lemma_cong_elems(b, c);
}

} // verus!
