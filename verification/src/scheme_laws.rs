//! That honest proofs are accepted, given the laws of the curve.

use vstd::prelude::*;
use crate::aggregation::{law_partial_fractions, partial_fraction_weights, single_quotient_values};
use crate::asvc::{ASVC, commit_to, derivative, domain, index_points, lagrange_basis, subvector};
use crate::combination::{g1_combination, g1_powers, g1_views, g2_powers, g2_views};
use crate::congruence::{lemma_field_ops_cong, lemma_fsub_injective};
use crate::curve::{
    curve_laws, dot_sum, g1_is_module, lemma_commitment_from, lemma_commitment_from_g2,
    lemma_commitment_is_value, lemma_commitment_is_value_g2, lemma_dot_sum_elem,
    lemma_g1_combination_of_multiples, pairing_is_faithful, told_apart,
};
use crate::division::{lemma_division, lemma_linear_divisible};
use crate::domain::{good_domain, lemma_basis_on_domain, lemma_mix_is_interpolation, mix_value};
use crate::evaluation::{lemma_eval_constant, lemma_eval_opening_numerator};
use crate::group::{
    g1_diff, g1_scaled, g1_sum, g1_valid, g2_diff, g2_scaled, g2_valid, pairing_value,
};
use crate::interpolation::{
    lemma_basis_numerator_is_poly, lemma_interpolation_sum_is_poly, lemma_vanishing_poly,
};
use crate::kzg::{batch_quotient, KZG, opening_quotient};
use crate::laws::{law_batch_quotient, law_opening_quotient, law_position_quotient};
use crate::poly::{
    coeff, evaluations, interpolable, is_poly, lemma_basis_numerator_len,
    lemma_basis_numerator_monic, lemma_interpolation_sum_len, linear_factor, opening_numerator,
    poly_div, poly_eval, poly_interpolate, poly_sub, root_of_unity, vanishing_poly,
};
use crate::powers::lemma_fpow_cong;
use crate::scalar::{fadd, fmul, fsub, is_elem, lemma_identities};
use crate::sums::lemma_eval_elem;
use crate::unity::{
    distinct_positions, is_power_of_two, lemma_positions_count, lemma_positions_interpolable,
    lemma_power_of_two_domain,
};

verus! {

/// What the two sides of the opening check come to under a reference string
/// made from `secret`: for the proof that `open` makes, the left side is the
/// pairing of the generators with the polynomial's value at the secret less
/// its value at the point, and the right side the same with the claimed value
/// in place of the latter.
pub proof fn lemma_opening_sides(kzg: KZG, secret: nat, p: Seq<nat>, z: nat, claimed: nat)
    requires
        curve_laws(),
        kzg.wf(),
        kzg.is_setup_with(secret),
        is_elem(secret),
        is_poly(p),
        p.len() <= kzg.degree + 1,
        is_elem(z),
        is_elem(claimed),
    ensures
        pairing_value(
            kzg.commitment(opening_quotient(p, z)),
            g2_diff(kzg.g2_tau@, g2_scaled(kzg.g2@, z)),
        ) == pairing_value(
            g1_scaled(kzg.g1@, fsub(poly_eval(p, secret), poly_eval(p, z))),
            kzg.g2@,
        ),
        pairing_value(g1_diff(kzg.commitment(p), g1_scaled(kzg.g1@, claimed)), kzg.g2@)
            == pairing_value(g1_scaled(kzg.g1@, fsub(poly_eval(p, secret), claimed)), kzg.g2@),
{
    reveal(curve_laws);
    let g1 = kzg.g1@;
    let g2 = kzg.g2@;
    let size = (kzg.degree + 1) as nat;
    let v = poly_eval(p, z);
    let num = opening_numerator(p, v);
    let quot = opening_quotient(p, z);
    kzg.g1.lemma_wf();
    kzg.g2.lemma_wf();
    lemma_eval_elem(p, z);
    lemma_eval_elem(p, secret);
    lemma_eval_elem(quot, secret);
    lemma_eval_opening_numerator(p, v, z);
    lemma_linear_divisible(z);
    lemma_division(num, linear_factor(z));
    lemma_commitment_is_value(g1, secret, size, p);
    lemma_commitment_is_value(g1, secret, size, quot);
    law_opening_quotient(p, z, secret);
    let qs = poly_eval(quot, secret);
    let ps = poly_eval(p, secret);
    let pi = g1_scaled(g1, qs);
    lemma_field_ops_cong(secret, z);
    assert(g2_diff(g2_scaled(g2, secret), g2_scaled(g2, z)) == g2_scaled(g2, fsub(secret, z)));
    assert(g1_valid(pi));
    assert(pairing_value(pi, g2_scaled(g2, fsub(secret, z))) == pairing_value(
        g1_scaled(pi, fsub(secret, z)),
        g2,
    ));
    assert(g1_scaled(g1_scaled(g1, qs), fsub(secret, z)) == g1_scaled(
        g1,
        fmul(qs, fsub(secret, z)),
    ));
    assert(g1_diff(g1_scaled(g1, ps), g1_scaled(g1, claimed)) == g1_scaled(
        g1,
        fsub(ps, claimed),
    ));
}

/// An honest opening is accepted: for a polynomial that fits the reference
/// string and any point, the proof that `open` makes verifies the
/// polynomial's value at the point against the commitment that `commit`
/// makes.
pub proof fn law_opening_verifies(kzg: KZG, secret: nat, p: Seq<nat>, z: nat)
    requires
        curve_laws(),
        kzg.wf(),
        kzg.is_setup_with(secret),
        is_elem(secret),
        is_poly(p),
        p.len() <= kzg.degree + 1,
        is_elem(z),
    ensures
        kzg.accepts(
            z,
            poly_eval(p, z),
            kzg.commitment(p),
            kzg.commitment(opening_quotient(p, z)),
        ),
{
    lemma_eval_elem(p, z);
    lemma_opening_sides(kzg, secret, p, z, poly_eval(p, z));
}

/// A wrong value is rejected: where the pairing tells the multiples of the
/// generator apart, the proof that `open` makes for a point verifies no value
/// but the polynomial's at that point.
pub proof fn law_wrong_value_rejected(kzg: KZG, secret: nat, p: Seq<nat>, z: nat, claimed: nat)
    requires
        curve_laws(),
        pairing_is_faithful(kzg.g1@, kzg.g2@),
        kzg.wf(),
        kzg.is_setup_with(secret),
        is_elem(secret),
        is_poly(p),
        p.len() <= kzg.degree + 1,
        is_elem(z),
        is_elem(claimed),
        claimed != poly_eval(p, z),
    ensures
        !kzg.accepts(z, claimed, kzg.commitment(p), kzg.commitment(opening_quotient(p, z))),
{
    let v = poly_eval(p, z);
    let ps = poly_eval(p, secret);
    lemma_eval_elem(p, z);
    lemma_opening_sides(kzg, secret, p, z, claimed);
    lemma_field_ops_cong(ps, v);
    lemma_field_ops_cong(ps, claimed);
    assert(told_apart(kzg.g1@, kzg.g2@, fsub(ps, v), fsub(ps, claimed)));
    if fsub(ps, v) == fsub(ps, claimed) {
        lemma_fsub_injective(ps, v, claimed);
    }
}

/// An honest batch opening is accepted: for a polynomial that fits the
/// reference string and points that can be interpolated through, fewer than
/// the reference string has elements, the proof that `multi_open` makes
/// verifies the polynomial's values at the points against the commitment that
/// `commit` makes.
pub proof fn law_batch_opening_verifies(kzg: KZG, secret: nat, p: Seq<nat>, pts: Seq<nat>)
    requires
        curve_laws(),
        kzg.wf(),
        kzg.is_setup_with(secret),
        is_elem(secret),
        is_poly(p),
        p.len() <= kzg.degree + 1,
        is_poly(pts),
        pts.len() <= kzg.degree,
        interpolable(pts),
    ensures
        kzg.accepts_batch(
            pts,
            evaluations(p, pts),
            kzg.commitment(p),
            kzg.commitment(batch_quotient(p, pts)),
        ),
{
    reveal(curve_laws);
    let g1 = kzg.g1@;
    let g2 = kzg.g2@;
    let size = (kzg.degree + 1) as nat;
    let vals = evaluations(p, pts);
    let lagrange = poly_interpolate(pts, vals);
    let vanishing = vanishing_poly(pts);
    let num = poly_sub(p, lagrange);
    let quot = batch_quotient(p, pts);
    kzg.g1.lemma_wf();
    kzg.g2.lemma_wf();
    assert forall|k: int| 0 <= k < num.len() implies is_elem(#[trigger] num[k]) by {
        lemma_field_ops_cong(coeff(p, k), coeff(lagrange, k));
    }
    lemma_interpolation_sum_is_poly(pts, vals, pts.len());
    lemma_interpolation_sum_len(pts, vals, pts.len());
    lemma_vanishing_poly(pts);
    lemma_basis_numerator_is_poly(pts, -1, pts.len());
    lemma_basis_numerator_len(pts, -1, pts.len());
    lemma_division(num, vanishing);
    lemma_commitment_is_value(g1, secret, size, p);
    lemma_commitment_is_value(g1, secret, size, quot);
    lemma_commitment_is_value(g1, secret, size, lagrange);
    lemma_commitment_is_value_g2(g2, secret, size, vanishing);
    law_batch_quotient(p, pts, secret);
    let qs = poly_eval(quot, secret);
    let ps = poly_eval(p, secret);
    let ls = poly_eval(lagrange, secret);
    let zs = poly_eval(vanishing, secret);
    lemma_eval_elem(quot, secret);
    lemma_eval_elem(p, secret);
    lemma_eval_elem(lagrange, secret);
    lemma_eval_elem(vanishing, secret);
    let pi = g1_scaled(g1, qs);
    assert(g1_valid(pi));
    assert(pairing_value(pi, g2_scaled(g2, zs)) == pairing_value(g1_scaled(pi, zs), g2));
    assert(g1_scaled(g1_scaled(g1, qs), zs) == g1_scaled(g1, fmul(qs, zs)));
    assert(g1_diff(g1_scaled(g1, ps), g1_scaled(g1, ls)) == g1_scaled(g1, fsub(ps, ls)));
}

/// The values at `s` of the basis polynomials of the domain of `n` points.
pub open spec fn basis_values(n: nat, s: nat) -> Seq<nat> {
    Seq::new(n, |i: int| poly_eval(lagrange_basis(n, i as nat), s))
}

/// The mix of the basis polynomials' values, written as a sum of products.
proof fn lemma_dot_sum_of_basis(n: nat, vector: Seq<nat>, s: nat, m: nat)
    requires
        m <= n,
        m <= vector.len(),
    ensures
        dot_sum(basis_values(n, s), vector, m) == mix_value(n, vector, s, m),
    decreases m,
{
    if m > 0 {
        lemma_dot_sum_of_basis(n, vector, s, (m - 1) as nat);
    }
}

/// Under keys made from `secret` for a good domain, the commitment to a
/// vector is the generator times the value at the secret of the polynomial
/// through the vector.
pub proof fn lemma_vector_commitment_is_value(
    asvc: ASVC,
    g1: Seq<u8>,
    g2: Seq<u8>,
    secret: nat,
    vector: Seq<nat>,
)
    requires
        curve_laws(),
        g1_valid(g1),
        is_elem(secret),
        asvc.wf(),
        asvc.is_generated_from(g1, g2, secret),
        good_domain(asvc.degree as nat),
        interpolable(domain(asvc.degree as nat)),
        is_poly(vector),
        vector.len() == asvc.degree,
    ensures
        asvc.vector_commitment(vector) == g1_scaled(
            g1,
            poly_eval(poly_interpolate(domain(asvc.degree as nat), vector), secret),
        ),
        g1_scaled(asvc.base(), 0) == g1_scaled(g1, 0),
{
    reveal(curve_laws);
    let n = asvc.degree as nat;
    let crs = g1_powers(g1, secret, n + 1);
    let li = g1_views(asvc.proving_key.li_commitment@);
    let e = basis_values(n, secret);
    assert(g1_views(asvc.proving_key.crs.g1@)[0] == crs[0]);
    assert(asvc.base() == g1_scaled(g1, 1));
    assert(1nat * 0nat == 0) by (nonlinear_arith);
    assert(g1_scaled(g1_scaled(g1, 1), 0) == g1_scaled(g1, fmul(1, 0)));
    assert forall|i: int| 0 <= i < n implies is_elem(#[trigger] e[i]) by {
        lemma_eval_elem(lagrange_basis(n, i as nat), secret);
    }
    assert forall|i: int| 0 <= i < n implies #[trigger] li[i] == g1_scaled(g1, e[i]) by {
        lemma_basis_on_domain(n, i as nat, 0);
        lemma_commitment_is_value(g1, secret, n + 1, lagrange_basis(n, i as nat));
        assert(li[i] == asvc.proving_key.li_commitment@[i]@);
    }
    lemma_g1_combination_of_multiples(g1, asvc.base(), li, e, vector, n);
    lemma_dot_sum_of_basis(n, vector, secret, n);
    lemma_mix_is_interpolation(n, vector, secret);
}

/// What the check of a proof for positions comes to: under keys made from a
/// secret for a good domain, `g1` times `t` is accepted as a proof where `t`
/// times the value at the secret of the polynomial that vanishes at the
/// positions' points is the value there of the polynomial through the vector,
/// less that of the polynomial through the entries at the positions.
pub proof fn lemma_position_check(
    asvc: ASVC,
    g1: Seq<u8>,
    g2: Seq<u8>,
    secret: nat,
    vector: Seq<nat>,
    indices: Seq<usize>,
    t: nat,
)
    requires
        curve_laws(),
        g1_valid(g1),
        g2_valid(g2),
        is_elem(secret),
        asvc.wf(),
        asvc.is_generated_from(g1, g2, secret),
        good_domain(asvc.degree as nat),
        interpolable(domain(asvc.degree as nat)),
        is_poly(vector),
        vector.len() == asvc.degree,
        indices.len() <= asvc.degree,
        forall|k: int| 0 <= k < indices.len() ==> #[trigger] indices[k] < asvc.degree,
        interpolable(index_points(asvc.degree as nat, indices)),
        is_elem(t),
        fmul(t, poly_eval(vanishing_poly(index_points(asvc.degree as nat, indices)), secret))
            == fsub(
            poly_eval(poly_interpolate(domain(asvc.degree as nat), vector), secret),
            poly_eval(
                poly_interpolate(
                    index_points(asvc.degree as nat, indices),
                    subvector(vector, indices),
                ),
                secret,
            ),
        ),
    ensures
        asvc.accepts(
            asvc.vector_commitment(vector),
            indices,
            subvector(vector, indices),
            g1_scaled(g1, t),
        ),
{
    reveal(curve_laws);
    let n = asvc.degree as nat;
    let size = n + 1;
    let dom = domain(n);
    let points = index_points(n, indices);
    let sub = subvector(vector, indices);
    let whole = poly_interpolate(dom, vector);
    let part = poly_interpolate(points, sub);
    let vanishing = vanishing_poly(points);
    let crs1 = g1_powers(g1, secret, size);
    let crs2 = g2_powers(g2, secret, size);
    let b0 = asvc.base();
    let h0 = asvc.verification_key.crs.g2@[0]@;
    lemma_vector_commitment_is_value(asvc, g1, g2, secret, vector);
    assert(g1_views(asvc.verification_key.crs.g1@)[0] == crs1[0]);
    assert(g2_views(asvc.verification_key.crs.g2@)[0] == crs2[0]);
    assert(asvc.verification_key.crs.g1@[0]@ == b0);
    assert(h0 == g2_scaled(g2, 1));
    assert(1nat * 0nat == 0) by (nonlinear_arith);
    assert(g2_scaled(g2_scaled(g2, 1), 0) == g2_scaled(g2, fmul(1, 0)));
    assert forall|k: int| 0 <= k < points.len() implies is_elem(#[trigger] points[k]) by {
        lemma_fpow_cong(root_of_unity(n), indices[k] as nat);
    }
    assert forall|k: int| 0 <= k < sub.len() implies is_elem(#[trigger] sub[k]) by {
        assert(indices[k] < n);
    }
    lemma_interpolation_sum_is_poly(points, sub, points.len());
    lemma_interpolation_sum_len(points, sub, points.len());
    lemma_basis_numerator_is_poly(points, -1, points.len());
    lemma_basis_numerator_len(points, -1, points.len());
    lemma_commitment_from(g1, b0, secret, size, part);
    lemma_commitment_from_g2(g2, h0, secret, size, vanishing);
    let ws = poly_eval(whole, secret);
    let rs = poly_eval(part, secret);
    let zs = poly_eval(vanishing, secret);
    lemma_eval_elem(whole, secret);
    lemma_eval_elem(part, secret);
    lemma_eval_elem(vanishing, secret);
    lemma_field_ops_cong(ws, rs);
    let pi = g1_scaled(g1, t);
    let lowered = g1_scaled(g1, fsub(ws, rs));
    assert(g1_valid(pi));
    assert(g1_valid(lowered));
    assert(pairing_value(pi, g2_scaled(g2, zs)) == pairing_value(g1_scaled(pi, zs), g2));
    assert(g1_scaled(g1_scaled(g1, t), zs) == g1_scaled(g1, fmul(t, zs)));
    assert(g1_diff(g1_scaled(g1, ws), g1_scaled(g1, rs)) == lowered);
    assert(pairing_value(lowered, g2_scaled(g2, 1)) == pairing_value(g1_scaled(lowered, 1), g2));
    assert(g1_scaled(g1_scaled(g1, fsub(ws, rs)), 1) == g1_scaled(g1, fmul(fsub(ws, rs), 1)));
    lemma_identities(fsub(ws, rs));
}

/// The proof for positions is the generator times the value of its quotient
/// at the secret.
pub proof fn lemma_position_proof_is_value(
    asvc: ASVC,
    g1: Seq<u8>,
    g2: Seq<u8>,
    secret: nat,
    vector: Seq<nat>,
    indices: Seq<usize>,
)
    requires
        curve_laws(),
        g1_valid(g1),
        is_elem(secret),
        asvc.wf(),
        asvc.is_generated_from(g1, g2, secret),
        good_domain(asvc.degree as nat),
        interpolable(domain(asvc.degree as nat)),
        is_poly(vector),
        vector.len() == asvc.degree,
        forall|k: int| 0 <= k < indices.len() ==> #[trigger] indices[k] < asvc.degree,
    ensures
        commit_to(
            asvc.base(),
            g1_views(asvc.proving_key.crs.g1@),
            asvc.position_quotient(indices, vector),
        ) == g1_scaled(g1, poly_eval(asvc.position_quotient(indices, vector), secret)),
        is_elem(poly_eval(asvc.position_quotient(indices, vector), secret)),
{
    reveal(curve_laws);
    let n = asvc.degree as nat;
    let dom = domain(n);
    let points = index_points(n, indices);
    let whole = poly_interpolate(dom, vector);
    let vanishing = vanishing_poly(points);
    let quot = poly_div(whole, vanishing);
    lemma_vector_commitment_is_value(asvc, g1, g2, secret, vector);
    assert forall|k: int| 0 <= k < points.len() implies is_elem(#[trigger] points[k]) by {
        lemma_fpow_cong(root_of_unity(n), indices[k] as nat);
    }
    lemma_interpolation_sum_is_poly(dom, vector, dom.len());
    lemma_interpolation_sum_len(dom, vector, dom.len());
    lemma_vanishing_poly(points);
    lemma_basis_numerator_len(points, -1, points.len());
    lemma_division(whole, vanishing);
    lemma_commitment_from(g1, asvc.base(), secret, n + 1, quot);
    lemma_eval_elem(quot, secret);
}

/// An honest proof of positions is accepted: under keys made from a secret
/// for a good domain, the proof that `prove_position` makes for positions
/// whose points can be interpolated through verifies the vector's entries at
/// those positions against the commitment that `vector_commit` makes.
pub proof fn law_position_proof_verifies(
    asvc: ASVC,
    g1: Seq<u8>,
    g2: Seq<u8>,
    secret: nat,
    vector: Seq<nat>,
    indices: Seq<usize>,
)
    requires
        curve_laws(),
        g1_valid(g1),
        g2_valid(g2),
        is_elem(secret),
        asvc.wf(),
        asvc.is_generated_from(g1, g2, secret),
        good_domain(asvc.degree as nat),
        interpolable(domain(asvc.degree as nat)),
        is_poly(vector),
        vector.len() == asvc.degree,
        indices.len() <= asvc.degree,
        forall|k: int| 0 <= k < indices.len() ==> #[trigger] indices[k] < asvc.degree,
        interpolable(index_points(asvc.degree as nat, indices)),
    ensures
        asvc.accepts(
            asvc.vector_commitment(vector),
            indices,
            subvector(vector, indices),
            commit_to(
                asvc.base(),
                g1_views(asvc.proving_key.crs.g1@),
                asvc.position_quotient(indices, vector),
            ),
        ),
{
    let n = asvc.degree as nat;
    lemma_position_proof_is_value(asvc, g1, g2, secret, vector, indices);
    law_position_quotient(n, indices, vector, secret);
    lemma_position_check(
        asvc,
        g1,
        g2,
        secret,
        vector,
        indices,
        poly_eval(asvc.position_quotient(indices, vector), secret),
    );
}

/// An honest proof of positions is accepted: under keys made from a secret
/// for vectors of as many entries as a power of two up to `2^32`, the proof
/// that `prove_position` makes for distinct positions of a vector verifies
/// the vector's entries at those positions against the commitment that
/// `vector_commit` makes.
pub proof fn law_subvector_proof_verifies(
    asvc: ASVC,
    g1: Seq<u8>,
    g2: Seq<u8>,
    secret: nat,
    vector: Seq<nat>,
    indices: Seq<usize>,
)
    requires
        curve_laws(),
        g1_valid(g1),
        g2_valid(g2),
        is_elem(secret),
        asvc.wf(),
        asvc.is_generated_from(g1, g2, secret),
        is_power_of_two(asvc.degree as nat),
        is_poly(vector),
        vector.len() == asvc.degree,
        distinct_positions(indices, asvc.degree as nat),
    ensures
        interpolable(domain(asvc.degree as nat)),
        interpolable(index_points(asvc.degree as nat, indices)),
        indices.len() <= asvc.degree,
        asvc.accepts(
            asvc.vector_commitment(vector),
            indices,
            subvector(vector, indices),
            commit_to(
                asvc.base(),
                g1_views(asvc.proving_key.crs.g1@),
                asvc.position_quotient(indices, vector),
            ),
        ),
{
    let n = asvc.degree as nat;
    lemma_power_of_two_domain(n);
    lemma_positions_interpolable(n, indices);
    lemma_positions_count(indices, n);
    law_position_proof_verifies(asvc, g1, g2, secret, vector, indices);
}

/// Aggregating one proof changes nothing: for one position, `aggregate_proofs`
/// gives the proof it was given, so that the aggregate verifies as that proof
/// does.
pub proof fn law_aggregate_of_one(
    asvc: ASVC,
    g1: Seq<u8>,
    g2: Seq<u8>,
    secret: nat,
    vector: Seq<nat>,
    position: usize,
)
    requires
        curve_laws(),
        g1_valid(g1),
        g2_valid(g2),
        is_elem(secret),
        asvc.wf(),
        asvc.is_generated_from(g1, g2, secret),
        is_power_of_two(asvc.degree as nat),
        is_poly(vector),
        vector.len() == asvc.degree,
        position < asvc.degree,
    ensures
        ({
            let indices = seq![position];
            let proof_of_one = commit_to(
                asvc.base(),
                g1_views(asvc.proving_key.crs.g1@),
                asvc.position_quotient(indices, vector),
            );
            let aggregate = g1_combination(
                asvc.base(),
                seq![proof_of_one],
                asvc.aggregation_weights(indices),
                1,
            );
            &&& aggregate == proof_of_one
            &&& asvc.accepts(
                asvc.vector_commitment(vector),
                indices,
                subvector(vector, indices),
                aggregate,
            )
        }),
{
    reveal(curve_laws);
    let n = asvc.degree as nat;
    let size = n + 1;
    let indices = seq![position];
    let points = index_points(n, indices);
    let whole = poly_interpolate(domain(n), vector);
    let vanishing = vanishing_poly(points);
    let quot = poly_div(whole, vanishing);
    let b0 = asvc.base();
    let proof_of_one = commit_to(b0, g1_views(asvc.proving_key.crs.g1@), quot);
    let weights = asvc.aggregation_weights(indices);
    assert(distinct_positions(indices, n));
    law_subvector_proof_verifies(asvc, g1, g2, secret, vector, indices);
    lemma_power_of_two_domain(n);
    lemma_vector_commitment_is_value(asvc, g1, g2, secret, vector);
    assert forall|k: int| 0 <= k < points.len() implies is_elem(#[trigger] points[k]) by {
        lemma_fpow_cong(root_of_unity(n), indices[k] as nat);
    }
    lemma_interpolation_sum_is_poly(domain(n), vector, n);
    lemma_interpolation_sum_len(domain(n), vector, n);
    lemma_vanishing_poly(points);
    lemma_basis_numerator_len(points, -1, points.len());
    lemma_division(whole, vanishing);
    lemma_commitment_from(g1, b0, secret, size, quot);
    // the one weight is one: the derivative of `X - x` is the constant one
    let derived = derivative(vanishing);
    lemma_basis_numerator_monic(points, -1, points.len());
    assert(vanishing.len() == 2);
    assert(vanishing[1] == 1);
    assert(1nat * 1nat == 1) by (nonlinear_arith);
    assert(derived =~= seq![1nat]);
    lemma_eval_constant(derived, points[0]);
    assert(weights[0] == 1);
    let qs = poly_eval(quot, secret);
    lemma_eval_elem(quot, secret);
    lemma_identities(qs);
    assert(g1_scaled(g1_scaled(g1, qs), 1) == g1_scaled(g1, fmul(qs, 1)));
    assert(g1_sum(g1_scaled(g1, 0), g1_scaled(g1, qs)) == g1_scaled(
        g1,
        fadd(0, qs),
    ));
    let aggregate = g1_combination(b0, seq![proof_of_one], weights, 1);
    assert(aggregate == g1_sum(
        g1_combination(b0, seq![proof_of_one], weights, 0),
        g1_scaled(seq![proof_of_one][0], weights[0]),
    ));
}

/// The proofs for each of the positions alone.
pub open spec fn single_proofs(asvc: ASVC, indices: Seq<usize>, vector: Seq<nat>) -> Seq<Seq<u8>> {
    Seq::new(
        indices.len(),
        |k: int|
            commit_to(
                asvc.base(),
                g1_views(asvc.proving_key.crs.g1@),
                asvc.position_quotient(seq![indices[k]], vector),
            ),
    )
}

/// When an aggregate of proofs is accepted: under keys made from a secret for
/// vectors of as many entries as a power of two up to `2^32`, the proof that
/// `aggregate_proofs` makes of the proofs for each of some distinct positions
/// verifies the vector's entries at those positions, as the proof that
/// `prove_position` makes for them does, where the weights of the aggregation
/// give the same sum as the partial-fraction weights.
pub proof fn law_aggregate_verifies(
    asvc: ASVC,
    g1: Seq<u8>,
    g2: Seq<u8>,
    secret: nat,
    vector: Seq<nat>,
    indices: Seq<usize>,
)
    requires
        curve_laws(),
        g1_valid(g1),
        g2_valid(g2),
        is_elem(secret),
        asvc.wf(),
        asvc.is_generated_from(g1, g2, secret),
        is_power_of_two(asvc.degree as nat),
        is_poly(vector),
        vector.len() == asvc.degree,
        distinct_positions(indices, asvc.degree as nat),
        indices.len() >= 1,
        dot_sum(
            single_quotient_values(asvc.degree as nat, indices, vector, secret),
            asvc.aggregation_weights(indices),
            indices.len(),
        ) == dot_sum(
            single_quotient_values(asvc.degree as nat, indices, vector, secret),
            partial_fraction_weights(index_points(asvc.degree as nat, indices)),
            indices.len(),
        ),
    ensures
        asvc.accepts(
            asvc.vector_commitment(vector),
            indices,
            subvector(vector, indices),
            g1_combination(
                asvc.base(),
                single_proofs(asvc, indices, vector),
                asvc.aggregation_weights(indices),
                indices.len(),
            ),
        ),
{
    let n = asvc.degree as nat;
    let m = indices.len();
    let points = index_points(n, indices);
    let qs = single_quotient_values(n, indices, vector, secret);
    let weights = asvc.aggregation_weights(indices);
    let proofs = single_proofs(asvc, indices, vector);
    lemma_power_of_two_domain(n);
    lemma_positions_interpolable(n, indices);
    lemma_positions_count(indices, n);
    lemma_vector_commitment_is_value(asvc, g1, g2, secret, vector);
    assert forall|k: int| 0 <= k < m implies is_elem(#[trigger] qs[k]) && #[trigger] proofs[k]
        == g1_scaled(g1, qs[k]) by {
        let one = seq![indices[k]];
        assert(indices[k] < n);
        lemma_position_proof_is_value(asvc, g1, g2, secret, vector, one);
    }
    assert forall|k: int| 0 <= k < m implies is_elem(#[trigger] weights[k]) by {
        lemma_eval_elem(derivative(vanishing_poly(points)), points[k]);
    }
    assert(g1_is_module()) by {
        reveal(curve_laws);
    }
    lemma_g1_combination_of_multiples(g1, asvc.base(), proofs, qs, weights, m);
    let t = dot_sum(qs, weights, m);
    lemma_dot_sum_elem(qs, weights, m);
    law_partial_fractions(n, indices, vector, secret);
    lemma_position_check(asvc, g1, g2, secret, vector, indices, t);
}

} // verus!
