//! An aggregatable subvector commitment: a commitment to a vector, proofs for
//! any set of its positions, and one proof made of several. The vector's
//! entries are the values of a polynomial at the powers of a root of unity.

use vstd::prelude::*;
use crate::combination::{
    all_g1_wf, all_g2_wf, combine_g1, combine_g2, copy_g1, copy_g2, g1_combination, g1_powers,
    g1_views, g2_combination, g2_powers, g2_views, powers_g1, powers_g2,
};
use crate::error::Error;
use crate::group::{g1_diff, g1_sub, G1Point, G2Point, pairing, pairing_value};
use crate::poly::{
    all_wf, interpolable, lemma_basis_numerator_len, lemma_basis_numerator_monic,
    lemma_effective_len_zero, lemma_interpolation_sum_len, linear_factor, opening_numerator,
    poly_div, poly_eval, poly_interpolate, poly_scale, root_of_unity, values, vanishing_poly,
};
use crate::scalar::{finv, fmul, fpow, fsub, lemma_finv_is, Scalar};
use crate::utils::{
    copy_vector, evaluate, get_root_of_unity, interpolate, linear, product_of_factors, quotient,
    scalar_mul, zero_vector,
};

verus! {

/// The reference string: a generator of each group times the powers of the
/// secret.
#[derive(Clone)]
pub struct CRS {
    pub g1: Vec<G1Point>,
    pub g2: Vec<G2Point>,
}

/// For each position, the commitments that an update of that position would
/// need. Nothing in this library uses them yet.
#[derive(Clone)]
pub struct UpdateKey {
    pub ai_commitment: Vec<G1Point>,
    pub ui_commitment: Vec<G1Point>,
}

/// What proving needs: the reference string, the update key and, for each
/// position, the commitment to its Lagrange basis polynomial.
pub struct ProvingKey {
    pub crs: CRS,
    pub update_key: UpdateKey,
    pub li_commitment: Vec<G1Point>,
}

/// What verifying needs: the reference string and the commitment to
/// `X^degree - 1`.
pub struct VerificationKey {
    pub crs: CRS,
    pub a_commitment: G1Point,
}

/// The keys of the scheme for vectors of `degree` entries.
pub struct ASVC {
    pub degree: usize,
    pub update_key: UpdateKey,
    pub proving_key: ProvingKey,
    pub verification_key: VerificationKey,
}

/// The polynomial `X^n - 1`, which vanishes at the `n`-th roots of unity.
pub open spec fn domain_vanishing(n: nat) -> Seq<nat> {
    Seq::new(
        n + 1,
        |k: int|
            if k == n {
                1nat
            } else if k == 0 {
                fsub(0, 1)
            } else {
                0nat
            },
    )
}

/// The point of the domain that stands for position `i` of a vector of `n`
/// entries: the `i`-th power of the domain's root of unity.
pub open spec fn domain_point(n: nat, i: nat) -> nat {
    fpow(root_of_unity(n), i)
}

/// `X^n - 1` divided by `X - w^i`.
pub open spec fn vanishing_quotient(n: nat, i: nat) -> Seq<nat> {
    poly_div(domain_vanishing(n), linear_factor(domain_point(n, i)))
}

/// The Lagrange basis polynomial of position `i`: `(X^n - 1) / (X - w^i)`
/// times `w^i / n`.
pub open spec fn lagrange_basis(n: nat, i: nat) -> Seq<nat> {
    poly_scale(vanishing_quotient(n, i), fmul(domain_point(n, i), finv(n)))
}

/// The quotient that opens the basis polynomial of position `i` at its own
/// point: that polynomial less one, divided by `X - w^i`.
pub open spec fn basis_opening(n: nat, i: nat) -> Seq<nat> {
    poly_div(opening_numerator(lagrange_basis(n, i), 1), linear_factor(domain_point(n, i)))
}

/// The points of the domain that stand for the given positions, in their
/// order.
pub open spec fn index_points(n: nat, indices: Seq<usize>) -> Seq<nat> {
    Seq::new(indices.len(), |k: int| domain_point(n, indices[k] as nat))
}

/// All points of the domain of a vector of `n` entries, by position.
pub open spec fn domain(n: nat) -> Seq<nat> {
    Seq::new(n, |i: int| domain_point(n, i as nat))
}

/// The entries of a vector at the given positions, in their order.
pub open spec fn subvector(vector: Seq<nat>, indices: Seq<usize>) -> Seq<nat> {
    Seq::new(indices.len(), |k: int| vector[indices[k] as int])
}

/// The formal derivative of a polynomial.
pub open spec fn derivative(p: Seq<nat>) -> Seq<nat> {
    Seq::new(
        if p.len() == 0 {
            0
        } else {
            (p.len() - 1) as nat
        },
        |i: int| fmul(p[i + 1], (i + 1) as nat),
    )
}

impl CRS {
    /// Every element is a point of its group.
    pub open spec fn wf(&self) -> bool {
        all_g1_wf(self.g1@) && all_g2_wf(self.g2@)
    }

    /// The string is the one that the generators and `secret` give, up to the
    /// power `degree`.
    pub open spec fn is_made_from(&self, g1: Seq<u8>, g2: Seq<u8>, secret: nat, degree: nat) -> bool {
        &&& g1_views(self.g1@) == g1_powers(g1, secret, degree + 1)
        &&& g2_views(self.g2@) == g2_powers(g2, secret, degree + 1)
    }

    /// A reference string with the same elements.
    pub fn duplicate(&self) -> (r: CRS)
        ensures
            r.g1@ == self.g1@,
            r.g2@ == self.g2@,
    {
        CRS { g1: copy_g1(&self.g1), g2: copy_g2(&self.g2) }
    }
}

impl UpdateKey {
    /// Every element is a point of G1.
    pub open spec fn wf(&self) -> bool {
        all_g1_wf(self.ai_commitment@) && all_g1_wf(self.ui_commitment@)
    }

    /// An update key with the same elements.
    pub fn duplicate(&self) -> (r: UpdateKey)
        ensures
            r.ai_commitment@ == self.ai_commitment@,
            r.ui_commitment@ == self.ui_commitment@,
    {
        UpdateKey {
            ai_commitment: copy_g1(&self.ai_commitment),
            ui_commitment: copy_g1(&self.ui_commitment),
        }
    }
}

/// The commitments for position `i`: to `(X^n - 1) / (X - w^i)`, to the
/// Lagrange basis polynomial, and to the quotient that opens the latter at
/// `w^i`. `n_inv` is the inverse of `n`.
pub fn index_commitments(
    g1: &G1Point,
    crs_g1: &Vec<G1Point>,
    degree: usize,
    i: usize,
    omega: &Scalar,
    n_inv: &Scalar,
) -> (r: (G1Point, G1Point, G1Point))
    requires
        g1.wf(),
        all_g1_wf(crs_g1@),
        crs_g1@.len() == degree + 1,
        degree < usize::MAX,
        i < degree,
        omega.wf(),
        omega@ == root_of_unity(degree as nat),
        n_inv.wf(),
        n_inv@ == finv(degree as nat),
    ensures
        r.0.wf(),
        r.1.wf(),
        r.2.wf(),
        r.0@ == commit_to(g1@, g1_views(crs_g1@), vanishing_quotient(degree as nat, i as nat)),
        r.1@ == commit_to(g1@, g1_views(crs_g1@), lagrange_basis(degree as nat, i as nat)),
        r.2@ == commit_to(g1@, g1_views(crs_g1@), basis_opening(degree as nat, i as nat)),
{
    let mut ai_numerator = zero_vector(degree + 1);
    ai_numerator.set(0, Scalar::one().neg());
    ai_numerator.set(degree, Scalar::one());
    assert(values(ai_numerator@) =~= domain_vanishing(degree as nat));
    let point = omega.pow(i as u64);
    let ai_denominator = linear(&point);
    assert(values(ai_denominator@)[1] == 1);
    proof {
        lemma_effective_len_zero(values(ai_denominator@));
    }
    let ai_polynomial = quotient(ai_numerator.as_slice(), ai_denominator.as_slice());
    let li_polynomial = scalar_mul(ai_polynomial.as_slice(), point.mul(n_inv));
    assert(values(ai_polynomial@).len() == ai_polynomial@.len());
    assert(values(li_polynomial@).len() == li_polynomial@.len());
    let mut ui_numerator = copy_vector(li_polynomial.as_slice());
    ui_numerator.set(0, li_polynomial[0].sub(&Scalar::one()));
    assert(values(ui_numerator@) =~= opening_numerator(values(li_polynomial@), 1));
    let ui_polynomial = quotient(ui_numerator.as_slice(), ai_denominator.as_slice());
    assert(values(ui_polynomial@).len() == ui_polynomial@.len());
    let ai = combine_g1(g1, crs_g1, ai_polynomial.as_slice());
    let li = combine_g1(g1, crs_g1, li_polynomial.as_slice());
    let ui = combine_g1(g1, crs_g1, ui_polynomial.as_slice());
    (ai, li, ui)
}

/// The commitment to a polynomial under a reference string in G1, starting
/// from `base` times zero.
pub open spec fn commit_to(base: Seq<u8>, crs: Seq<Seq<u8>>, poly: Seq<nat>) -> Seq<u8> {
    g1_combination(base, crs, poly, poly.len())
}

/// The powers of `omega` that stand for the given positions.
pub fn points_of_indices(omega: &Scalar, indices: &[usize], degree: usize) -> (r: Vec<Scalar>)
    requires
        omega.wf(),
        omega@ == root_of_unity(degree as nat),
    ensures
        all_wf(r@),
        r@.len() == indices@.len(),
        values(r@) == index_points(degree as nat, indices@),
{
    let mut r: Vec<Scalar> = Vec::new();
    let mut k: usize = 0;
    while k < indices.len()
        invariant
            k <= indices@.len(),
            omega.wf(),
            omega@ == root_of_unity(degree as nat),
            all_wf(r@),
            r@.len() == k,
            forall|j: int|
                0 <= j < k ==> (#[trigger] r@[j])@ == domain_point(
                    degree as nat,
                    indices@[j] as nat,
                ),
        decreases indices@.len() - k,
    {
        r.push(omega.pow(indices[k] as u64));
        k += 1;
    }
    assert(values(r@) =~= index_points(degree as nat, indices@));
    r
}

/// The powers of `omega` from 0 up to `degree - 1`.
pub fn points_of_domain(omega: &Scalar, degree: usize) -> (r: Vec<Scalar>)
    requires
        omega.wf(),
        omega@ == root_of_unity(degree as nat),
    ensures
        all_wf(r@),
        r@.len() == degree,
        values(r@) == domain(degree as nat),
{
    let mut r: Vec<Scalar> = Vec::new();
    let mut i: usize = 0;
    while i < degree
        invariant
            i <= degree,
            omega.wf(),
            omega@ == root_of_unity(degree as nat),
            all_wf(r@),
            r@.len() == i,
            forall|j: int| 0 <= j < i ==> (#[trigger] r@[j])@ == domain_point(degree as nat, j as nat),
        decreases degree - i,
    {
        r.push(omega.pow(i as u64));
        i += 1;
    }
    assert(values(r@) =~= domain(degree as nat));
    r
}

/// The formal derivative of a polynomial.
pub fn differentiate(p: &[Scalar]) -> (r: Vec<Scalar>)
    requires
        all_wf(p@),
    ensures
        all_wf(r@),
        values(r@) == derivative(values(p@)),
{
    let mut r: Vec<Scalar> = Vec::new();
    let mut i: usize = 1;
    while i < p.len()
        invariant
            1 <= i,
            i <= p@.len() || i == 1,
            all_wf(p@),
            all_wf(r@),
            r@.len() == i - 1,
            forall|j: int| 0 <= j < i - 1 ==> (#[trigger] r@[j])@ == fmul(p@[j + 1]@, (j + 1) as nat),
        decreases p@.len() - i,
    {
        r.push(p[i].mul(&Scalar::from_u64(i as u64)));
        i += 1;
    }
    assert(values(r@) =~= derivative(values(p@)));
    r
}

impl ASVC {
    /// Every group element held is a point of its group, and there are as
    /// many of each kind as the degree asks for.
    pub open spec fn wf(&self) -> bool {
        &&& self.degree < usize::MAX
        &&& self.proving_key.crs.wf()
        &&& self.verification_key.crs.wf()
        &&& self.update_key.wf()
        &&& self.proving_key.update_key.wf()
        &&& self.verification_key.a_commitment.wf()
        &&& all_g1_wf(self.proving_key.li_commitment@)
        &&& self.proving_key.crs.g1@.len() == self.degree + 1
        &&& self.proving_key.crs.g2@.len() == self.degree + 1
        &&& self.verification_key.crs.g1@.len() == self.degree + 1
        &&& self.verification_key.crs.g2@.len() == self.degree + 1
        &&& self.proving_key.li_commitment@.len() == self.degree
        &&& self.update_key.ai_commitment@.len() == self.degree
        &&& self.update_key.ui_commitment@.len() == self.degree
    }

    /// The keys are the ones that the generators and `secret` give.
    pub open spec fn is_generated_from(&self, g1: Seq<u8>, g2: Seq<u8>, secret: nat) -> bool {
        let n = self.degree as nat;
        let crs = g1_powers(g1, secret, n + 1);
        &&& self.proving_key.crs.is_made_from(g1, g2, secret, n)
        &&& self.verification_key.crs.is_made_from(g1, g2, secret, n)
        &&& self.verification_key.a_commitment@ == g1_diff(crs[n as int], crs[0])
        &&& self.proving_key.update_key.ai_commitment@ == self.update_key.ai_commitment@
        &&& self.proving_key.update_key.ui_commitment@ == self.update_key.ui_commitment@
        &&& forall|i: int|
            0 <= i < n ==> (#[trigger] self.update_key.ai_commitment@[i])@ == commit_to(
                g1,
                crs,
                vanishing_quotient(n, i as nat),
            )
        &&& forall|i: int|
            0 <= i < n ==> (#[trigger] self.proving_key.li_commitment@[i])@ == commit_to(
                g1,
                crs,
                lagrange_basis(n, i as nat),
            )
        &&& forall|i: int|
            0 <= i < n ==> (#[trigger] self.update_key.ui_commitment@[i])@ == commit_to(
                g1,
                crs,
                basis_opening(n, i as nat),
            )
    }

    /// The zero of G1 that sums in this scheme start from: the first element
    /// of the reference string times zero.
    pub open spec fn base(&self) -> Seq<u8> {
        self.proving_key.crs.g1@[0]@
    }

    /// The commitment to a vector: each basis commitment times the entry at
    /// its position, added up.
    pub open spec fn vector_commitment(&self, vector: Seq<nat>) -> Seq<u8> {
        g1_combination(
            self.base(),
            g1_views(self.proving_key.li_commitment@),
            vector,
            vector.len(),
        )
    }

    /// The quotient behind a proof for the given positions: the polynomial
    /// through the whole vector, divided by the polynomial that vanishes at
    /// the positions' points.
    pub open spec fn position_quotient(&self, indices: Seq<usize>, vector: Seq<nat>) -> Seq<nat> {
        let n = self.degree as nat;
        poly_div(poly_interpolate(domain(n), vector), vanishing_poly(index_points(n, indices)))
    }

    /// Whether a proof is accepted for `subvector` at `indices`.
    pub open spec fn accepts(
        &self,
        commitment: Seq<u8>,
        indices: Seq<usize>,
        subvector: Seq<nat>,
        pi: Seq<u8>,
    ) -> bool {
        let n = self.degree as nat;
        let points = index_points(n, indices);
        let denominator = vanishing_poly(points);
        let remainder = poly_interpolate(points, subvector);
        let crs = self.verification_key.crs;
        pairing_value(
            pi,
            g2_combination(crs.g2@[0]@, g2_views(crs.g2@), denominator, denominator.len()),
        ) == pairing_value(
            g1_diff(commitment, commit_to(crs.g1@[0]@, g1_views(crs.g1@), remainder)),
            crs.g2@[0]@,
        )
    }

    /// The weights of an aggregation: the derivative of the polynomial that
    /// vanishes at the positions' points, at each of those points.
    pub open spec fn aggregation_weights(&self, indices: Seq<usize>) -> Seq<nat> {
        let points = index_points(self.degree as nat, indices);
        Seq::new(
            indices.len(),
            |k: int| poly_eval(derivative(vanishing_poly(points)), points[k]),
        )
    }

    /// Makes the keys for vectors of `degree` entries from a secret: the
    /// reference string, the commitment to `X^degree - 1`, and for each
    /// position the commitments of `index_commitments`.
    pub fn key_gen(g1: G1Point, g2: G2Point, degree: usize, secret: Scalar) -> (r: ASVC)
        requires
            g1.wf(),
            g2.wf(),
            secret.wf(),
            degree < usize::MAX,
        ensures
            r.wf(),
            r.degree == degree,
            r.is_generated_from(g1@, g2@, secret@),
    {
        let crs_g1 = powers_g1(&g1, &secret, degree + 1);
        let crs_g2 = powers_g2(&g2, &secret, degree + 1);
        let a_commitment = g1_sub(&crs_g1[degree], &crs_g1[0]);
        let omega = get_root_of_unity(degree);
        let n_scalar = Scalar::from_u64(degree as u64);
        let n_inv = match n_scalar.inverse() {
            Some(v) => v,
            None => Scalar::zero(),
        };
        proof {
            if degree > 0 {
                lemma_finv_is(degree as nat, n_inv@);
            }
        }
        let mut ai_commitment: Vec<G1Point> = Vec::new();
        let mut li_commitment: Vec<G1Point> = Vec::new();
        let mut ui_commitment: Vec<G1Point> = Vec::new();
        let ghost crs = g1_views(crs_g1@);
        let ghost n = degree as nat;
        let mut i: usize = 0;
        while i < degree
            invariant
                i <= degree,
                degree < usize::MAX,
                n == degree,
                g1.wf(),
                all_g1_wf(crs_g1@),
                crs_g1@.len() == degree + 1,
                crs == g1_views(crs_g1@),
                omega.wf(),
                omega@ == root_of_unity(n),
                n_inv.wf(),
                degree > 0 ==> n_inv@ == finv(n),
                all_g1_wf(ai_commitment@),
                all_g1_wf(li_commitment@),
                all_g1_wf(ui_commitment@),
                ai_commitment@.len() == i,
                li_commitment@.len() == i,
                ui_commitment@.len() == i,
                forall|j: int|
                    0 <= j < i ==> (#[trigger] ai_commitment@[j])@ == commit_to(
                        g1@,
                        crs,
                        vanishing_quotient(n, j as nat),
                    ),
                forall|j: int|
                    0 <= j < i ==> (#[trigger] li_commitment@[j])@ == commit_to(
                        g1@,
                        crs,
                        lagrange_basis(n, j as nat),
                    ),
                forall|j: int|
                    0 <= j < i ==> (#[trigger] ui_commitment@[j])@ == commit_to(
                        g1@,
                        crs,
                        basis_opening(n, j as nat),
                    ),
            decreases degree - i,
        {
            let (ai, li, ui) = index_commitments(&g1, &crs_g1, degree, i, &omega, &n_inv);
            ai_commitment.push(ai);
            li_commitment.push(li);
            ui_commitment.push(ui);
            i += 1;
        }
        let update_key = UpdateKey { ai_commitment, ui_commitment };
        let crs_pair = CRS { g1: crs_g1, g2: crs_g2 };
        ASVC {
            degree,
            update_key: update_key.duplicate(),
            proving_key: ProvingKey {
                crs: crs_pair.duplicate(),
                update_key,
                li_commitment,
            },
            verification_key: VerificationKey { crs: crs_pair, a_commitment },
        }
    }

    /// The commitment to a vector of as many entries as the keys were made
    /// for.
    pub fn vector_commit(&self, vector: &[Scalar]) -> (r: Result<G1Point, Error>)
        requires
            self.wf(),
            all_wf(vector@),
        ensures
            r is Err <==> vector@.len() != self.degree,
            r matches Err(e) ==> e == Error::LengthMismatch,
            r matches Ok(c) ==> c.wf() && c@ == self.vector_commitment(values(vector@)),
    {
        if vector.len() != self.proving_key.li_commitment.len() {
            return Err(Error::LengthMismatch);
        }
        Ok(combine_g1(&self.proving_key.crs.g1[0], &self.proving_key.li_commitment, vector))
    }

    /// One proof for the entries of `vector` at `indices`: the commitment to
    /// the quotient of the polynomial through the vector by the polynomial
    /// that vanishes at the positions' points.
    pub fn prove_position(&self, indices: &[usize], vector: &[Scalar]) -> (r: Result<
        G1Point,
        Error,
    >)
        requires
            self.wf(),
            all_wf(vector@),
            indices@.len() < usize::MAX,
        ensures
            vector@.len() != self.degree ==> r == Err::<G1Point, Error>(Error::LengthMismatch),
            vector@.len() == self.degree && !interpolable(domain(self.degree as nat)) ==> r
                == Err::<G1Point, Error>(Error::DivisionByZero),
            vector@.len() == self.degree && interpolable(domain(self.degree as nat)) ==> (
            r matches Ok(pi) && pi.wf() && pi@ == commit_to(
                self.base(),
                g1_views(self.proving_key.crs.g1@),
                self.position_quotient(indices@, values(vector@)),
            )),
    {
        if vector.len() != self.degree {
            return Err(Error::LengthMismatch);
        }
        let omega = get_root_of_unity(self.degree);
        let points = points_of_domain(&omega, self.degree);
        let numerator = match interpolate(points.as_slice(), vector) {
            Err(e) => {
                return Err(e);
            },
            Ok(l) => l,
        };
        let roots = points_of_indices(&omega, indices, self.degree);
        let denominator = product_of_factors(roots.as_slice(), None);
        let ghost rts = values(roots@);
        proof {
            lemma_basis_numerator_monic(rts, -1, rts.len());
            lemma_basis_numerator_len(rts, -1, rts.len());
            lemma_interpolation_sum_len(values(points@), values(vector@), values(points@).len());
        }
        let quotient = quotient(numerator.as_slice(), denominator.as_slice());
        assert(values(quotient@).len() == quotient@.len());
        assert(values(numerator@).len() == numerator@.len());
        Ok(
            combine_g1(
                &self.proving_key.crs.g1[0],
                &self.proving_key.crs.g1,
                quotient.as_slice(),
            ),
        )
    }

    /// Whether `pi` proves that the vector committed to holds `subvector` at
    /// `indices`: the pairing of the proof with the commitment in G2 to the
    /// polynomial that vanishes at the positions' points, against that of
    /// `commitment` less the commitment to the interpolation of the subvector
    /// with the generator of G2.
    pub fn verify_position(
        &self,
        commitment: G1Point,
        indices: &[usize],
        subvector: &[Scalar],
        pi: G1Point,
    ) -> (r: Result<bool, Error>)
        requires
            self.wf(),
            all_wf(subvector@),
            commitment.wf(),
            pi.wf(),
        ensures
            indices@.len() != subvector@.len() ==> r == Err::<bool, Error>(
                Error::LengthMismatch,
            ),
            indices@.len() == subvector@.len() && indices@.len() > self.degree ==> r == Err::<
                bool,
                Error,
            >(Error::DegreeExceeded),
            indices@.len() == subvector@.len() && indices@.len() <= self.degree && !interpolable(
                index_points(self.degree as nat, indices@),
            ) ==> r == Err::<bool, Error>(Error::DivisionByZero),
            indices@.len() == subvector@.len() && indices@.len() <= self.degree && interpolable(
                index_points(self.degree as nat, indices@),
            ) ==> r == Ok::<bool, Error>(
                self.accepts(commitment@, indices@, values(subvector@), pi@),
            ),
    {
        if indices.len() != subvector.len() {
            return Err(Error::LengthMismatch);
        }
        if indices.len() > self.degree {
            return Err(Error::DegreeExceeded);
        }
        let crs = &self.verification_key.crs;
        let omega = get_root_of_unity(self.degree);
        let roots = points_of_indices(&omega, indices, self.degree);
        let ghost rts = values(roots@);
        let denominator = product_of_factors(roots.as_slice(), None);
        proof {
            lemma_basis_numerator_len(rts, -1, rts.len());
            lemma_interpolation_sum_len(rts, values(subvector@), rts.len());
        }
        assert(values(denominator@).len() == denominator@.len());
        let denominator_commitment = combine_g2(&crs.g2[0], &crs.g2, denominator.as_slice());
        let remainder = match interpolate(roots.as_slice(), subvector) {
            Err(e) => {
                return Err(e);
            },
            Ok(l) => l,
        };
        assert(values(remainder@).len() == remainder@.len());
        let remainder_commitment = combine_g1(&crs.g1[0], &crs.g1, remainder.as_slice());
        let lhs = pairing(&pi, &denominator_commitment);
        let rhs = pairing(&g1_sub(&commitment, &remainder_commitment), &crs.g2[0]);
        Ok(lhs.equals(&rhs))
    }

    /// One proof made of one proof per position: the sum of the proofs, each
    /// times the derivative, at its position's point, of the polynomial that
    /// vanishes at all the positions' points.
    pub fn aggregate_proofs(&self, indices: &[usize], proofs: Vec<G1Point>) -> (r: Result<
        G1Point,
        Error,
    >)
        requires
            self.wf(),
            all_g1_wf(proofs@),
            indices@.len() < usize::MAX,
        ensures
            r is Err <==> indices@.len() != proofs@.len(),
            r matches Err(e) ==> e == Error::LengthMismatch,
            r matches Ok(pi) ==> pi.wf() && pi@ == g1_combination(
                self.base(),
                g1_views(proofs@),
                self.aggregation_weights(indices@),
                indices@.len(),
            ),
    {
        if indices.len() != proofs.len() {
            return Err(Error::LengthMismatch);
        }
        let omega = get_root_of_unity(self.degree);
        let roots = points_of_indices(&omega, indices, self.degree);
        let a_polynomial = product_of_factors(roots.as_slice(), None);
        let a_derivative = differentiate(a_polynomial.as_slice());
        let mut weights: Vec<Scalar> = Vec::new();
        let mut k: usize = 0;
        while k < roots.len()
            invariant
                k <= roots@.len(),
                roots@.len() == indices@.len(),
                all_wf(roots@),
                all_wf(a_derivative@),
                all_wf(weights@),
                weights@.len() == k,
                forall|j: int|
                    0 <= j < k ==> (#[trigger] weights@[j])@ == poly_eval(
                        values(a_derivative@),
                        roots@[j]@,
                    ),
            decreases roots@.len() - k,
        {
            weights.push(evaluate(a_derivative.as_slice(), roots[k]));
            k += 1;
        }
        assert(values(weights@) =~= self.aggregation_weights(indices@));
        Ok(combine_g1(&self.proving_key.crs.g1[0], &proofs, weights.as_slice()))
    }
}

} // verus!
