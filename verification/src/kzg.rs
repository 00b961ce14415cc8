//! The KZG polynomial commitment scheme: a reference string made once from a
//! secret, commitments to polynomials, and proofs of their values at one point
//! or at many.

use vstd::prelude::*;
use crate::combination::{
    all_g1_wf, all_g2_wf, combine_g1, combine_g2, g1_combination, g1_powers, g1_views,
    g2_combination, g2_powers, g2_views, powers_g1, powers_g2,
};
use crate::error::Error;
use crate::group::{
    g1_diff, g1_mul, g1_scaled, g1_sub, G1Point, g2_diff, g2_mul, g2_scaled, g2_sub, G2Point,
    pairing, pairing_value,
};
use crate::poly::{
    all_wf, evaluations, interpolable, lemma_basis_numerator_len, lemma_basis_numerator_monic,
    lemma_effective_len_zero, lemma_interpolation_sum_len, linear_factor, opening_numerator,
    poly_div, poly_eval, poly_interpolate, poly_sub, values, vanishing_poly,
};
use crate::scalar::Scalar;
use crate::utils::{copy_vector, evaluate, interpolate, linear, product_of_factors, quotient};

verus! {

/// The quotient of `poly` less its value at `point` by `X - point`.
pub open spec fn opening_quotient(poly: Seq<nat>, point: nat) -> Seq<nat> {
    poly_div(opening_numerator(poly, poly_eval(poly, point)), linear_factor(point))
}

/// The quotient of `poly`, less the interpolation of its values at `points`,
/// by the polynomial that vanishes at `points`.
pub open spec fn batch_quotient(poly: Seq<nat>, points: Seq<nat>) -> Seq<nat> {
    poly_div(
        poly_sub(poly, poly_interpolate(points, evaluations(poly, points))),
        vanishing_poly(points),
    )
}

/// The values of a polynomial at each of the given points.
pub fn evaluate_all(poly: &[Scalar], points: &[Scalar]) -> (r: Vec<Scalar>)
    requires
        all_wf(poly@),
        all_wf(points@),
    ensures
        all_wf(r@),
        r@.len() == points@.len(),
        values(r@) == evaluations(values(poly@), values(points@)),
{
    let mut r: Vec<Scalar> = Vec::new();
    let mut i: usize = 0;
    while i < points.len()
        invariant
            i <= points@.len(),
            all_wf(poly@),
            all_wf(points@),
            all_wf(r@),
            r@.len() == i,
            forall|j: int|
                0 <= j < i ==> (#[trigger] r@[j])@ == poly_eval(values(poly@), points@[j]@),
        decreases points@.len() - i,
    {
        r.push(evaluate(poly, points[i]));
        i += 1;
    }
    assert(values(r@) =~= evaluations(values(poly@), values(points@)));
    r
}

/// A KZG instance: two generators, the highest degree it commits to, and,
/// once set up, the reference string.
pub struct KZG {
    pub g1: G1Point,
    pub g2: G2Point,
    pub g2_tau: G2Point,
    pub degree: usize,
    pub crs_g1: Vec<G1Point>,
    pub crs_g2: Vec<G2Point>,
}

impl KZG {
    /// Every group element held is a point of its group.
    pub open spec fn wf(&self) -> bool {
        &&& self.g1.wf()
        &&& self.g2.wf()
        &&& self.g2_tau.wf()
        &&& all_g1_wf(self.crs_g1@)
        &&& all_g2_wf(self.crs_g2@)
    }

    /// No reference string has been made yet.
    pub open spec fn is_uninitialized(&self) -> bool {
        self.crs_g1@.len() == 0 && self.crs_g2@.len() == 0
    }

    /// The reference string is there, with one element more than the degree in
    /// each group.
    pub open spec fn is_ready(&self) -> bool {
        self.crs_g1@.len() == self.degree + 1 && self.crs_g2@.len() == self.degree + 1
    }

    /// The reference string is the one that `secret` gives.
    pub open spec fn is_setup_with(&self, secret: nat) -> bool {
        &&& self.is_ready()
        &&& g1_views(self.crs_g1@) == g1_powers(self.g1@, secret, (self.degree + 1) as nat)
        &&& g2_views(self.crs_g2@) == g2_powers(self.g2@, secret, (self.degree + 1) as nat)
        &&& self.g2_tau@ == g2_scaled(self.g2@, secret)
    }

    /// The commitment to `poly` under a reference string in G1.
    pub open spec fn commitment(&self, poly: Seq<nat>) -> Seq<u8> {
        g1_combination(self.g1@, g1_views(self.crs_g1@), poly, poly.len())
    }

    /// Whether an opening proof is accepted for `value` at `point`.
    pub open spec fn accepts(&self, point: nat, value: nat, commitment: Seq<u8>, pi: Seq<u8>) -> bool {
        pairing_value(pi, g2_diff(self.g2_tau@, g2_scaled(self.g2@, point))) == pairing_value(
            g1_diff(commitment, g1_scaled(self.g1@, value)),
            self.g2@,
        )
    }

    /// An instance without a reference string.
    pub fn new(g1: G1Point, g2: G2Point, degree: usize) -> (r: KZG)
        requires
            g1.wf(),
            g2.wf(),
        ensures
            r.wf(),
            r.is_uninitialized(),
            r.g1 == g1,
            r.g2 == g2,
            r.degree == degree,
            r.g2_tau@ == g2_scaled(g2@, 0),
    {
        let zero = Scalar::zero();
        KZG { g1, g2, g2_tau: g2_mul(&g2, &zero), degree, crs_g1: Vec::new(), crs_g2: Vec::new() }
    }

    /// Whether the reference string has been made.
    pub fn ready(&self) -> (r: bool)
        ensures
            r == self.is_ready(),
    {
        let n1 = self.crs_g1.len();
        let n2 = self.crs_g2.len();
        self.degree < usize::MAX && n1 == self.degree + 1 && n2 == self.degree + 1
    }

    /// Makes the reference string from `secret`: each generator times the
    /// secret's powers up to the degree.
    pub fn setup(&mut self, secret: Scalar)
        requires
            old(self).wf(),
            old(self).is_uninitialized(),
            old(self).degree < usize::MAX,
            secret.wf(),
        ensures
            final(self).wf(),
            final(self).is_setup_with(secret@),
            final(self).g1 == old(self).g1,
            final(self).g2 == old(self).g2,
            final(self).degree == old(self).degree,
    {
        let n = self.degree + 1;
        let crs_g1 = powers_g1(&self.g1, &secret, n);
        let crs_g2 = powers_g2(&self.g2, &secret, n);
        let tau = g2_mul(&self.g2, &secret);
        self.crs_g1 = crs_g1;
        self.crs_g2 = crs_g2;
        self.g2_tau = tau;
    }

    /// The commitment to a polynomial: the reference string's elements, each
    /// times the coefficient of its degree, added up.
    pub fn commit(&self, poly: &[Scalar]) -> (r: Result<G1Point, Error>)
        requires
            self.wf(),
            self.is_ready(),
            all_wf(poly@),
        ensures
            r is Err <==> poly@.len() > self.degree + 1,
            r matches Err(e) ==> e == Error::DegreeExceeded,
            r matches Ok(c) ==> c.wf() && c@ == self.commitment(values(poly@)),
    {
        if poly.len() > self.crs_g1.len() {
            return Err(Error::DegreeExceeded);
        }
        Ok(combine_g1(&self.g1, &self.crs_g1, poly))
    }

    /// Whether `pi` proves that the polynomial committed to has `value` at
    /// `point`: the pairing of the proof with `g2_tau - g2 * point` against
    /// that of `commitment - g1 * value` with `g2`.
    pub fn verify(&self, point: Scalar, value: Scalar, commitment: G1Point, pi: G1Point) -> (r:
        bool)
        requires
            self.wf(),
            self.is_ready(),
            point.wf(),
            value.wf(),
            commitment.wf(),
            pi.wf(),
        ensures
            r == self.accepts(point@, value@, commitment@, pi@),
    {
        let shifted = g2_sub(&self.g2_tau, &g2_mul(&self.g2, &point));
        let lhs = pairing(&pi, &shifted);
        let lowered = g1_sub(&commitment, &g1_mul(&self.g1, &value));
        let rhs = pairing(&lowered, &self.g2);
        lhs.equals(&rhs)
    }

    /// Whether a batch proof is accepted for `vals` at `points`.
    pub open spec fn accepts_batch(
        &self,
        points: Seq<nat>,
        vals: Seq<nat>,
        commitment: Seq<u8>,
        pi: Seq<u8>,
    ) -> bool {
        let vanishing = vanishing_poly(points);
        let lagrange = poly_interpolate(points, vals);
        pairing_value(
            pi,
            g2_combination(self.g2@, g2_views(self.crs_g2@), vanishing, vanishing.len()),
        ) == pairing_value(g1_diff(commitment, self.commitment(lagrange)), self.g2@)
    }

    /// The proof that `poly` has at `point` the value it has: the commitment
    /// to the quotient of `poly` less that value by `X - point`.
    pub fn open(&self, poly: &[Scalar], point: Scalar) -> (r: Result<G1Point, Error>)
        requires
            self.wf(),
            self.is_ready(),
            all_wf(poly@),
            point.wf(),
        ensures
            r is Err <==> poly@.len() > self.degree + 1,
            r matches Err(e) ==> e == Error::DegreeExceeded,
            r matches Ok(pi) ==> pi.wf() && pi@ == self.commitment(
                opening_quotient(values(poly@), point@),
            ),
    {
        if poly.len() > self.crs_g1.len() {
            return Err(Error::DegreeExceeded);
        }
        let value = evaluate(poly, point);
        let mut numerator = copy_vector(poly);
        if numerator.len() > 0 {
            numerator.set(0, poly[0].sub(&value));
        }
        assert(values(numerator@) =~= opening_numerator(values(poly@), value@));
        let denominator = linear(&point);
        assert(values(denominator@)[1] == 1);
        proof {
            lemma_effective_len_zero(values(denominator@));
        }
        let quotient = quotient(numerator.as_slice(), denominator.as_slice());
        assert(values(quotient@).len() == quotient@.len());
        Ok(combine_g1(&self.g1, &self.crs_g1, quotient.as_slice()))
    }

    /// One proof for the values of `poly` at all of `points`: the commitment
    /// to the quotient of `poly`, less the interpolation of those values, by
    /// the polynomial that vanishes at the points.
    pub fn multi_open(&self, poly: &[Scalar], points: &[Scalar]) -> (r: Result<G1Point, Error>)
        requires
            self.wf(),
            self.is_ready(),
            all_wf(poly@),
            all_wf(points@),
            points@.len() < usize::MAX,
        ensures
            poly@.len() > self.degree + 1 ==> r == Err::<G1Point, Error>(Error::DegreeExceeded),
            poly@.len() <= self.degree + 1 && !interpolable(values(points@)) ==> r == Err::<
                G1Point,
                Error,
            >(Error::DivisionByZero),
            poly@.len() <= self.degree + 1 && interpolable(values(points@)) ==> (r matches Ok(pi)
                && pi.wf() && pi@ == self.commitment(
                batch_quotient(values(poly@), values(points@)),
            )),
    {
        if poly.len() > self.crs_g1.len() {
            return Err(Error::DegreeExceeded);
        }
        let ghost pts = values(points@);
        let zero_poly = product_of_factors(points, None);
        let vals = evaluate_all(poly, points);
        let lagrange_poly = match interpolate(points, vals.as_slice()) {
            Err(e) => {
                return Err(e);
            },
            Ok(l) => l,
        };
        let numerator = crate::utils::sub(poly, lagrange_poly.as_slice());
        proof {
            lemma_basis_numerator_monic(pts, -1, pts.len());
            lemma_basis_numerator_len(pts, -1, pts.len());
            lemma_interpolation_sum_len(pts, values(vals@), pts.len());
        }
        let quotient = quotient(numerator.as_slice(), zero_poly.as_slice());
        assert(values(quotient@).len() == quotient@.len());
        assert(values(numerator@).len() == numerator@.len());
        assert(values(lagrange_poly@).len() == lagrange_poly@.len());
        Ok(combine_g1(&self.g1, &self.crs_g1, quotient.as_slice()))
    }

    /// Whether `pi` proves that the polynomial committed to has the values
    /// `vals` at `points`: the pairing of the proof with the commitment in G2
    /// to the polynomial that vanishes at the points, against that of
    /// `commitment` less the commitment to the interpolation with `g2`.
    pub fn verify_multi(
        &self,
        points: &[Scalar],
        vals: &[Scalar],
        commitment: G1Point,
        pi: G1Point,
    ) -> (r: Result<bool, Error>)
        requires
            self.wf(),
            self.is_ready(),
            all_wf(points@),
            all_wf(vals@),
            commitment.wf(),
            pi.wf(),
        ensures
            points@.len() != vals@.len() ==> r == Err::<bool, Error>(Error::LengthMismatch),
            points@.len() == vals@.len() && points@.len() > self.degree ==> r == Err::<
                bool,
                Error,
            >(Error::DegreeExceeded),
            points@.len() == vals@.len() && points@.len() <= self.degree && !interpolable(
                values(points@),
            ) ==> r == Err::<bool, Error>(Error::DivisionByZero),
            points@.len() == vals@.len() && points@.len() <= self.degree && interpolable(
                values(points@),
            ) ==> r == Ok::<bool, Error>(
                self.accepts_batch(values(points@), values(vals@), commitment@, pi@),
            ),
    {
        if points.len() != vals.len() {
            return Err(Error::LengthMismatch);
        }
        if points.len() >= self.crs_g2.len() {
            return Err(Error::DegreeExceeded);
        }
        let ghost pts = values(points@);
        let zero_poly = product_of_factors(points, None);
        proof {
            lemma_basis_numerator_len(pts, -1, pts.len());
            lemma_interpolation_sum_len(pts, values(vals@), pts.len());
        }
        assert(values(zero_poly@).len() == zero_poly@.len());
        let zero_commitment = combine_g2(&self.g2, &self.crs_g2, zero_poly.as_slice());
        let lagrange_poly = match interpolate(points, vals) {
            Err(e) => {
                return Err(e);
            },
            Ok(l) => l,
        };
        assert(values(lagrange_poly@).len() == lagrange_poly@.len());
        let lagrange_commitment = combine_g1(&self.g1, &self.crs_g1, lagrange_poly.as_slice());
        let lhs = pairing(&pi, &zero_commitment);
        let rhs = pairing(&g1_sub(&commitment, &lagrange_commitment), &self.g2);
        Ok(lhs.equals(&rhs))
    }
}

} // verus!
