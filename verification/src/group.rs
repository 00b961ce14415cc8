//! Points of the two source groups of BLS12-381, each held in its compressed
//! encoding, and values of its target group, held in their encoding. The curve
//! arithmetic and the pairing are the curve library's; what they return is
//! known here only by name.

use vstd::prelude::*;
use crate::scalar::Scalar;
use ark_bls12_381::{Bls12_381, Fr, G1Affine, G2Affine};
use ark_ec::pairing::Pairing;
use ark_ec::{AffineRepr, CurveGroup};
use ark_ff::BigInt;
use ark_serialize::{CanonicalDeserialize, CanonicalSerialize};

verus! {

/// Whether 48 bytes are the compressed encoding of a point of G1.
pub uninterp spec fn g1_valid(bytes: Seq<u8>) -> bool;

/// Whether 96 bytes are the compressed encoding of a point of G2.
pub uninterp spec fn g2_valid(bytes: Seq<u8>) -> bool;

/// The encoding of the sum of two encoded points of G1.
pub uninterp spec fn g1_sum(a: Seq<u8>, b: Seq<u8>) -> Seq<u8>;

/// The encoding of the difference of two encoded points of G1.
pub uninterp spec fn g1_diff(a: Seq<u8>, b: Seq<u8>) -> Seq<u8>;

/// The encoding of an encoded point of G1 multiplied by a scalar.
pub uninterp spec fn g1_scaled(p: Seq<u8>, k: nat) -> Seq<u8>;

/// The encoding of the sum of two encoded points of G2.
pub uninterp spec fn g2_sum(a: Seq<u8>, b: Seq<u8>) -> Seq<u8>;

/// The encoding of the difference of two encoded points of G2.
pub uninterp spec fn g2_diff(a: Seq<u8>, b: Seq<u8>) -> Seq<u8>;

/// The encoding of an encoded point of G2 multiplied by a scalar.
pub uninterp spec fn g2_scaled(p: Seq<u8>, k: nat) -> Seq<u8>;

/// The encoding of the pairing of an encoded point of G1 with one of G2.
pub uninterp spec fn pairing_value(p: Seq<u8>, q: Seq<u8>) -> Seq<u8>;

/// A point of G1.
#[derive(Clone, Copy, Debug)]
pub struct G1Point {
    bytes: [u8; 48],
}

/// A point of G2.
#[derive(Clone, Copy, Debug)]
pub struct G2Point {
    bytes: [u8; 96],
}

/// A value of the target group.
#[derive(Clone, Copy, Debug)]
pub struct GtElement {
    bytes: [u8; 576],
}

impl View for G1Point {
    type V = Seq<u8>;

    closed spec fn view(&self) -> Seq<u8> {
        self.bytes@
    }
}

impl View for G2Point {
    type V = Seq<u8>;

    closed spec fn view(&self) -> Seq<u8> {
        self.bytes@
    }
}

impl View for GtElement {
    type V = Seq<u8>;

    closed spec fn view(&self) -> Seq<u8> {
        self.bytes@
    }
}

/// `CanonicalDeserialize::deserialize_compressed` on `G1Affine`: whether it
/// accepts. It reads the flags and `x`, finds `y` from the curve equation and
/// checks that the point is in the subgroup.
#[verifier::external_body]
fn g1_check(bytes: &[u8; 48]) -> (r: bool)
    ensures
        r == g1_valid(bytes@),
{
    G1Affine::deserialize_compressed(&bytes[..]).is_ok()
}

/// `CanonicalDeserialize::deserialize_compressed` on `G2Affine`: whether it
/// accepts. It reads the flags and `x`, finds `y` from the curve equation and
/// checks that the point is in the subgroup.
#[verifier::external_body]
fn g2_check(bytes: &[u8; 96]) -> (r: bool)
    ensures
        r == g2_valid(bytes@),
{
    G2Affine::deserialize_compressed(&bytes[..]).is_ok()
}

/// `+` on `G1Affine`: the sum of two points of G1 is a point of G1, the same
/// for the same two points.
#[verifier::external_body]
pub(crate) fn g1_add(a: &G1Point, b: &G1Point) -> (r: G1Point)
    requires
        a.wf(),
        b.wf(),
    ensures
        r.wf(),
        r@ == g1_sum(a@, b@),
{
    let x = G1Affine::deserialize_compressed_unchecked(&a.bytes[..]).unwrap();
    let y = G1Affine::deserialize_compressed_unchecked(&b.bytes[..]).unwrap();
    let mut out = [0u8; 48];
    (x + y).into_affine().serialize_compressed(&mut out[..]).unwrap();
    G1Point { bytes: out }
}

/// `-` on `G1Projective`: the difference of two points of G1 is a point of G1,
/// the same for the same two points.
#[verifier::external_body]
pub(crate) fn g1_sub(a: &G1Point, b: &G1Point) -> (r: G1Point)
    requires
        a.wf(),
        b.wf(),
    ensures
        r.wf(),
        r@ == g1_diff(a@, b@),
{
    let x = G1Affine::deserialize_compressed_unchecked(&a.bytes[..]).unwrap();
    let y = G1Affine::deserialize_compressed_unchecked(&b.bytes[..]).unwrap();
    let mut out = [0u8; 48];
    (x.into_group() - y).into_affine().serialize_compressed(&mut out[..]).unwrap();
    G1Point { bytes: out }
}

/// `*` of a `G1Affine` by an `Fr`: a point of G1 times a scalar is a point of
/// G1, the same for the same point and scalar.
#[verifier::external_body]
pub(crate) fn g1_mul(p: &G1Point, k: &Scalar) -> (r: G1Point)
    requires
        p.wf(),
        k.wf(),
    ensures
        r.wf(),
        r@ == g1_scaled(p@, k@),
{
    let x = G1Affine::deserialize_compressed_unchecked(&p.bytes[..]).unwrap();
    let s = Fr::from(BigInt::new(k.limbs));
    let mut out = [0u8; 48];
    (x * s).into_affine().serialize_compressed(&mut out[..]).unwrap();
    G1Point { bytes: out }
}

/// `+` on `G2Affine`: the sum of two points of G2 is a point of G2, the same
/// for the same two points.
#[verifier::external_body]
pub(crate) fn g2_add(a: &G2Point, b: &G2Point) -> (r: G2Point)
    requires
        a.wf(),
        b.wf(),
    ensures
        r.wf(),
        r@ == g2_sum(a@, b@),
{
    let x = G2Affine::deserialize_compressed_unchecked(&a.bytes[..]).unwrap();
    let y = G2Affine::deserialize_compressed_unchecked(&b.bytes[..]).unwrap();
    let mut out = [0u8; 96];
    (x + y).into_affine().serialize_compressed(&mut out[..]).unwrap();
    G2Point { bytes: out }
}

/// `-` on `G2Projective`: the difference of two points of G2 is a point of G2,
/// the same for the same two points.
#[verifier::external_body]
pub(crate) fn g2_sub(a: &G2Point, b: &G2Point) -> (r: G2Point)
    requires
        a.wf(),
        b.wf(),
    ensures
        r.wf(),
        r@ == g2_diff(a@, b@),
{
    let x = G2Affine::deserialize_compressed_unchecked(&a.bytes[..]).unwrap();
    let y = G2Affine::deserialize_compressed_unchecked(&b.bytes[..]).unwrap();
    let mut out = [0u8; 96];
    (x.into_group() - y).into_affine().serialize_compressed(&mut out[..]).unwrap();
    G2Point { bytes: out }
}

/// `*` of a `G2Affine` by an `Fr`: a point of G2 times a scalar is a point of
/// G2, the same for the same point and scalar.
#[verifier::external_body]
pub(crate) fn g2_mul(p: &G2Point, k: &Scalar) -> (r: G2Point)
    requires
        p.wf(),
        k.wf(),
    ensures
        r.wf(),
        r@ == g2_scaled(p@, k@),
{
    let x = G2Affine::deserialize_compressed_unchecked(&p.bytes[..]).unwrap();
    let s = Fr::from(BigInt::new(k.limbs));
    let mut out = [0u8; 96];
    (x * s).into_affine().serialize_compressed(&mut out[..]).unwrap();
    G2Point { bytes: out }
}

/// `Pairing::pairing` of `Bls12_381`: the pairing of two points, the same for
/// the same two points.
#[verifier::external_body]
pub(crate) fn pairing(p: &G1Point, q: &G2Point) -> (r: GtElement)
    requires
        p.wf(),
        q.wf(),
    ensures
        r@ == pairing_value(p@, q@),
{
    let x = G1Affine::deserialize_compressed_unchecked(&p.bytes[..]).unwrap();
    let y = G2Affine::deserialize_compressed_unchecked(&q.bytes[..]).unwrap();
    let mut out = [0u8; 576];
    Bls12_381::pairing(x, y).serialize_uncompressed(&mut out[..]).unwrap();
    GtElement { bytes: out }
}

impl G1Point {
    /// The bytes encode a point of G1.
    pub closed spec fn wf(&self) -> bool {
        g1_valid(self.bytes@)
    }

    /// A point is well-formed exactly if its encoding is valid.
    pub proof fn lemma_wf(&self)
        ensures
            self.wf() == g1_valid(self@),
    {
    }

    /// The point that 48 bytes encode, if they encode one.
    pub fn from_bytes(bytes: [u8; 48]) -> (r: Option<G1Point>)
        ensures
            r is Some <==> g1_valid(bytes@),
            r matches Some(p) ==> p.wf() && p@ == bytes@,
    {
        if g1_check(&bytes) {
            Some(G1Point { bytes })
        } else {
            None
        }
    }

    /// The point's encoding.
    pub fn to_bytes(&self) -> (r: [u8; 48])
        ensures
            r@ == self@,
    {
        self.bytes
    }
}

impl G2Point {
    /// The bytes encode a point of G2.
    pub closed spec fn wf(&self) -> bool {
        g2_valid(self.bytes@)
    }

    /// A point is well-formed exactly if its encoding is valid.
    pub proof fn lemma_wf(&self)
        ensures
            self.wf() == g2_valid(self@),
    {
    }

    /// The point that 96 bytes encode, if they encode one.
    pub fn from_bytes(bytes: [u8; 96]) -> (r: Option<G2Point>)
        ensures
            r is Some <==> g2_valid(bytes@),
            r matches Some(p) ==> p.wf() && p@ == bytes@,
    {
        if g2_check(&bytes) {
            Some(G2Point { bytes })
        } else {
            None
        }
    }

    /// The point's encoding.
    pub fn to_bytes(&self) -> (r: [u8; 96])
        ensures
            r@ == self@,
    {
        self.bytes
    }
}

impl GtElement {
    /// Whether two values of the target group are the same.
    pub fn equals(&self, other: &GtElement) -> (r: bool)
        ensures
            r == (self@ == other@),
    {
        let mut i: usize = 0;
        while i < 576
            invariant
                i <= 576,
                forall|j: int| 0 <= j < i ==> self.bytes@[j] == other.bytes@[j],
            decreases 576 - i,
        {
            if self.bytes[i] != other.bytes[i] {
                return false;
            }
            i += 1;
        }
        assert(self.bytes@ =~= other.bytes@);
        true
    }
}

} // verus!
