//! Polynomial commitments over BLS12-381: a KZG scheme and an aggregatable
//! subvector commitment scheme, with the polynomial algebra both rest on.
//!
//! The field and the curve are those of the `ark` crates. Scalars and points
//! cross into them as plain numbers and bytes; what the curve's operations
//! return is known here by name only. Everything else is proved: that the
//! functions compute what their contracts say, and the laws that hold of them
//! together.

// The schemes and what they compute with.
pub mod asvc;
pub mod combination;
pub mod error;
pub mod group;
pub mod kzg;
pub mod scalar;
pub mod utils;

// What the operations on polynomials mean.
pub mod poly;

// Lemmas: the field, sums over the integers, values, division, roots,
// interpolation, powers and roots of unity.
pub mod congruence;
pub mod division;
pub mod domain;
pub mod evaluation;
pub mod interpolation;
pub mod powers;
pub mod root_value;
pub mod roots;
pub mod sums;
pub mod unity;

// Laws: of polynomials, of aggregation, and of the schemes given the laws of
// the curve.
pub mod aggregation;
pub mod curve;
pub mod laws;
pub mod scheme_laws;
