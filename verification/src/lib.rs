//! Capability offers and requests over a shared attribute schema.
//!
//! The crate models resource descriptions ("offers", the same schema serving
//! as a consumer's request), decides whether a candidate offer satisfies a
//! request field by field, and shrinks an offer's representation by replacing
//! literal values with small integer identifiers drawn from a shared
//! reference dictionary, with the inverse restoring literals from
//! identifiers.

use vstd::prelude::*;

pub mod basic_elements;
pub mod catalog;
pub mod laws;
pub mod magnitude;
pub mod ontology;
pub mod repository;

verus! {

/// The error taxonomy of the crate.
///
/// Malformed wire input, an operator or type tag that names no recognized
/// symbol, and a required root field that is absent are the three fatal
/// conditions; everything else (an absent optional field, a literal with no
/// catalog hit) is a defined pass-through state, not an error.
#[derive(Clone, Copy, Debug, PartialEq, Eq, Structural)]
pub enum OntologyError {
    /// Malformed or incomplete wire input.
    DecodeError,
    /// An operator or type tag in the input matches no recognized symbol.
    UnknownEnumLiteral,
    /// A non-optional root field is absent.
    MissingRequiredField,
}

} // verus!
