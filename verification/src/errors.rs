//! The error values that decoding, binding validation, and resolution return.

use vstd::prelude::*;

verus! {

/// A malformed, missing, or unrecognized field in the raw document; carries
/// the dotted path of the offending field.
#[derive(Debug, PartialEq)]
pub struct DecodeError {
    pub path: String,
}

/// An invalid HTTP binding record: a method token outside the method
/// vocabulary, or a response code outside the valid status range.
#[derive(Debug, PartialEq)]
pub enum BindingError {
    /// The offending method token.
    InvalidMethod(String),
    /// The offending response code.
    InvalidStatus(u16),
}

/// A shape reference naming a key that the shapes table does not hold;
/// carries that key.
#[derive(Debug, PartialEq)]
pub struct UnresolvedShapeError {
    pub key: String,
}

} // verus!
