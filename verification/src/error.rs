//! The faults of decoding.

use vstd::prelude::*;

verus! {

/// The mathematical model of a [`DecodeError`].
pub enum Fault {
    MissingField(Seq<char>),
    TypeMismatch(Seq<char>),
    MissingDiscriminator,
    UnknownVariant(Seq<char>),
    ParseError(Seq<char>),
    NumericOverflow(Seq<char>),
}

/// Why a document could not be decoded.
#[derive(Debug, Clone, PartialEq)]
pub enum DecodeError {
    /// A required field, named here, is absent.
    MissingField(String),
    /// The value read from the named place has the wrong shape.
    TypeMismatch(String),
    /// The object has no discriminator, or one that is not a string.
    MissingDiscriminator,
    /// The discriminator, given here, is none of the tags that the decoder knows.
    UnknownVariant(String),
    /// The named wide-integer field holds text that is not a decimal literal.
    ParseError(String),
    /// The named wide-integer field holds a decimal literal outside the 64-bit range.
    NumericOverflow(String),
}

impl View for DecodeError {
    type V = Fault;

    open spec fn view(&self) -> Fault {
        match self {
            DecodeError::MissingField(name) => Fault::MissingField(name@),
            DecodeError::TypeMismatch(name) => Fault::TypeMismatch(name@),
            DecodeError::MissingDiscriminator => Fault::MissingDiscriminator,
            DecodeError::UnknownVariant(tag) => Fault::UnknownVariant(tag@),
            DecodeError::ParseError(name) => Fault::ParseError(name@),
            DecodeError::NumericOverflow(name) => Fault::NumericOverflow(name@),
        }
    }
}

} // verus!
