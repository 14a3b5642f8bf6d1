//! The ways in which decoding a document can fail.

use vstd::prelude::*;

verus! {

/// Why a JSON value was rejected. Decoding is all or nothing: the first
/// failure met ends the decode of the whole value.
#[derive(Debug, PartialEq, Eq)]
pub enum DecodeError {
    /// The `type` member names no kind of the union being decoded.
    UnknownTag(String),
    /// The value is neither an inline nor a block component.
    NoMatchingVariant,
    /// An integer lies outside the set that a field admits.
    OutOfRange,
    /// A string lies outside a closed enumeration.
    UnknownEnumString,
    /// A member that must be present is absent.
    MissingRequiredField,
    /// A member is present with the wrong JSON type.
    TypeMismatch,
}

/// The mathematical model of a [`DecodeError`].
pub enum DecodeErrorView {
    UnknownTag(Seq<char>),
    NoMatchingVariant,
    OutOfRange,
    UnknownEnumString,
    MissingRequiredField,
    TypeMismatch,
}

impl View for DecodeError {
    type V = DecodeErrorView;

    open spec fn view(&self) -> DecodeErrorView {
        match self {
            DecodeError::UnknownTag(name) => DecodeErrorView::UnknownTag(name@),
            DecodeError::NoMatchingVariant => DecodeErrorView::NoMatchingVariant,
            DecodeError::OutOfRange => DecodeErrorView::OutOfRange,
            DecodeError::UnknownEnumString => DecodeErrorView::UnknownEnumString,
            DecodeError::MissingRequiredField => DecodeErrorView::MissingRequiredField,
            DecodeError::TypeMismatch => DecodeErrorView::TypeMismatch,
        }
    }
}

impl Clone for DecodeError {
    fn clone(&self) -> (error: DecodeError)
        ensures
            error@ == self@,
    {
        match self {
            DecodeError::UnknownTag(name) => DecodeError::UnknownTag(name.clone()),
            DecodeError::NoMatchingVariant => DecodeError::NoMatchingVariant,
            DecodeError::OutOfRange => DecodeError::OutOfRange,
            DecodeError::UnknownEnumString => DecodeError::UnknownEnumString,
            DecodeError::MissingRequiredField => DecodeError::MissingRequiredField,
            DecodeError::TypeMismatch => DecodeError::TypeMismatch,
        }
    }
}

/// The model of a decode result: the model of the value or of the error.
pub open spec fn result_view<T: View>(r: Result<T, DecodeError>) -> Result<T::V, DecodeErrorView> {
    match r {
        Ok(value) => Ok(value@),
        Err(error) => Err(error@),
    }
}

/// The model of a decode result whose value is modelled by `model`.
pub open spec fn result_map<T, V>(r: Result<T, DecodeError>, model: spec_fn(T) -> V) -> Result<
    V,
    DecodeErrorView,
> {
    match r {
        Ok(value) => Ok(model(value)),
        Err(error) => Err(error@),
    }
}

} // verus!
