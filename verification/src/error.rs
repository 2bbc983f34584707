//! Why a wire value could not be decoded.

use vstd::prelude::*;

verus! {

/// The kind of value that a decoder asked for and did not find.
#[derive(Clone, Copy, Debug, PartialEq, Eq, Structural)]
pub enum ExpectedKind {
    /// A boolean.
    Bool,
    /// A 32-bit integer.
    Int,
    /// An integer that fits in eight unsigned bits.
    Byte,
    /// An integer that names a channel direction.
    Direction,
    /// A double.
    Double,
    /// A string.
    String,
    /// An ordered list.
    Array,
    /// A string-keyed struct.
    Struct,
}

/// A decode failure. It aborts the entity that was being decoded as a whole.
#[derive(Debug, PartialEq, Eq)]
pub enum DecodeError {
    /// The type tag of a parameter description is none of the known ones.
    UnknownDiscriminant(String),
    /// A required member is absent.
    MissingField(String),
    /// A member is present but holds another kind of value than expected.
    /// The value that is being decoded itself goes by the empty name, and
    /// the elements of a positional record by their index.
    TypeMismatch(String, ExpectedKind),
    /// A positional record has another number of elements than expected:
    /// first the expected number, then the actual one.
    ArityError(usize, usize),
}

/// Mathematical model of a [`DecodeError`].
pub ghost enum DecodeErrorView {
    UnknownDiscriminant(Seq<char>),
    MissingField(Seq<char>),
    TypeMismatch(Seq<char>, ExpectedKind),
    ArityError(nat, nat),
}

impl View for DecodeError {
    type V = DecodeErrorView;

    open spec fn view(&self) -> DecodeErrorView {
        match self {
            DecodeError::UnknownDiscriminant(tag) => DecodeErrorView::UnknownDiscriminant(tag@),
            DecodeError::MissingField(name) => DecodeErrorView::MissingField(name@),
            DecodeError::TypeMismatch(name, kind) => DecodeErrorView::TypeMismatch(name@, *kind),
            DecodeError::ArityError(expected, actual) => DecodeErrorView::ArityError(
                *expected as nat,
                *actual as nat,
            ),
        }
    }
}

} // verus!
