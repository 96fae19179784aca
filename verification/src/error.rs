//! What can go wrong while a record is decoded, or while a decoder is made.

use vstd::prelude::*;

verus! {

/// Why a decode failed. The first failure ends the decode, and nothing of
/// the record is handed out with it.
#[derive(Debug, PartialEq, Eq)]
pub enum DecodeError {
    /// A token has a shape that its place does not take.
    UnexpectedShape,
    /// A text did not parse as the field's type. `field` names the field where
    /// the input is keyed; `message` is the parser's own.
    ParseFailure { field: Option<String>, message: String },
    /// A positional input holds `found` tokens where the record has
    /// `expected` fields.
    InvalidLength { found: usize, expected: usize },
    /// A keyed input has no value for a field that is not optional.
    MissingField { name: String },
    /// A keyed input names a field twice.
    DuplicateField { name: String },
    /// A keyed input holds a key that names no field. `fields` lists the
    /// names that it could have held, in the order of their declaration.
    UnknownField { name: String, fields: Vec<String> },
}

/// The mathematical model of a [`DecodeError`].
pub enum DecodeErrorView {
    UnexpectedShape,
    ParseFailure { field: Option<Seq<char>>, message: Seq<char> },
    InvalidLength { found: nat, expected: nat },
    MissingField { name: Seq<char> },
    DuplicateField { name: Seq<char> },
    UnknownField { name: Seq<char>, fields: Seq<Seq<char>> },
}

/// The models of a run of strings.
pub open spec fn strings_view(names: Seq<String>) -> Seq<Seq<char>> {
    Seq::new(names.len(), |i: int| names[i]@)
}

impl View for DecodeError {
    type V = DecodeErrorView;

    open spec fn view(&self) -> DecodeErrorView {
        match self {
            DecodeError::UnexpectedShape => DecodeErrorView::UnexpectedShape,
            DecodeError::ParseFailure { field, message } => DecodeErrorView::ParseFailure {
                field: match field {
                    Some(name) => Some(name@),
                    None => None,
                },
                message: message@,
            },
            DecodeError::InvalidLength { found, expected } => DecodeErrorView::InvalidLength {
                found: *found as nat,
                expected: *expected as nat,
            },
            DecodeError::MissingField { name } => DecodeErrorView::MissingField { name: name@ },
            DecodeError::DuplicateField { name } => DecodeErrorView::DuplicateField {
                name: name@,
            },
            DecodeError::UnknownField { name, fields } => DecodeErrorView::UnknownField {
                name: name@,
                fields: strings_view(fields@),
            },
        }
    }
}

impl DecodeErrorView {
    /// The error with the field's name put on it, where it is a parse failure.
    pub open spec fn tagged(self, name: Seq<char>) -> DecodeErrorView {
        match self {
            DecodeErrorView::ParseFailure { field: _, message } => DecodeErrorView::ParseFailure {
                field: Some(name),
                message,
            },
            _ => self,
        }
    }
}

impl DecodeError {
    /// Puts the field's name on a parse failure; any other error stays as it is.
    pub fn tagged(self, name: &String) -> (e: DecodeError)
        ensures
            e@ == self@.tagged(name@),
    {
        match self {
            DecodeError::ParseFailure { field: _, message } => DecodeError::ParseFailure {
                field: Some(name.clone()),
                message,
            },
            other => other,
        }
    }
}

/// Why no encoder or decoder can be made for a definition.
#[derive(Debug, PartialEq, Eq)]
pub struct GenError {
    pub message: String,
}

} // verus!
