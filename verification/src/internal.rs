//! The flexible value: what an input held at the place of a lenient field,
//! before it is read as the field's type.

use vstd::prelude::*;
use crate::error::{DecodeError, DecodeErrorView};
use crate::scalar::{parse_text, parsed};
use crate::text::{decimal_text, signed_text, unsigned_text};
use crate::token::{Token, TokenView};
use crate::value::{Target, Value, ValueView};

verus! {

/// A number, or a text that may write one, as the input held it.
#[derive(Debug, PartialEq, Eq)]
pub enum LenientValue {
    String(String),
    I64(i64),
    U64(u64),
    /// A floating-point number, by its decimal text.
    F64(String),
}

/// The mathematical model of a [`LenientValue`].
pub enum LenientValueView {
    String(Seq<char>),
    I64(i64),
    U64(u64),
    F64(Seq<char>),
}

impl View for LenientValue {
    type V = LenientValueView;

    open spec fn view(&self) -> LenientValueView {
        match self {
            LenientValue::String(s) => LenientValueView::String(s@),
            LenientValue::I64(v) => LenientValueView::I64(*v),
            LenientValue::U64(v) => LenientValueView::U64(*v),
            LenientValue::F64(s) => LenientValueView::F64(s@),
        }
    }
}

impl LenientValueView {
    /// The text of the value: a text as it stands, a number in decimal.
    pub open spec fn text(self) -> Seq<char> {
        match self {
            LenientValueView::String(s) => s,
            LenientValueView::I64(v) => decimal_text(v as int),
            LenientValueView::U64(v) => decimal_text(v as int),
            LenientValueView::F64(s) => s,
        }
    }

    /// What reading the value as `target` gives: its text, read as `target`.
    pub open spec fn parsed(self, target: Target) -> Result<ValueView, Seq<char>> {
        parsed(self.text(), target)
    }
}

/// The flexible value that a token holds: a text or a number of up to 64
/// bits. No other shape holds one.
pub open spec fn flexible(t: TokenView) -> Option<LenientValueView> {
    match t {
        TokenView::Str(s) => Some(LenientValueView::String(s)),
        TokenView::I64(v) => Some(LenientValueView::I64(v)),
        TokenView::U64(v) => Some(LenientValueView::U64(v)),
        TokenView::F64(s) => Some(LenientValueView::F64(s)),
        _ => None,
    }
}

/// The flexible value, if any, that a token holds where the absent value is
/// allowed: `Some(None)` for the absent value, `None` for a shape that holds
/// no flexible value.
pub open spec fn optional_flexible(t: TokenView) -> Option<Option<LenientValueView>> {
    if t is Null {
        Some(None)
    } else {
        match flexible(t) {
            Some(v) => Some(Some(v)),
            None => None,
        }
    }
}

impl LenientValue {
    /// Takes the flexible value out of a token, as the token holds it: a text
    /// is neither trimmed nor changed, a number is not converted.
    pub fn deserialize(token: Token) -> (r: Result<LenientValue, DecodeError>)
        ensures
            match r {
                Ok(v) => flexible(token@) == Some(v@),
                Err(e) => flexible(token@) is None && e@ == DecodeErrorView::UnexpectedShape,
            },
    {
        match token {
            Token::Str(s) => Ok(LenientValue::String(s)),
            Token::I64(v) => Ok(LenientValue::I64(v)),
            Token::U64(v) => Ok(LenientValue::U64(v)),
            Token::F64(s) => Ok(LenientValue::F64(s)),
            _ => Err(DecodeError::UnexpectedShape),
        }
    }

    /// The text of the value, which the field type's parser reads.
    pub fn render(&self) -> (s: String)
        ensures
            s@ == self@.text(),
    {
        match self {
            LenientValue::String(s) => s.clone(),
            LenientValue::I64(v) => signed_text(*v),
            LenientValue::U64(v) => unsigned_text(*v),
            LenientValue::F64(s) => s.clone(),
        }
    }

    /// Reads the value as `target`: whatever the input held, its text is
    /// what the type's parser reads.
    pub fn parse(&self, target: Target) -> (r: Result<Value, String>)
        ensures
            match r {
                Ok(v) => self@.parsed(target) == Ok::<ValueView, Seq<char>>(v@),
                Err(m) => self@.parsed(target) == Err::<ValueView, Seq<char>>(m@),
            },
    {
        match self {
            LenientValue::String(s) => parse_text(s.as_str(), target),
            LenientValue::I64(v) => {
                let s = signed_text(*v);
                parse_text(s.as_str(), target)
            },
            LenientValue::U64(v) => {
                let s = unsigned_text(*v);
                parse_text(s.as_str(), target)
            },
            LenientValue::F64(s) => parse_text(s.as_str(), target),
        }
    }
}

/// A flexible value, or the absent value.
#[derive(Debug, PartialEq, Eq)]
pub struct OptionalLenientValue(pub Option<LenientValue>);

impl View for OptionalLenientValue {
    type V = Option<LenientValueView>;

    open spec fn view(&self) -> Option<LenientValueView> {
        match self.0 {
            Some(v) => Some(v@),
            None => None,
        }
    }
}

impl OptionalLenientValue {
    /// Takes the flexible value out of a token that may be the absent value.
    pub fn deserialize(token: Token) -> (r: Result<OptionalLenientValue, DecodeError>)
        ensures
            match r {
                Ok(v) => optional_flexible(token@) == Some(v@),
                Err(e) => optional_flexible(token@) is None && e@
                    == DecodeErrorView::UnexpectedShape,
            },
    {
        match token {
            Token::Null => Ok(OptionalLenientValue(None)),
            other => match LenientValue::deserialize(other) {
                Ok(v) => Ok(OptionalLenientValue(Some(v))),
                Err(e) => Err(e),
            },
        }
    }

    /// The value, or `None` for the absent value.
    pub fn into_option(self) -> (r: Option<LenientValue>)
        ensures
            r == self.0,
    {
        self.0
    }
}

} // verus!
