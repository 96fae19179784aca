//! Lenient reading of one value: a number is taken from a number token or
//! from a text that writes it.

use vstd::prelude::*;
use crate::error::{DecodeError, DecodeErrorView};
use crate::internal::{flexible, LenientValue};
use crate::token::{Token, TokenView};
use crate::value::{Target, Value, ValueView};

verus! {

/// What lenient reading of a token as `target` gives. A token that is
/// neither text nor number has an unexpected shape; a text that the type's
/// parser rejects is a parse failure with the parser's message.
pub open spec fn lenient_read(t: TokenView, target: Target) -> Result<ValueView, DecodeErrorView> {
    match flexible(t) {
        None => Err(DecodeErrorView::UnexpectedShape),
        Some(v) => match v.parsed(target) {
            Ok(value) => Ok(value),
            Err(message) => Err(DecodeErrorView::ParseFailure { field: None, message }),
        },
    }
}

/// What lenient reading of a token that may be absent gives: `None` for the
/// absent value, and else what [`lenient_read`] gives.
pub open spec fn lenient_option_read(t: TokenView, target: Target) -> Result<
    Option<ValueView>,
    DecodeErrorView,
> {
    if t is Null {
        Ok(None)
    } else {
        match lenient_read(t, target) {
            Ok(value) => Ok(Some(value)),
            Err(e) => Err(e),
        }
    }
}

/// Reads a value of `target` from a number token or from a text that
/// writes the number.
pub fn lenient(token: Token, target: Target) -> (r: Result<Value, DecodeError>)
    ensures
        match r {
            Ok(v) => lenient_read(token@, target) == Ok::<ValueView, DecodeErrorView>(v@),
            Err(e) => lenient_read(token@, target) == Err::<ValueView, DecodeErrorView>(e@),
        },
{
    match LenientValue::deserialize(token) {
        Err(e) => Err(e),
        Ok(v) => match v.parse(target) {
            Ok(value) => Ok(value),
            Err(message) => Err(DecodeError::ParseFailure { field: None, message }),
        },
    }
}

/// Reads an optional value of `target`: nothing from the absent value, and
/// else a value as [`lenient`] does.
pub fn lenient_option(token: Token, target: Target) -> (r: Result<Option<Value>, DecodeError>)
    ensures
        match r {
            Ok(Some(v)) => lenient_option_read(token@, target) == Ok::<
                Option<ValueView>,
                DecodeErrorView,
            >(Some(v@)),
            Ok(None) => lenient_option_read(token@, target) == Ok::<
                Option<ValueView>,
                DecodeErrorView,
            >(None),
            Err(e) => lenient_option_read(token@, target) == Err::<
                Option<ValueView>,
                DecodeErrorView,
            >(e@),
        },
{
    match token {
        Token::Null => Ok(None),
        other => match lenient(other, target) {
            Ok(value) => Ok(Some(value)),
            Err(e) => Err(e),
        },
    }
}

} // verus!
