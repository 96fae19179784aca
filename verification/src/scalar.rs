//! Scalars read from text, by the standard parsers.
//!
//! The parsers are the standard library's, and what this file states of
//! them is taken on trust from its documentation. The rest of the library
//! is proved from these statements.

use vstd::prelude::*;
use crate::text::decimal_value;
use crate::token::{Token, TokenView};
use crate::value::{Target, Value, ValueView};

verus! {

/// The message with which the standard parser of `target` rejects `text`.
/// Text, a floating-point type and any other type have no parser here, and
/// no message.
pub open spec fn parse_message(target: Target, text: Seq<char>) -> Seq<char> {
    match target {
        Target::U8 => u8_message(text),
        Target::U16 => u16_message(text),
        Target::U32 => u32_message(text),
        Target::U64 => u64_message(text),
        Target::U128 => u128_message(text),
        Target::Usize => usize_message(text),
        Target::I8 => i8_message(text),
        Target::I16 => i16_message(text),
        Target::I32 => i32_message(text),
        Target::I64 => i64_message(text),
        Target::I128 => i128_message(text),
        Target::Isize => isize_message(text),
        Target::Bool => bool_message(text),
        _ => Seq::empty(),
    }
}

/// The integer that `text` denotes in the integer type `target`: the text is
/// a decimal literal, signed only where the type is, and the type holds the
/// integer.
pub open spec fn integer_of(text: Seq<char>, target: Target) -> Option<int> {
    match decimal_value(text, target.is_signed()) {
        Some(n) => if target.holds(n) {
            Some(n)
        } else {
            None
        },
        None => None,
    }
}

/// The truth value that `text` denotes: `true` and `false` are the only
/// texts that denote one.
pub open spec fn bool_of(text: Seq<char>) -> Option<bool> {
    if text == "true"@ {
        Some(true)
    } else if text == "false"@ {
        Some(false)
    } else {
        None
    }
}

/// What reading `text` as a value of `target` gives.
///
/// An integer type and `bool` read the text with their standard parsers, and
/// fail with the parser's message. Text stays as it is. A floating-point
/// type keeps the text for its own parser, and any other type has it handed
/// on as a text token.
pub open spec fn parsed(text: Seq<char>, target: Target) -> Result<ValueView, Seq<char>> {
    match target {
        Target::F32 | Target::F64 => Ok(ValueView::Float(text)),
        Target::Bool => match bool_of(text) {
            Some(b) => Ok(ValueView::Bool(b)),
            None => Err(parse_message(target, text)),
        },
        Target::Str => Ok(ValueView::Str(text)),
        Target::Other => Ok(ValueView::Raw(TokenView::Str(text))),
        _ => match integer_of(text, target) {
            Some(n) => Ok(ValueView::Int(target, n)),
            None => Err(parse_message(target, text)),
        },
    }
}

/// The message with which `str::parse::<u8>` rejects `text`.
pub uninterp spec fn u8_message(text: Seq<char>) -> Seq<char>;

/// `str::parse::<u8>`, with the error rendered by its `Display`.
///
/// Trusted: the parser accepts an optional `+` and then decimal
/// digits, gives the integer that they denote where `u8` holds it, and
/// rejects every other text.
#[verifier::external_body]
fn parse_u8(s: &str) -> (r: Result<u8, String>)
    ensures
        match r {
            Ok(v) => integer_of(s@, Target::U8) == Some(v as int),
            Err(m) => integer_of(s@, Target::U8) is None && m@ == u8_message(s@),
        },
{
    match s.parse::<u8>() {
        Ok(v) => Ok(v),
        Err(e) => Err(format!("{}", e)),
    }
}

/// The message with which `str::parse::<u16>` rejects `text`.
pub uninterp spec fn u16_message(text: Seq<char>) -> Seq<char>;

/// `str::parse::<u16>`, with the error rendered by its `Display`.
///
/// Trusted: the parser accepts an optional `+` and then decimal
/// digits, gives the integer that they denote where `u16` holds it, and
/// rejects every other text.
#[verifier::external_body]
fn parse_u16(s: &str) -> (r: Result<u16, String>)
    ensures
        match r {
            Ok(v) => integer_of(s@, Target::U16) == Some(v as int),
            Err(m) => integer_of(s@, Target::U16) is None && m@ == u16_message(s@),
        },
{
    match s.parse::<u16>() {
        Ok(v) => Ok(v),
        Err(e) => Err(format!("{}", e)),
    }
}

/// The message with which `str::parse::<u32>` rejects `text`.
pub uninterp spec fn u32_message(text: Seq<char>) -> Seq<char>;

/// `str::parse::<u32>`, with the error rendered by its `Display`.
///
/// Trusted: the parser accepts an optional `+` and then decimal
/// digits, gives the integer that they denote where `u32` holds it, and
/// rejects every other text.
#[verifier::external_body]
fn parse_u32(s: &str) -> (r: Result<u32, String>)
    ensures
        match r {
            Ok(v) => integer_of(s@, Target::U32) == Some(v as int),
            Err(m) => integer_of(s@, Target::U32) is None && m@ == u32_message(s@),
        },
{
    match s.parse::<u32>() {
        Ok(v) => Ok(v),
        Err(e) => Err(format!("{}", e)),
    }
}

/// The message with which `str::parse::<u64>` rejects `text`.
pub uninterp spec fn u64_message(text: Seq<char>) -> Seq<char>;

/// `str::parse::<u64>`, with the error rendered by its `Display`.
///
/// Trusted: the parser accepts an optional `+` and then decimal
/// digits, gives the integer that they denote where `u64` holds it, and
/// rejects every other text.
#[verifier::external_body]
fn parse_u64(s: &str) -> (r: Result<u64, String>)
    ensures
        match r {
            Ok(v) => integer_of(s@, Target::U64) == Some(v as int),
            Err(m) => integer_of(s@, Target::U64) is None && m@ == u64_message(s@),
        },
{
    match s.parse::<u64>() {
        Ok(v) => Ok(v),
        Err(e) => Err(format!("{}", e)),
    }
}

/// The message with which `str::parse::<u128>` rejects `text`.
pub uninterp spec fn u128_message(text: Seq<char>) -> Seq<char>;

/// `str::parse::<u128>`, with the error rendered by its `Display`.
///
/// Trusted: the parser accepts an optional `+` and then decimal
/// digits, gives the integer that they denote where `u128` holds it, and
/// rejects every other text.
#[verifier::external_body]
fn parse_u128(s: &str) -> (r: Result<u128, String>)
    ensures
        match r {
            Ok(v) => integer_of(s@, Target::U128) == Some(v as int),
            Err(m) => integer_of(s@, Target::U128) is None && m@ == u128_message(s@),
        },
{
    match s.parse::<u128>() {
        Ok(v) => Ok(v),
        Err(e) => Err(format!("{}", e)),
    }
}

/// The message with which `str::parse::<usize>` rejects `text`.
pub uninterp spec fn usize_message(text: Seq<char>) -> Seq<char>;

/// `str::parse::<usize>`, with the error rendered by its `Display`.
///
/// Trusted: the parser accepts an optional `+` and then decimal
/// digits, gives the integer that they denote where `usize` holds it, and
/// rejects every other text.
#[verifier::external_body]
fn parse_usize(s: &str) -> (r: Result<usize, String>)
    ensures
        match r {
            Ok(v) => integer_of(s@, Target::Usize) == Some(v as int),
            Err(m) => integer_of(s@, Target::Usize) is None && m@ == usize_message(s@),
        },
{
    match s.parse::<usize>() {
        Ok(v) => Ok(v),
        Err(e) => Err(format!("{}", e)),
    }
}

/// The message with which `str::parse::<i8>` rejects `text`.
pub uninterp spec fn i8_message(text: Seq<char>) -> Seq<char>;

/// `str::parse::<i8>`, with the error rendered by its `Display`.
///
/// Trusted: the parser accepts an optional `+` or `-` and then decimal
/// digits, gives the integer that they denote where `i8` holds it, and
/// rejects every other text.
#[verifier::external_body]
fn parse_i8(s: &str) -> (r: Result<i8, String>)
    ensures
        match r {
            Ok(v) => integer_of(s@, Target::I8) == Some(v as int),
            Err(m) => integer_of(s@, Target::I8) is None && m@ == i8_message(s@),
        },
{
    match s.parse::<i8>() {
        Ok(v) => Ok(v),
        Err(e) => Err(format!("{}", e)),
    }
}

/// The message with which `str::parse::<i16>` rejects `text`.
pub uninterp spec fn i16_message(text: Seq<char>) -> Seq<char>;

/// `str::parse::<i16>`, with the error rendered by its `Display`.
///
/// Trusted: the parser accepts an optional `+` or `-` and then decimal
/// digits, gives the integer that they denote where `i16` holds it, and
/// rejects every other text.
#[verifier::external_body]
fn parse_i16(s: &str) -> (r: Result<i16, String>)
    ensures
        match r {
            Ok(v) => integer_of(s@, Target::I16) == Some(v as int),
            Err(m) => integer_of(s@, Target::I16) is None && m@ == i16_message(s@),
        },
{
    match s.parse::<i16>() {
        Ok(v) => Ok(v),
        Err(e) => Err(format!("{}", e)),
    }
}

/// The message with which `str::parse::<i32>` rejects `text`.
pub uninterp spec fn i32_message(text: Seq<char>) -> Seq<char>;

/// `str::parse::<i32>`, with the error rendered by its `Display`.
///
/// Trusted: the parser accepts an optional `+` or `-` and then decimal
/// digits, gives the integer that they denote where `i32` holds it, and
/// rejects every other text.
#[verifier::external_body]
fn parse_i32(s: &str) -> (r: Result<i32, String>)
    ensures
        match r {
            Ok(v) => integer_of(s@, Target::I32) == Some(v as int),
            Err(m) => integer_of(s@, Target::I32) is None && m@ == i32_message(s@),
        },
{
    match s.parse::<i32>() {
        Ok(v) => Ok(v),
        Err(e) => Err(format!("{}", e)),
    }
}

/// The message with which `str::parse::<i64>` rejects `text`.
pub uninterp spec fn i64_message(text: Seq<char>) -> Seq<char>;

/// `str::parse::<i64>`, with the error rendered by its `Display`.
///
/// Trusted: the parser accepts an optional `+` or `-` and then decimal
/// digits, gives the integer that they denote where `i64` holds it, and
/// rejects every other text.
#[verifier::external_body]
fn parse_i64(s: &str) -> (r: Result<i64, String>)
    ensures
        match r {
            Ok(v) => integer_of(s@, Target::I64) == Some(v as int),
            Err(m) => integer_of(s@, Target::I64) is None && m@ == i64_message(s@),
        },
{
    match s.parse::<i64>() {
        Ok(v) => Ok(v),
        Err(e) => Err(format!("{}", e)),
    }
}

/// The message with which `str::parse::<i128>` rejects `text`.
pub uninterp spec fn i128_message(text: Seq<char>) -> Seq<char>;

/// `str::parse::<i128>`, with the error rendered by its `Display`.
///
/// Trusted: the parser accepts an optional `+` or `-` and then decimal
/// digits, gives the integer that they denote where `i128` holds it, and
/// rejects every other text.
#[verifier::external_body]
fn parse_i128(s: &str) -> (r: Result<i128, String>)
    ensures
        match r {
            Ok(v) => integer_of(s@, Target::I128) == Some(v as int),
            Err(m) => integer_of(s@, Target::I128) is None && m@ == i128_message(s@),
        },
{
    match s.parse::<i128>() {
        Ok(v) => Ok(v),
        Err(e) => Err(format!("{}", e)),
    }
}

/// The message with which `str::parse::<isize>` rejects `text`.
pub uninterp spec fn isize_message(text: Seq<char>) -> Seq<char>;

/// `str::parse::<isize>`, with the error rendered by its `Display`.
///
/// Trusted: the parser accepts an optional `+` or `-` and then decimal
/// digits, gives the integer that they denote where `isize` holds it, and
/// rejects every other text.
#[verifier::external_body]
fn parse_isize(s: &str) -> (r: Result<isize, String>)
    ensures
        match r {
            Ok(v) => integer_of(s@, Target::Isize) == Some(v as int),
            Err(m) => integer_of(s@, Target::Isize) is None && m@ == isize_message(s@),
        },
{
    match s.parse::<isize>() {
        Ok(v) => Ok(v),
        Err(e) => Err(format!("{}", e)),
    }
}

/// The message with which `str::parse::<bool>` rejects `text`.
pub uninterp spec fn bool_message(text: Seq<char>) -> Seq<char>;

/// `str::parse::<bool>`, with the error rendered by its `Display`.
///
/// Trusted: the parser accepts `true` and `false` and no other text.
#[verifier::external_body]
fn parse_bool(s: &str) -> (r: Result<bool, String>)
    ensures
        match r {
            Ok(v) => bool_of(s@) == Some(v),
            Err(m) => bool_of(s@) is None && m@ == bool_message(s@),
        },
{
    match s.parse::<bool>() {
        Ok(v) => Ok(v),
        Err(e) => Err(format!("{}", e)),
    }
}

/// Reads `text` as a value of `target`.
pub fn parse_text(text: &str, target: Target) -> (r: Result<Value, String>)
    ensures
        match r {
            Ok(v) => parsed(text@, target) == Ok::<ValueView, Seq<char>>(v@),
            Err(m) => parsed(text@, target) == Err::<ValueView, Seq<char>>(m@),
        },
{
    match target {
        Target::U8 => match parse_u8(text) {
            Ok(v) => Ok(Value::U8(v)),
            Err(m) => Err(m),
        },
        Target::U16 => match parse_u16(text) {
            Ok(v) => Ok(Value::U16(v)),
            Err(m) => Err(m),
        },
        Target::U32 => match parse_u32(text) {
            Ok(v) => Ok(Value::U32(v)),
            Err(m) => Err(m),
        },
        Target::U64 => match parse_u64(text) {
            Ok(v) => Ok(Value::U64(v)),
            Err(m) => Err(m),
        },
        Target::U128 => match parse_u128(text) {
            Ok(v) => Ok(Value::U128(v)),
            Err(m) => Err(m),
        },
        Target::Usize => match parse_usize(text) {
            Ok(v) => Ok(Value::Usize(v)),
            Err(m) => Err(m),
        },
        Target::I8 => match parse_i8(text) {
            Ok(v) => Ok(Value::I8(v)),
            Err(m) => Err(m),
        },
        Target::I16 => match parse_i16(text) {
            Ok(v) => Ok(Value::I16(v)),
            Err(m) => Err(m),
        },
        Target::I32 => match parse_i32(text) {
            Ok(v) => Ok(Value::I32(v)),
            Err(m) => Err(m),
        },
        Target::I64 => match parse_i64(text) {
            Ok(v) => Ok(Value::I64(v)),
            Err(m) => Err(m),
        },
        Target::I128 => match parse_i128(text) {
            Ok(v) => Ok(Value::I128(v)),
            Err(m) => Err(m),
        },
        Target::Isize => match parse_isize(text) {
            Ok(v) => Ok(Value::Isize(v)),
            Err(m) => Err(m),
        },
        Target::F32 | Target::F64 => Ok(Value::Float(text.to_owned())),
        Target::Bool => match parse_bool(text) {
            Ok(v) => Ok(Value::Bool(v)),
            Err(m) => Err(m),
        },
        Target::Str => Ok(Value::Str(text.to_owned())),
        Target::Other => Ok(Value::Raw(Token::Str(text.to_owned()))),
    }
}

} // verus!
