//! Field values, and the scalar types that a field can be declared with.

use vstd::prelude::*;
use crate::token::{Token, TokenView};

verus! {

/// The type that a field's value is read as.
#[derive(Debug, Clone, Copy, PartialEq, Eq, Structural)]
pub enum Target {
    U8,
    U16,
    U32,
    U64,
    U128,
    Usize,
    I8,
    I16,
    I32,
    I64,
    I128,
    Isize,
    F32,
    F64,
    Bool,
    Str,
    /// Any other type: its values are left to the host.
    Other,
}

impl Target {
    /// Whether the type is one of the twelve integer types.
    pub open spec fn is_integer(self) -> bool {
        !(self is F32 || self is F64 || self is Bool || self is Str || self is Other)
    }

    /// Whether the type is one of the two floating-point types.
    pub open spec fn is_float(self) -> bool {
        self is F32 || self is F64
    }

    /// Whether the type is an integer type with a sign.
    pub open spec fn is_signed(self) -> bool {
        self is I8 || self is I16 || self is I32 || self is I64 || self is I128 || self is Isize
    }

    /// The least integer of an integer type.
    pub open spec fn min(self) -> int {
        match self {
            Target::I8 => i8::MIN as int,
            Target::I16 => i16::MIN as int,
            Target::I32 => i32::MIN as int,
            Target::I64 => i64::MIN as int,
            Target::I128 => i128::MIN as int,
            Target::Isize => isize::MIN as int,
            _ => 0,
        }
    }

    /// The greatest integer of an integer type.
    pub open spec fn max(self) -> int {
        match self {
            Target::U8 => u8::MAX as int,
            Target::U16 => u16::MAX as int,
            Target::U32 => u32::MAX as int,
            Target::U64 => u64::MAX as int,
            Target::U128 => u128::MAX as int,
            Target::Usize => usize::MAX as int,
            Target::I8 => i8::MAX as int,
            Target::I16 => i16::MAX as int,
            Target::I32 => i32::MAX as int,
            Target::I64 => i64::MAX as int,
            Target::I128 => i128::MAX as int,
            Target::Isize => isize::MAX as int,
            _ => 0,
        }
    }

    /// Whether the type is one of the two integer types of 128 bits.
    pub open spec fn is_wide(self) -> bool {
        self is I128 || self is U128
    }

    /// Whether the integer type holds `n`.
    pub open spec fn holds(self, n: int) -> bool {
        self.is_integer() && self.min() <= n <= self.max()
    }
}

/// The value of one field of a record.
///
/// A floating-point number is held by a decimal text. Decoding puts there the
/// text that the type's own parser is to read; encoding expects the shortest
/// text that reads back as the number.
#[derive(Debug, PartialEq, Eq)]
pub enum Value {
    /// The empty state of an optional field.
    Null,
    Bool(bool),
    U8(u8),
    U16(u16),
    U32(u32),
    U64(u64),
    U128(u128),
    Usize(usize),
    I8(i8),
    I16(i16),
    I32(i32),
    I64(i64),
    I128(i128),
    Isize(isize),
    /// A floating-point number, by a decimal text.
    Float(String),
    Str(String),
    /// A token left to the host, for a type that this library does not read.
    Raw(Token),
}

/// The mathematical model of a [`Value`]: an integer is held with its type.
pub enum ValueView {
    Null,
    Bool(bool),
    Int(Target, int),
    Float(Seq<char>),
    Str(Seq<char>),
    Raw(TokenView),
}

impl View for Value {
    type V = ValueView;

    open spec fn view(&self) -> ValueView {
        match self {
            Value::Null => ValueView::Null,
            Value::Bool(b) => ValueView::Bool(*b),
            Value::U8(v) => ValueView::Int(Target::U8, *v as int),
            Value::U16(v) => ValueView::Int(Target::U16, *v as int),
            Value::U32(v) => ValueView::Int(Target::U32, *v as int),
            Value::U64(v) => ValueView::Int(Target::U64, *v as int),
            Value::U128(v) => ValueView::Int(Target::U128, *v as int),
            Value::Usize(v) => ValueView::Int(Target::Usize, *v as int),
            Value::I8(v) => ValueView::Int(Target::I8, *v as int),
            Value::I16(v) => ValueView::Int(Target::I16, *v as int),
            Value::I32(v) => ValueView::Int(Target::I32, *v as int),
            Value::I64(v) => ValueView::Int(Target::I64, *v as int),
            Value::I128(v) => ValueView::Int(Target::I128, *v as int),
            Value::Isize(v) => ValueView::Int(Target::Isize, *v as int),
            Value::Float(s) => ValueView::Float(s@),
            Value::Str(s) => ValueView::Str(s@),
            Value::Raw(t) => ValueView::Raw(t@),
        }
    }
}

/// The models of a run of values.
pub open spec fn values_view(values: Seq<Value>) -> Seq<ValueView> {
    Seq::new(values.len(), |i: int| values[i]@)
}

/// The token that writes the integer `n`: unsigned where `n` is not
/// negative, and of 64 bits where they hold it.
pub open spec fn integer_token(n: int) -> TokenView {
    if n < 0 {
        if n >= i64::MIN {
            TokenView::I64(n as i64)
        } else {
            TokenView::I128(n as i128)
        }
    } else if n <= u64::MAX {
        TokenView::U64(n as u64)
    } else {
        TokenView::U128(n as u128)
    }
}

impl ValueView {
    /// The token that writes the value in its native form.
    pub open spec fn token(self) -> TokenView {
        match self {
            ValueView::Null => TokenView::Null,
            ValueView::Bool(b) => TokenView::Bool(b),
            ValueView::Int(_, n) => integer_token(n),
            ValueView::Float(s) => TokenView::F64(s),
            ValueView::Str(s) => TokenView::Str(s),
            ValueView::Raw(t) => t,
        }
    }
}

/// The token that writes an unsigned integer.
fn unsigned_token(v: u128) -> (t: Token)
    ensures
        t@ == integer_token(v as int),
{
    if v <= u64::MAX as u128 {
        Token::U64(v as u64)
    } else {
        Token::U128(v)
    }
}

/// The token that writes a signed integer.
fn signed_token(v: i128) -> (t: Token)
    ensures
        t@ == integer_token(v as int),
{
    if v < 0 {
        if v >= i64::MIN as i128 {
            Token::I64(v as i64)
        } else {
            Token::I128(v)
        }
    } else {
        unsigned_token(v as u128)
    }
}

impl Value {
    /// The token that writes the value in its native form: a number as a
    /// number, never as text.
    pub fn to_token(&self) -> (t: Token)
        ensures
            t@ == self@.token(),
    {
        match self {
            Value::Null => Token::Null,
            Value::Bool(b) => Token::Bool(*b),
            Value::U8(v) => unsigned_token(*v as u128),
            Value::U16(v) => unsigned_token(*v as u128),
            Value::U32(v) => unsigned_token(*v as u128),
            Value::U64(v) => unsigned_token(*v as u128),
            Value::U128(v) => unsigned_token(*v),
            Value::Usize(v) => unsigned_token(*v as u128),
            Value::I8(v) => signed_token(*v as i128),
            Value::I16(v) => signed_token(*v as i128),
            Value::I32(v) => signed_token(*v as i128),
            Value::I64(v) => signed_token(*v as i128),
            Value::I128(v) => signed_token(*v),
            Value::Isize(v) => signed_token(*v as i128),
            Value::Float(s) => Token::F64(s.clone()),
            Value::Str(s) => Token::Str(s.clone()),
            Value::Raw(t) => t.clone(),
        }
    }
}

impl Clone for Value {
    /// A copy of the value.
    fn clone(&self) -> (copy: Value)
        ensures
            copy@ == self@,
    {
        match self {
            Value::Null => Value::Null,
            Value::Bool(b) => Value::Bool(*b),
            Value::U8(v) => Value::U8(*v),
            Value::U16(v) => Value::U16(*v),
            Value::U32(v) => Value::U32(*v),
            Value::U64(v) => Value::U64(*v),
            Value::U128(v) => Value::U128(*v),
            Value::Usize(v) => Value::Usize(*v),
            Value::I8(v) => Value::I8(*v),
            Value::I16(v) => Value::I16(*v),
            Value::I32(v) => Value::I32(*v),
            Value::I64(v) => Value::I64(*v),
            Value::I128(v) => Value::I128(*v),
            Value::Isize(v) => Value::Isize(*v),
            Value::Float(s) => Value::Float(s.clone()),
            Value::Str(s) => Value::Str(s.clone()),
            Value::Raw(t) => Value::Raw(t.clone()),
        }
    }
}

} // verus!
