//! What a decoder knows of one field, and how it reads the field's token.

use vstd::prelude::*;
use crate::analysis::{
    classify, get_serde_tuplex_attr, is_option_type, target_of, Classification,
};
use crate::de::{lenient, lenient_option, lenient_option_read, lenient_read};
use crate::error::{DecodeError, DecodeErrorView};
use crate::internal::{flexible, LenientValue};
use crate::syntax::FieldDef;
use crate::token::{Token, TokenView};
use crate::value::{Target, Value, ValueView};

verus! {

/// The decisions taken for one field when a decoder is made. A decoder does
/// not look at the definition again.
#[derive(Debug, PartialEq, Eq)]
pub struct FieldPlan {
    pub name: String,
    pub class: Classification,
    /// Whether the declared type is `Option`: such a field may be left out of
    /// a keyed input.
    pub optional: bool,
    /// The scalar type that a value of the field is read as.
    pub target: Target,
}

/// The mathematical model of a [`FieldPlan`].
pub struct FieldPlanView {
    pub name: Seq<char>,
    pub class: Classification,
    pub optional: bool,
    pub target: Target,
}

impl View for FieldPlan {
    type V = FieldPlanView;

    open spec fn view(&self) -> FieldPlanView {
        FieldPlanView {
            name: self.name@,
            class: self.class,
            optional: self.optional,
            target: self.target,
        }
    }
}

/// The models of a run of plans.
pub open spec fn plans_view(plans: Seq<FieldPlan>) -> Seq<FieldPlanView> {
    Seq::new(plans.len(), |i: int| plans[i]@)
}

/// The plan for a field: read as the classifier says, or strictly where
/// `lenient` is off.
pub open spec fn planned(field: FieldDef, lenient: bool) -> FieldPlanView {
    FieldPlanView {
        name: field.ident@,
        class: if lenient {
            field.classification()
        } else {
            Classification::Strict
        },
        optional: field.ty.is_option(),
        target: field.ty.target(),
    }
}

/// What strict reading of a token as `target` gives: the native form of the
/// type, and nothing else.
///
/// An integer type takes an integer token that it holds, in the form of 128
/// bits only where the type has 128 bits. A floating-point type takes a
/// number of up to 64 bits, and keeps its text. `bool` takes a truth value
/// and text takes text. A token for any other type is handed on as it is.
/// Where the field is optional, the absent value gives the empty state.
pub open spec fn strict_read(t: TokenView, target: Target, optional: bool) -> Result<
    ValueView,
    DecodeErrorView,
> {
    if optional && t is Null {
        Ok(ValueView::Null)
    } else {
        match target {
            Target::F32 | Target::F64 => match flexible(t) {
                Some(v) => if v is String {
                    Err(DecodeErrorView::UnexpectedShape)
                } else {
                    Ok(ValueView::Float(v.text()))
                },
                None => Err(DecodeErrorView::UnexpectedShape),
            },
            Target::Bool => match t {
                TokenView::Bool(b) => Ok(ValueView::Bool(b)),
                _ => Err(DecodeErrorView::UnexpectedShape),
            },
            Target::Str => match t {
                TokenView::Str(s) => Ok(ValueView::Str(s)),
                _ => Err(DecodeErrorView::UnexpectedShape),
            },
            Target::Other => Ok(ValueView::Raw(t)),
            _ => match t.integer() {
                Some(n) => if target.holds(n) && (t.is_wide() ==> target.is_wide()) {
                    Ok(ValueView::Int(target, n))
                } else {
                    Err(DecodeErrorView::UnexpectedShape)
                },
                None => Err(DecodeErrorView::UnexpectedShape),
            },
        }
    }
}

impl FieldPlanView {
    /// What reading the field from a token gives.
    pub open spec fn decoded(self, t: TokenView) -> Result<ValueView, DecodeErrorView> {
        match self.class {
            Classification::Strict => strict_read(t, self.target, self.optional),
            Classification::Lenient => lenient_read(t, self.target),
            Classification::LenientOptional => match lenient_option_read(t, self.target) {
                Ok(Some(value)) => Ok(value),
                Ok(None) => Ok(ValueView::Null),
                Err(e) => Err(e),
            },
        }
    }
}

/// The integer of an integer token, where it lies from 0 to `max`. A token
/// in the form of 128 bits is taken where `wide` is set.
fn unsigned_in(token: &Token, max: u128, wide: bool) -> (r: Option<u128>)
    ensures
        match r {
            Some(n) => token@.integer() == Some(n as int) && n <= max && (token@.is_wide()
                ==> wide),
            None => !(token@.integer() matches Some(n) && 0 <= n <= max && (token@.is_wide()
                ==> wide)),
        },
{
    match token {
        Token::I64(v) => if *v >= 0 && *v as u128 <= max {
            Some(*v as u128)
        } else {
            None
        },
        Token::U64(v) => if *v as u128 <= max {
            Some(*v as u128)
        } else {
            None
        },
        Token::I128(v) => if wide && *v >= 0 && *v as u128 <= max {
            Some(*v as u128)
        } else {
            None
        },
        Token::U128(v) => if wide && *v <= max {
            Some(*v)
        } else {
            None
        },
        _ => None,
    }
}

/// The integer of an integer token, where it lies from `min` to `max`. A
/// token in the form of 128 bits is taken where `wide` is set.
fn signed_in(token: &Token, min: i128, max: i128, wide: bool) -> (r: Option<i128>)
    requires
        min <= 0 <= max,
    ensures
        match r {
            Some(n) => token@.integer() == Some(n as int) && min <= n <= max && (
            token@.is_wide() ==> wide),
            None => !(token@.integer() matches Some(n) && min <= n <= max && (token@.is_wide()
                ==> wide)),
        },
{
    match token {
        Token::I64(v) => if min <= *v as i128 && *v as i128 <= max {
            Some(*v as i128)
        } else {
            None
        },
        Token::U64(v) => if *v as i128 <= max {
            Some(*v as i128)
        } else {
            None
        },
        Token::I128(v) => if wide && min <= *v && *v <= max {
            Some(*v)
        } else {
            None
        },
        Token::U128(v) => if wide && *v <= max as u128 {
            Some(*v as i128)
        } else {
            None
        },
        _ => None,
    }
}

/// Reads a value of `target` from its native form.
pub fn strict(token: Token, target: Target, optional: bool) -> (r: Result<Value, DecodeError>)
    ensures
        match r {
            Ok(v) => strict_read(token@, target, optional) == Ok::<ValueView, DecodeErrorView>(
                v@,
            ),
            Err(e) => strict_read(token@, target, optional) == Err::<
                ValueView,
                DecodeErrorView,
            >(e@),
        },
{
    if optional {
        if let Token::Null = token {
            return Ok(Value::Null);
        }
    }
    match target {
        Target::U8 => match unsigned_in(&token, u8::MAX as u128, false) {
            Some(n) => Ok(Value::U8(n as u8)),
            None => Err(DecodeError::UnexpectedShape),
        },
        Target::U16 => match unsigned_in(&token, u16::MAX as u128, false) {
            Some(n) => Ok(Value::U16(n as u16)),
            None => Err(DecodeError::UnexpectedShape),
        },
        Target::U32 => match unsigned_in(&token, u32::MAX as u128, false) {
            Some(n) => Ok(Value::U32(n as u32)),
            None => Err(DecodeError::UnexpectedShape),
        },
        Target::U64 => match unsigned_in(&token, u64::MAX as u128, false) {
            Some(n) => Ok(Value::U64(n as u64)),
            None => Err(DecodeError::UnexpectedShape),
        },
        Target::U128 => match unsigned_in(&token, u128::MAX, true) {
            Some(n) => Ok(Value::U128(n)),
            None => Err(DecodeError::UnexpectedShape),
        },
        Target::Usize => match unsigned_in(&token, usize::MAX as u128, false) {
            Some(n) => Ok(Value::Usize(n as usize)),
            None => Err(DecodeError::UnexpectedShape),
        },
        Target::I8 => match signed_in(&token, i8::MIN as i128, i8::MAX as i128, false) {
            Some(n) => Ok(Value::I8(n as i8)),
            None => Err(DecodeError::UnexpectedShape),
        },
        Target::I16 => match signed_in(&token, i16::MIN as i128, i16::MAX as i128, false) {
            Some(n) => Ok(Value::I16(n as i16)),
            None => Err(DecodeError::UnexpectedShape),
        },
        Target::I32 => match signed_in(&token, i32::MIN as i128, i32::MAX as i128, false) {
            Some(n) => Ok(Value::I32(n as i32)),
            None => Err(DecodeError::UnexpectedShape),
        },
        Target::I64 => match signed_in(&token, i64::MIN as i128, i64::MAX as i128, false) {
            Some(n) => Ok(Value::I64(n as i64)),
            None => Err(DecodeError::UnexpectedShape),
        },
        Target::I128 => match signed_in(&token, i128::MIN, i128::MAX, true) {
            Some(n) => Ok(Value::I128(n)),
            None => Err(DecodeError::UnexpectedShape),
        },
        Target::Isize => match signed_in(&token, isize::MIN as i128, isize::MAX as i128, false) {
            Some(n) => Ok(Value::Isize(n as isize)),
            None => Err(DecodeError::UnexpectedShape),
        },
        Target::F32 | Target::F64 => match LenientValue::deserialize(token) {
            Ok(LenientValue::String(_)) => Err(DecodeError::UnexpectedShape),
            Ok(number) => Ok(Value::Float(number.render())),
            Err(e) => Err(e),
        },
        Target::Bool => match token {
            Token::Bool(b) => Ok(Value::Bool(b)),
            _ => Err(DecodeError::UnexpectedShape),
        },
        Target::Str => match token {
            Token::Str(s) => Ok(Value::Str(s)),
            _ => Err(DecodeError::UnexpectedShape),
        },
        Target::Other => Ok(Value::Raw(token)),
    }
}

impl FieldPlan {
    /// The plan for a field of a definition. With `lenient` off, the field
    /// is read strictly whatever its type and override.
    pub fn new(field: &FieldDef, lenient: bool) -> (plan: FieldPlan)
        ensures
            plan@ == planned(*field, lenient),
    {
        FieldPlan {
            name: field.ident.clone(),
            class: if lenient {
                classify(&field.ty, get_serde_tuplex_attr(field))
            } else {
                Classification::Strict
            },
            optional: is_option_type(&field.ty),
            target: target_of(&field.ty),
        }
    }

    /// Reads the field from its token: strictly, leniently, or leniently
    /// with the absent value allowed, as the plan says.
    pub fn decode(&self, token: Token) -> (r: Result<Value, DecodeError>)
        ensures
            match r {
                Ok(v) => self@.decoded(token@) == Ok::<ValueView, DecodeErrorView>(v@),
                Err(e) => self@.decoded(token@) == Err::<ValueView, DecodeErrorView>(e@),
            },
    {
        match self.class {
            Classification::Strict => strict(token, self.target, self.optional),
            Classification::Lenient => lenient(token, self.target),
            Classification::LenientOptional => match lenient_option(token, self.target) {
                Ok(Some(value)) => Ok(value),
                Ok(None) => Ok(Value::Null),
                Err(e) => Err(e),
            },
        }
    }
}

} // verus!
