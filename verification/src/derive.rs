//! The three things that can be made for a record definition.

use vstd::prelude::*;
use crate::deserialize::gen_deserialize_impl;
use crate::error::{strings_view, GenError};
use crate::lenient::{
    gen_lenient_deserialize, lenient_refusal, named_fields, plans, Deserializer, DeserializerView,
};
use crate::serialize::{gen_serialize_impl, names_of, serialize_refusal, Serializer};
use crate::syntax::DeriveInput;

verus! {

/// An encoder and a decoder for the same record type.
#[derive(Debug, PartialEq, Eq)]
pub struct Codec {
    pub serializer: Serializer,
    pub deserializer: Deserializer,
}

/// Makes the positional encoder and the strict positional decoder for a
/// definition: a record is written and read as an array, `[1,2]` in place
/// of `{"x":1,"y":2}`.
pub fn derive_tuple(input: &DeriveInput) -> (r: Result<Codec, GenError>)
    ensures
        match r {
            Ok(codec) => named_fields(*input) matches Some(fields) && strings_view(
                codec.serializer.fields@,
            ) == names_of(fields) && codec.deserializer@ == DeserializerView::Tuple(
                plans(fields, false),
            ),
            Err(e) => named_fields(*input) is None && e.message@ == serialize_refusal(
                input.data,
            ),
        },
{
    let serializer = match gen_serialize_impl(input) {
        Ok(serializer) => serializer,
        Err(e) => {
            return Err(e);
        },
    };
    let deserializer = match gen_deserialize_impl(input) {
        Ok(deserializer) => deserializer,
        Err(e) => {
            return Err(e);
        },
    };
    Ok(Codec { serializer, deserializer })
}

/// Makes the keyed decoder that reads numeric fields leniently: from `123`
/// and from `"123"` alike.
pub fn derive_lenient(input: &DeriveInput) -> (r: Result<Deserializer, GenError>)
    ensures
        match r {
            Ok(d) => named_fields(*input) matches Some(fields) && d@ == DeserializerView::Struct(
                plans(fields, true),
            ),
            Err(e) => named_fields(*input) is None && e.message@ == lenient_refusal(input.data),
        },
{
    gen_lenient_deserialize(input, false)
}

/// Makes the positional encoder and the lenient positional decoder for a
/// definition: a record is written as `[1,2]`, and read from `[1,2]` and
/// from `["1","2"]` alike.
pub fn derive_tuple_lenient(input: &DeriveInput) -> (r: Result<Codec, GenError>)
    ensures
        match r {
            Ok(codec) => named_fields(*input) matches Some(fields) && strings_view(
                codec.serializer.fields@,
            ) == names_of(fields) && codec.deserializer@ == DeserializerView::Tuple(
                plans(fields, true),
            ),
            Err(e) => named_fields(*input) is None && e.message@ == serialize_refusal(
                input.data,
            ),
        },
{
    let serializer = match gen_serialize_impl(input) {
        Ok(serializer) => serializer,
        Err(e) => {
            return Err(e);
        },
    };
    let deserializer = match gen_lenient_deserialize(input, true) {
        Ok(deserializer) => deserializer,
        Err(e) => {
            return Err(e);
        },
    };
    Ok(Codec { serializer, deserializer })
}

} // verus!
