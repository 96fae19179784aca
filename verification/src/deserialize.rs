//! The strict positional decoder.

use vstd::prelude::*;
use crate::error::GenError;
use crate::lenient::{
    named_fields, plan_fields, plans, Deserializer, DeserializerView, TupleVisitor,
};
use crate::syntax::{Data, DeriveInput, Fields};

verus! {

/// Why no positional decoder is made for a definition of another form.
pub open spec fn tuple_refusal(data: Data) -> Seq<char> {
    match data {
        Data::Struct(Fields::Unnamed) => "Tuple does not support tuple structs"@,
        Data::Struct(Fields::Unit) => "Tuple does not support unit structs"@,
        _ => "Tuple only supports structs"@,
    }
}

/// Makes the positional decoder that reads every field strictly, whatever
/// its type and override.
///
/// A definition that is no struct with named fields is refused.
pub fn gen_deserialize_impl(input: &DeriveInput) -> (r: Result<Deserializer, GenError>)
    ensures
        match r {
            Ok(d) => named_fields(*input) matches Some(fields) && d@ == DeserializerView::Tuple(
                plans(fields, false),
            ),
            Err(e) => named_fields(*input) is None && e.message@ == tuple_refusal(input.data),
        },
{
    let fields = match &input.data {
        Data::Struct(data) => match data {
            Fields::Named(fields) => fields,
            Fields::Unnamed => {
                return Err(GenError { message: "Tuple does not support tuple structs".to_owned() });
            },
            Fields::Unit => {
                return Err(GenError { message: "Tuple does not support unit structs".to_owned() });
            },
        },
        _ => {
            return Err(GenError { message: "Tuple only supports structs".to_owned() });
        },
    };
    Ok(Deserializer::Tuple(TupleVisitor { fields: plan_fields(fields, false) }))
}

} // verus!
