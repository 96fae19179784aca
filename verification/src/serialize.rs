//! The positional encoder.

use vstd::prelude::*;
use crate::error::{strings_view, GenError};
use crate::lenient::named_fields;
use crate::syntax::{Data, DeriveInput, FieldDef, Fields};
use crate::token::{tokens_view, Token, TokenView};
use crate::value::{values_view, Value, ValueView};

verus! {

/// The names of the fields of a definition, in the order of declaration.
pub open spec fn names_of(fields: Seq<FieldDef>) -> Seq<Seq<char>> {
    Seq::new(fields.len(), |i: int| fields[i].ident@)
}

/// The tokens that write the values of a record: one for each value, in the
/// same order, each the native form of its value.
pub open spec fn encoded(values: Seq<ValueView>) -> Seq<TokenView> {
    Seq::new(values.len(), |i: int| values[i].token())
}

/// Why no encoder is made for a definition of another form.
pub open spec fn serialize_refusal(data: Data) -> Seq<char> {
    match data {
        Data::Struct(_) => "Serialize does not support tuple structs"@,
        _ => "Only supports structs"@,
    }
}

/// An encoder of records of one type as arrays.
#[derive(Debug, PartialEq, Eq)]
pub struct Serializer {
    /// The names of the fields, in the order of declaration.
    pub fields: Vec<String>,
}

impl Serializer {
    /// Writes a record as an array of as many tokens as the type has
    /// fields, in the order of declaration. Nothing is written as text that
    /// is not text: leniency is for input only.
    ///
    /// `None` where the record does not hold one value for each field.
    pub fn serialize(&self, record: &Vec<Value>) -> (r: Option<Token>)
        ensures
            match r {
                Some(token) => record@.len() == self.fields@.len() && token@ == TokenView::Array(
                    encoded(values_view(record@)),
                ),
                None => record@.len() != self.fields@.len(),
            },
    {
        if record.len() != self.fields.len() {
            return None;
        }
        let mut tokens: Vec<Token> = Vec::new();
        let mut i: usize = 0;
        while i < record.len()
            invariant
                i <= record.len(),
                tokens@.len() == i,
                forall|j: int| 0 <= j < i ==> #[trigger] tokens@[j]@ == record@[j]@.token(),
            decreases record.len() - i,
        {
            tokens.push(record[i].to_token());
            i += 1;
        }
        let token = Token::Array(tokens);
        proof {
            crate::token::lemma_token_view(token);
            assert(tokens_view(tokens@) =~= encoded(values_view(record@)));
        }
        Some(token)
    }
}

/// Makes the positional encoder for a definition.
///
/// A definition that is no struct with named fields is refused.
pub fn gen_serialize_impl(input: &DeriveInput) -> (r: Result<Serializer, GenError>)
    ensures
        match r {
            Ok(s) => named_fields(*input) matches Some(fields) && strings_view(s.fields@)
                == names_of(fields),
            Err(e) => named_fields(*input) is None && e.message@ == serialize_refusal(
                input.data,
            ),
        },
{
    let fields = match &input.data {
        Data::Struct(data) => match data {
            Fields::Named(fields) => fields,
            _ => {
                return Err(
                    GenError { message: "Serialize does not support tuple structs".to_owned() },
                );
            },
        },
        _ => {
            return Err(GenError { message: "Only supports structs".to_owned() });
        },
    };
    let mut names: Vec<String> = Vec::new();
    let mut i: usize = 0;
    while i < fields.len()
        invariant
            i <= fields.len(),
            names@.len() == i,
            forall|j: int| 0 <= j < i ==> names@[j]@ == fields@[j].ident@,
        decreases fields.len() - i,
    {
        names.push(fields[i].ident.clone());
        i += 1;
    }
    assert(strings_view(names@) =~= names_of(fields@));
    Ok(Serializer { fields: names })
}

} // verus!
