//! Decoders that read numeric fields leniently, from a positional or from a
//! keyed input.

use vstd::prelude::*;
use crate::error::{strings_view, DecodeError, DecodeErrorView, GenError};
use crate::plan::{planned, plans_view, FieldPlan, FieldPlanView};
use crate::syntax::{Data, DeriveInput, FieldDef, Fields};
use crate::token::{entries_view, lemma_token_view, tokens_view, Token, TokenView};
use crate::text::text_eq;
use crate::value::{values_view, Value, ValueView};

verus! {

/// The plans for the fields of a definition, in the order of their
/// declaration.
pub open spec fn plans(fields: Seq<FieldDef>, lenient: bool) -> Seq<FieldPlanView> {
    Seq::new(fields.len(), |i: int| planned(fields[i], lenient))
}

/// Makes the plans for the fields of a definition.
pub fn plan_fields(fields: &Vec<FieldDef>, lenient: bool) -> (out: Vec<FieldPlan>)
    ensures
        plans_view(out@) == plans(fields@, lenient),
{
    let mut out: Vec<FieldPlan> = Vec::new();
    let mut i: usize = 0;
    while i < fields.len()
        invariant
            i <= fields.len(),
            out@.len() == i,
            forall|j: int| 0 <= j < i ==> out@[j]@ == planned(fields@[j], lenient),
        decreases fields.len() - i,
    {
        out.push(FieldPlan::new(&fields[i], lenient));
        i += 1;
    }
    assert(plans_view(out@) =~= plans(fields@, lenient));
    out
}

/// The error of the first of the first `upto` fields whose token does not
/// decode, if there is one.
pub open spec fn first_error(
    fields: Seq<FieldPlanView>,
    tokens: Seq<TokenView>,
    upto: nat,
) -> Option<DecodeErrorView>
    decreases upto,
{
    if upto == 0 {
        None
    } else {
        match first_error(fields, tokens, (upto - 1) as nat) {
            Some(e) => Some(e),
            None => match fields[upto - 1].decoded(tokens[upto - 1]) {
                Err(e) => Some(e),
                Ok(_) => None,
            },
        }
    }
}

/// Once a field has failed, looking at more fields changes nothing.
pub proof fn lemma_first_error_stays(
    fields: Seq<FieldPlanView>,
    tokens: Seq<TokenView>,
    upto: nat,
    later: nat,
)
    requires
        upto <= later,
        first_error(fields, tokens, upto) is Some,
    ensures
        first_error(fields, tokens, later) == first_error(fields, tokens, upto),
    decreases later,
{
    if later > upto {
        lemma_first_error_stays(fields, tokens, upto, (later - 1) as nat);
    }
}

/// Where each of the first `upto` tokens decodes, none of them fails.
pub proof fn lemma_no_error(fields: Seq<FieldPlanView>, tokens: Seq<TokenView>, upto: nat)
    requires
        upto <= tokens.len(),
        upto <= fields.len(),
        forall|i: int| 0 <= i < upto ==> fields[i].decoded(tokens[i]) is Ok,
    ensures
        first_error(fields, tokens, upto) is None,
    decreases upto,
{
    if upto > 0 {
        lemma_no_error(fields, tokens, (upto - 1) as nat);
    }
}

/// Where none of the first `upto` fields fails, each of them decodes its
/// token.
pub proof fn lemma_all_decode(fields: Seq<FieldPlanView>, tokens: Seq<TokenView>, upto: nat)
    requires
        first_error(fields, tokens, upto) is None,
    ensures
        forall|i: int| 0 <= i < upto ==> fields[i].decoded(tokens[i]) is Ok,
    decreases upto,
{
    if upto > 0 {
        lemma_all_decode(fields, tokens, (upto - 1) as nat);
    }
}

/// What decoding a positional input gives.
///
/// Token `i` is read as field `i`, in the order of declaration, and the
/// first token that does not decode ends the decode with its error. Where
/// every token that has a field decodes, the input must hold exactly one
/// token for each field: fewer or more are an invalid length. The record
/// holds the fields' values in the order of declaration.
pub open spec fn positional(fields: Seq<FieldPlanView>, tokens: Seq<TokenView>) -> Result<
    Seq<ValueView>,
    DecodeErrorView,
> {
    let common = if tokens.len() < fields.len() {
        tokens.len()
    } else {
        fields.len()
    };
    match first_error(fields, tokens, common) {
        Some(e) => Err(e),
        None => if tokens.len() != fields.len() {
            Err(DecodeErrorView::InvalidLength { found: tokens.len(), expected: fields.len() })
        } else {
            Ok(Seq::new(fields.len(), |i: int| fields[i].decoded(tokens[i])->Ok_0))
        },
    }
}

/// A decoder of positional inputs.
#[derive(Debug, PartialEq, Eq)]
pub struct TupleVisitor {
    /// The fields' plans, in the order of declaration.
    pub fields: Vec<FieldPlan>,
}

impl View for TupleVisitor {
    type V = Seq<FieldPlanView>;

    open spec fn view(&self) -> Seq<FieldPlanView> {
        plans_view(self.fields@)
    }
}

impl TupleVisitor {
    /// Decodes a record from the tokens of a positional input.
    pub fn visit_seq(&self, tokens: Vec<Token>) -> (r: Result<Vec<Value>, DecodeError>)
        ensures
            match r {
                Ok(values) => positional(self@, tokens_view(tokens@)) == Ok::<
                    Seq<ValueView>,
                    DecodeErrorView,
                >(values_view(values@)),
                Err(e) => positional(self@, tokens_view(tokens@)) == Err::<
                    Seq<ValueView>,
                    DecodeErrorView,
                >(e@),
            },
    {
        let expected = self.fields.len();
        let found = tokens.len();
        let ghost plans = self@;
        let ghost input = tokens_view(tokens@);
        let mut values: Vec<Value> = Vec::new();
        let mut i: usize = 0;
        for token in it: tokens
            invariant
                it.seq() == tokens@,
                i == it.index(),
                i <= expected,
                expected == self.fields.len(),
                found == tokens@.len(),
                plans == self@,
                input == tokens_view(tokens@),
                values@.len() == i,
                first_error(plans, input, i as nat) is None,
                forall|j: int|
                    0 <= j < i ==> plans[j].decoded(input[j]) == Ok::<
                        ValueView,
                        DecodeErrorView,
                    >(#[trigger] values@[j]@),
        {
            if i >= expected {
                return Err(DecodeError::InvalidLength { found, expected });
            }
            assert(input[i as int] == token@);
            assert(plans[i as int] == self.fields@[i as int]@);
            match self.fields[i].decode(token) {
                Err(e) => {
                    proof {
                        let common = if input.len() < plans.len() {
                            input.len()
                        } else {
                            plans.len()
                        };
                        assert(first_error(plans, input, (i + 1) as nat) == Some(e@));
                        lemma_first_error_stays(plans, input, (i + 1) as nat, common);
                    }
                    return Err(e);
                },
                Ok(value) => {
                    values.push(value);
                },
            }
            i += 1;
        }
        if i < expected {
            return Err(DecodeError::InvalidLength { found, expected });
        }
        assert(values_view(values@) =~= Seq::new(
            plans.len(),
            |j: int| plans[j].decoded(input[j])->Ok_0,
        ));
        Ok(values)
    }
}

/// Makes the positional decoder for the named fields of a definition.
pub fn gen_tuple_visitor(fields: &Vec<FieldDef>) -> (visitor: TupleVisitor)
    ensures
        visitor@ == plans(fields@, true),
{
    TupleVisitor { fields: plan_fields(fields, true) }
}

/// The names of the fields, in the order of declaration.
pub open spec fn field_names(fields: Seq<FieldPlanView>) -> Seq<Seq<char>> {
    Seq::new(fields.len(), |i: int| fields[i].name)
}

/// The first field from `from` on whose name is `key`.
pub open spec fn find_from(fields: Seq<FieldPlanView>, key: Seq<char>, from: int) -> Option<int>
    decreases fields.len() - from,
{
    if from < 0 || from >= fields.len() {
        None
    } else if fields[from].name == key {
        Some(from)
    } else {
        find_from(fields, key, from + 1)
    }
}

/// The field that a key names: the first whose name is the key, letter for
/// letter.
pub open spec fn find(fields: Seq<FieldPlanView>, key: Seq<char>) -> Option<int> {
    find_from(fields, key, 0)
}

/// The field that a key names lies among the fields, bears the key as its
/// name, and is the first to do so; a key that names none is no field's name.
pub proof fn lemma_find(fields: Seq<FieldPlanView>, key: Seq<char>)
    ensures
        match find(fields, key) {
            Some(i) => 0 <= i < fields.len() && fields[i].name == key && forall|j: int|
                0 <= j < i ==> fields[j].name != key,
            None => forall|j: int| 0 <= j < fields.len() ==> fields[j].name != key,
        },
{
    lemma_find_from(fields, key, 0);
}

proof fn lemma_find_from(fields: Seq<FieldPlanView>, key: Seq<char>, from: int)
    requires
        0 <= from,
    ensures
        match find_from(fields, key, from) {
            Some(i) => from <= i < fields.len() && fields[i].name == key && forall|j: int|
                from <= j < i ==> fields[j].name != key,
            None => forall|j: int| from <= j < fields.len() ==> fields[j].name != key,
        },
    decreases fields.len() - from,
{
    if from < fields.len() && fields[from].name != key {
        lemma_find_from(fields, key, from + 1);
    }
}

/// The slots of a keyed decode: for each field its value, once the input
/// has given one.
pub type Slots = Seq<Option<ValueView>>;

/// One slot for each of `n` fields, all of them empty.
pub open spec fn empty_slots(n: nat) -> Slots {
    Seq::new(n, |i: int| None)
}

/// What one pair of a keyed input does to the slots.
///
/// A key that names no field is an unknown field. A key whose slot is
/// filled is a duplicate field. Else the value is read as the field's plan
/// says: a failure ends the decode, a parse failure with the field's name
/// on it, and a value fills the slot.
pub open spec fn step(
    fields: Seq<FieldPlanView>,
    slots: Slots,
    key: Seq<char>,
    token: TokenView,
) -> Result<Slots, DecodeErrorView> {
    match find(fields, key) {
        None => Err(DecodeErrorView::UnknownField { name: key, fields: field_names(fields) }),
        Some(i) => if slots[i] is Some {
            Err(DecodeErrorView::DuplicateField { name: fields[i].name })
        } else {
            match fields[i].decoded(token) {
                Err(e) => Err(e.tagged(fields[i].name)),
                Ok(value) => Ok(slots.update(i, Some(value))),
            }
        },
    }
}

/// The slots after the first `upto` pairs of a keyed input, or the error of
/// the first pair that fails.
pub open spec fn fill(
    fields: Seq<FieldPlanView>,
    entries: Seq<(Seq<char>, TokenView)>,
    upto: nat,
) -> Result<Slots, DecodeErrorView>
    decreases upto,
{
    if upto == 0 {
        Ok(empty_slots(fields.len()))
    } else {
        match fill(fields, entries, (upto - 1) as nat) {
            Err(e) => Err(e),
            Ok(slots) => step(fields, slots, entries[upto - 1].0, entries[upto - 1].1),
        }
    }
}

/// The first of the first `upto` fields that is not optional and whose slot
/// is empty.
pub open spec fn first_missing(fields: Seq<FieldPlanView>, slots: Slots, upto: nat) -> Option<int>
    decreases upto,
{
    if upto == 0 {
        None
    } else {
        match first_missing(fields, slots, (upto - 1) as nat) {
            Some(i) => Some(i),
            None => if slots[upto - 1] is None && !fields[upto - 1].optional {
                Some(upto - 1)
            } else {
                None
            },
        }
    }
}

/// The field that [`first_missing`] finds is not optional and its slot is
/// empty, and no field before it is such; where it finds none, no field is
/// such.
pub proof fn lemma_first_missing(fields: Seq<FieldPlanView>, slots: Slots, upto: nat)
    ensures
        match first_missing(fields, slots, upto) {
            Some(i) => 0 <= i < upto && slots[i] is None && !fields[i].optional && forall|k: int|
                0 <= k < i ==> slots[k] is Some || fields[k].optional,
            None => forall|k: int| 0 <= k < upto ==> slots[k] is Some || fields[k].optional,
        },
    decreases upto,
{
    if upto > 0 {
        lemma_first_missing(fields, slots, (upto - 1) as nat);
    }
}

/// The record that the slots give once the input is exhausted: a filled
/// slot gives its value, an empty one the empty state where the field is
/// optional. The first empty slot of a field that is not optional is a
/// missing field.
pub open spec fn finish(fields: Seq<FieldPlanView>, slots: Slots) -> Result<
    Seq<ValueView>,
    DecodeErrorView,
> {
    match first_missing(fields, slots, fields.len()) {
        Some(i) => Err(DecodeErrorView::MissingField { name: fields[i].name }),
        None => Ok(
            Seq::new(
                fields.len(),
                |i: int|
                    match slots[i] {
                        Some(value) => value,
                        None => ValueView::Null,
                    },
            ),
        ),
    }
}

/// What decoding a keyed input gives: the pairs fill the slots in the order
/// of the input, and the slots give the record.
pub open spec fn keyed(fields: Seq<FieldPlanView>, entries: Seq<(Seq<char>, TokenView)>) -> Result<
    Seq<ValueView>,
    DecodeErrorView,
> {
    match fill(fields, entries, entries.len()) {
        Err(e) => Err(e),
        Ok(slots) => finish(fields, slots),
    }
}

/// Once a pair has failed, looking at more pairs changes nothing.
pub proof fn lemma_fill_error_stays(
    fields: Seq<FieldPlanView>,
    entries: Seq<(Seq<char>, TokenView)>,
    upto: nat,
    later: nat,
)
    requires
        upto <= later,
        fill(fields, entries, upto) is Err,
    ensures
        fill(fields, entries, later) == fill(fields, entries, upto),
    decreases later,
{
    if later > upto {
        lemma_fill_error_stays(fields, entries, upto, (later - 1) as nat);
    }
}

/// Once a field is found missing, looking at more fields changes nothing.
pub proof fn lemma_first_missing_stays(
    fields: Seq<FieldPlanView>,
    slots: Slots,
    upto: nat,
    later: nat,
)
    requires
        upto <= later,
        first_missing(fields, slots, upto) is Some,
    ensures
        first_missing(fields, slots, later) == first_missing(fields, slots, upto),
    decreases later,
{
    if later > upto {
        lemma_first_missing_stays(fields, slots, upto, (later - 1) as nat);
    }
}

/// The models of the slots of a running decode.
pub open spec fn slots_view(slots: Seq<Option<Value>>) -> Slots {
    Seq::new(
        slots.len(),
        |i: int|
            match slots[i] {
                Some(value) => Some(value@),
                None => None,
            },
    )
}

/// A decoder of keyed inputs.
#[derive(Debug, PartialEq, Eq)]
pub struct StructVisitor {
    /// The name of the record type.
    pub name: String,
    /// The fields' plans, in the order of declaration.
    pub fields: Vec<FieldPlan>,
}

impl View for StructVisitor {
    type V = Seq<FieldPlanView>;

    open spec fn view(&self) -> Seq<FieldPlanView> {
        plans_view(self.fields@)
    }
}

impl StructVisitor {
    /// The names of the fields, in the order of declaration.
    pub fn field_names(&self) -> (names: Vec<String>)
        ensures
            strings_view(names@) == field_names(self@),
    {
        let mut names: Vec<String> = Vec::new();
        let mut i: usize = 0;
        while i < self.fields.len()
            invariant
                i <= self.fields.len(),
                names@.len() == i,
                forall|j: int| 0 <= j < i ==> names@[j]@ == self.fields@[j].name@,
            decreases self.fields.len() - i,
        {
            names.push(self.fields[i].name.clone());
            i += 1;
        }
        assert(strings_view(names@) =~= field_names(self@));
        names
    }

    /// The field that a key names: the first whose name is the key, letter
    /// for letter.
    pub fn field_index(&self, key: &str) -> (r: Option<usize>)
        ensures
            match r {
                Some(i) => find(self@, key@) == Some(i as int) && i < self.fields@.len(),
                None => find(self@, key@) is None,
            },
    {
        let mut i: usize = 0;
        while i < self.fields.len()
            invariant
                i <= self.fields.len(),
                find(self@, key@) == find_from(self@, key@, i as int),
            decreases self.fields.len() - i,
        {
            assert(self@[i as int] == self.fields@[i as int]@);
            if text_eq(self.fields[i].name.as_str(), key) {
                return Some(i);
            }
            i += 1;
        }
        None
    }

    /// Decodes a record from the pairs of a keyed input.
    pub fn visit_map(&self, entries: Vec<(String, Token)>) -> (r: Result<Vec<Value>, DecodeError>)
        ensures
            match r {
                Ok(values) => keyed(self@, entries_view(entries@)) == Ok::<
                    Seq<ValueView>,
                    DecodeErrorView,
                >(values_view(values@)),
                Err(e) => keyed(self@, entries_view(entries@)) == Err::<
                    Seq<ValueView>,
                    DecodeErrorView,
                >(e@),
            },
    {
        let count = self.fields.len();
        let ghost plans = self@;
        let ghost input = entries_view(entries@);
        let mut slots: Vec<Option<Value>> = Vec::new();
        while slots.len() < count
            invariant
                slots@.len() <= count,
                forall|j: int| 0 <= j < slots@.len() ==> slots@[j] is None,
            decreases count - slots@.len(),
        {
            slots.push(None);
        }
        assert(slots_view(slots@) =~= empty_slots(plans.len()));
        for entry in it: entries
            invariant
                it.seq() == entries@,
                count == self.fields@.len(),
                plans == self@,
                input == entries_view(entries@),
                slots@.len() == count,
                fill(plans, input, it.index() as nat) == Ok::<Slots, DecodeErrorView>(
                    slots_view(slots@),
                ),
        {
            let ghost at = it.index();
            let ghost before = slots_view(slots@);
            let (key, token) = entry;
            assert(input[at] == (key@, token@));
            let found = self.field_index(key.as_str());
            let i = match found {
                Some(i) => i,
                None => {
                    let names = self.field_names();
                    proof {
                        lemma_fill_error_stays(plans, input, (at + 1) as nat, input.len());
                    }
                    return Err(DecodeError::UnknownField { name: key, fields: names });
                },
            };
            assert(plans[i as int] == self.fields@[i as int]@);
            assert(before[i as int] is Some <==> slots@[i as int] is Some);
            if slots[i].is_some() {
                proof {
                    lemma_fill_error_stays(plans, input, (at + 1) as nat, input.len());
                }
                return Err(DecodeError::DuplicateField { name: self.fields[i].name.clone() });
            }
            match self.fields[i].decode(token) {
                Err(e) => {
                    proof {
                        lemma_fill_error_stays(plans, input, (at + 1) as nat, input.len());
                    }
                    return Err(e.tagged(&self.fields[i].name));
                },
                Ok(value) => {
                    slots.set(i, Some(value));
                    assert(slots_view(slots@) =~= before.update(i as int, Some(value@)));
                },
            }
        }
        let ghost filled = slots_view(slots@);
        let mut values: Vec<Value> = Vec::new();
        let mut i: usize = 0;
        for slot in it: slots
            invariant
                it.seq() == slots@,
                i == it.index(),
                count == self.fields@.len(),
                slots@.len() == count,
                plans == self@,
                input == entries_view(entries@),
                filled == slots_view(slots@),
                fill(plans, input, input.len()) == Ok::<Slots, DecodeErrorView>(filled),
                values@.len() == i,
                first_missing(plans, filled, i as nat) is None,
                forall|j: int|
                    0 <= j < i ==> #[trigger] values@[j]@ == match filled[j] {
                        Some(value) => value,
                        None => ValueView::Null,
                    },
        {
            assert(plans[i as int] == self.fields@[i as int]@);
            assert(filled[i as int] == match slot {
                Some(value) => Some(value@),
                None => None,
            });
            match slot {
                Some(value) => {
                    values.push(value);
                },
                None => {
                    if self.fields[i].optional {
                        values.push(Value::Null);
                    } else {
                        proof {
                            assert(first_missing(plans, filled, (i + 1) as nat) == Some(i as int));
                            lemma_first_missing_stays(plans, filled, (i + 1) as nat, plans.len());
                        }
                        return Err(DecodeError::MissingField { name: self.fields[i].name.clone() });
                    }
                },
            }
            i += 1;
        }
        assert(values_view(values@) =~= Seq::new(
            plans.len(),
            |j: int|
                match filled[j] {
                    Some(value) => value,
                    None => ValueView::Null,
                },
        ));
        Ok(values)
    }
}

/// Makes the keyed decoder for the named fields of a definition.
pub fn gen_struct_visitor(fields: &Vec<FieldDef>, name: &String) -> (visitor: StructVisitor)
    ensures
        visitor@ == plans(fields@, true),
        visitor.name@ == name@,
{
    StructVisitor { name: name.clone(), fields: plan_fields(fields, true) }
}

/// A decoder of records of one type, for one kind of input.
#[derive(Debug, PartialEq, Eq)]
pub enum Deserializer {
    /// Reads a record from an array of as many tokens as it has fields.
    Tuple(TupleVisitor),
    /// Reads a record from an object keyed by the fields' names.
    Struct(StructVisitor),
}

/// The mathematical model of a [`Deserializer`]: the kind of input, and the
/// fields' plans in the order of declaration.
pub enum DeserializerView {
    Tuple(Seq<FieldPlanView>),
    Struct(Seq<FieldPlanView>),
}

impl View for Deserializer {
    type V = DeserializerView;

    open spec fn view(&self) -> DeserializerView {
        match self {
            Deserializer::Tuple(visitor) => DeserializerView::Tuple(visitor@),
            Deserializer::Struct(visitor) => DeserializerView::Struct(visitor@),
        }
    }
}

impl DeserializerView {
    /// The parse failure of field `i` with a parser's `message`: a keyed
    /// decoder puts the field's name on it.
    pub open spec fn parse_failure(self, i: int, message: Seq<char>) -> DecodeErrorView {
        match self {
            DeserializerView::Struct(fields) if 0 <= i < fields.len() => {
                DecodeErrorView::ParseFailure { field: Some(fields[i].name), message }
            },
            _ => DecodeErrorView::ParseFailure { field: None, message },
        }
    }

    /// What decoding an input gives: a positional decoder takes an array, a
    /// keyed one an object, and any other token has an unexpected shape.
    pub open spec fn decoded(self, input: TokenView) -> Result<Seq<ValueView>, DecodeErrorView> {
        match self {
            DeserializerView::Tuple(fields) => match input {
                TokenView::Array(tokens) => positional(fields, tokens),
                _ => Err(DecodeErrorView::UnexpectedShape),
            },
            DeserializerView::Struct(fields) => match input {
                TokenView::Object(entries) => keyed(fields, entries),
                _ => Err(DecodeErrorView::UnexpectedShape),
            },
        }
    }
}

impl Deserializer {
    /// The failure to report where the text that was handed out for field
    /// `i` is rejected by the parser of the field's type, as that of a
    /// floating-point type, with `message`: the parse failure that the
    /// decoder reports of a text of its own, with the field's name on it
    /// where the input is keyed.
    pub fn parse_failure(&self, i: usize, message: String) -> (e: DecodeError)
        ensures
            e@ == self@.parse_failure(i as int, message@),
    {
        match self {
            Deserializer::Tuple(_) => DecodeError::ParseFailure { field: None, message },
            Deserializer::Struct(visitor) => {
                if i < visitor.fields.len() {
                    DecodeError::ParseFailure {
                        field: Some(visitor.fields[i].name.clone()),
                        message,
                    }
                } else {
                    DecodeError::ParseFailure { field: None, message }
                }
            },
        }
    }

    /// Decodes a record from an input. On failure nothing of the record is
    /// handed out.
    pub fn deserialize(&self, input: Token) -> (r: Result<Vec<Value>, DecodeError>)
        ensures
            match r {
                Ok(values) => self@.decoded(input@) == Ok::<Seq<ValueView>, DecodeErrorView>(
                    values_view(values@),
                ),
                Err(e) => self@.decoded(input@) == Err::<Seq<ValueView>, DecodeErrorView>(e@),
            },
    {
        proof {
            lemma_token_view(input);
        }
        match self {
            Deserializer::Tuple(visitor) => match input {
                Token::Array(tokens) => visitor.visit_seq(tokens),
                _ => Err(DecodeError::UnexpectedShape),
            },
            Deserializer::Struct(visitor) => match input {
                Token::Object(entries) => visitor.visit_map(entries),
                _ => Err(DecodeError::UnexpectedShape),
            },
        }
    }
}

/// The named fields of a definition, where it is a struct with named
/// fields: the only form that an encoder or a decoder is made for.
pub open spec fn named_fields(input: DeriveInput) -> Option<Seq<FieldDef>> {
    match input.data {
        Data::Struct(Fields::Named(fields)) => Some(fields@),
        _ => None,
    }
}

/// Why no lenient decoder is made for a definition of another form.
pub open spec fn lenient_refusal(data: Data) -> Seq<char> {
    match data {
        Data::Struct(Fields::Unnamed) => "Lenient does not support tuple structs"@,
        Data::Struct(Fields::Unit) => "Lenient does not support unit structs"@,
        _ => "Lenient only supports structs"@,
    }
}

/// Makes the lenient decoder for a definition: a positional one where
/// `as_tuple` is set, and else a keyed one.
///
/// Each field is classified once, here. A definition that is no struct with
/// named fields is refused.
pub fn gen_lenient_deserialize(input: &DeriveInput, as_tuple: bool) -> (r: Result<
    Deserializer,
    GenError,
>)
    ensures
        match r {
            Ok(d) => named_fields(*input) matches Some(fields) && d@ == (if as_tuple {
                DeserializerView::Tuple(plans(fields, true))
            } else {
                DeserializerView::Struct(plans(fields, true))
            }) && (d matches Deserializer::Struct(visitor) ==> visitor.name@ == input.ident@),
            Err(e) => named_fields(*input) is None && e.message@ == lenient_refusal(input.data),
        },
{
    let fields = match &input.data {
        Data::Struct(data) => match data {
            Fields::Named(fields) => fields,
            Fields::Unnamed => {
                return Err(
                    GenError { message: "Lenient does not support tuple structs".to_owned() },
                );
            },
            Fields::Unit => {
                return Err(
                    GenError { message: "Lenient does not support unit structs".to_owned() },
                );
            },
        },
        _ => {
            return Err(GenError { message: "Lenient only supports structs".to_owned() });
        },
    };
    if as_tuple {
        Ok(Deserializer::Tuple(gen_tuple_visitor(fields)))
    } else {
        Ok(Deserializer::Struct(gen_struct_visitor(fields, &input.ident)))
    }
}

} // verus!
