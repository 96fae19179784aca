//! What holds of every decoder and every input.

use vstd::prelude::*;
use crate::analysis::{lemma_option_is_no_numeric_name, override_of, Classification};
use crate::error::DecodeErrorView;
use crate::internal::flexible;
use crate::lenient::{
    fill, find, finish, first_error, first_missing, keyed, lemma_all_decode, DeserializerView,
    lemma_fill_error_stays, lemma_find, lemma_first_error_stays, lemma_first_missing,
    lemma_no_error, positional, Slots,
};
use crate::plan::{planned, FieldPlanView};
use crate::scalar::integer_of;
use crate::serialize::encoded;
use crate::syntax::FieldDef;
use crate::text::{decimal_text, lemma_decimal_round_trip};
use crate::token::TokenView;
use crate::value::{integer_token, ValueView};

verus! {

/// Whether a token is a number of up to 64 bits: the numbers that a lenient
/// field reads.
pub open spec fn is_number(t: TokenView) -> bool {
    t is I64 || t is U64 || t is F64
}

/// The text token that writes a number token in decimal.
pub open spec fn as_text(t: TokenView) -> TokenView
    recommends
        is_number(t),
{
    TokenView::Str(flexible(t)->Some_0.text())
}

/// Tokens that each field reads alike give the same positional decode.
pub proof fn lemma_positional_alike(
    fields: Seq<FieldPlanView>,
    a: Seq<TokenView>,
    b: Seq<TokenView>,
)
    requires
        a.len() == b.len(),
        forall|i: int|
            0 <= i < a.len() && i < fields.len() ==> fields[i].decoded(a[i])
                == fields[i].decoded(b[i]),
    ensures
        positional(fields, a) == positional(fields, b),
{
    let common = if a.len() < fields.len() {
        a.len()
    } else {
        fields.len()
    };
    lemma_first_error_alike(fields, a, b, common);
    if a.len() == fields.len() {
        assert(Seq::new(fields.len(), |i: int| fields[i].decoded(a[i])->Ok_0) =~= Seq::new(
            fields.len(),
            |i: int| fields[i].decoded(b[i])->Ok_0,
        ));
    }
}

proof fn lemma_first_error_alike(
    fields: Seq<FieldPlanView>,
    a: Seq<TokenView>,
    b: Seq<TokenView>,
    upto: nat,
)
    requires
        a.len() == b.len(),
        upto <= a.len(),
        upto <= fields.len(),
        forall|i: int|
            0 <= i < a.len() && i < fields.len() ==> fields[i].decoded(a[i])
                == fields[i].decoded(b[i]),
    ensures
        first_error(fields, a, upto) == first_error(fields, b, upto),
    decreases upto,
{
    if upto > 0 {
        lemma_first_error_alike(fields, a, b, (upto - 1) as nat);
    }
}

/// Whether two pairs have the same key, and the field that the key names
/// reads their values alike.
pub open spec fn read_alike(
    fields: Seq<FieldPlanView>,
    x: (Seq<char>, TokenView),
    y: (Seq<char>, TokenView),
) -> bool {
    x.0 == y.0 && (find(fields, x.0) matches Some(i) ==> fields[i].decoded(x.1)
        == fields[i].decoded(y.1))
}

/// Pairs with the same keys, whose values the named fields read alike, give
/// the same keyed decode.
pub proof fn lemma_keyed_alike(
    fields: Seq<FieldPlanView>,
    a: Seq<(Seq<char>, TokenView)>,
    b: Seq<(Seq<char>, TokenView)>,
)
    requires
        a.len() == b.len(),
        forall|j: int| 0 <= j < a.len() ==> read_alike(fields, #[trigger] a[j], b[j]),
    ensures
        keyed(fields, a) == keyed(fields, b),
{
    lemma_fill_alike(fields, a, b, a.len());
}

proof fn lemma_fill_alike(
    fields: Seq<FieldPlanView>,
    a: Seq<(Seq<char>, TokenView)>,
    b: Seq<(Seq<char>, TokenView)>,
    upto: nat,
)
    requires
        a.len() == b.len(),
        upto <= a.len(),
        forall|j: int| 0 <= j < a.len() ==> read_alike(fields, #[trigger] a[j], b[j]),
    ensures
        fill(fields, a, upto) == fill(fields, b, upto),
    decreases upto,
{
    if upto > 0 {
        lemma_fill_alike(fields, a, b, (upto - 1) as nat);
        let j = upto - 1;
        assert(read_alike(fields, a[j], b[j]));
    }
}

/// A lenient field reads the decimal text of a number as it reads the
/// number.
pub proof fn law_lenient_field(plan: FieldPlanView, t: TokenView)
    requires
        plan.class != Classification::Strict,
        is_number(t),
    ensures
        plan.decoded(as_text(t)) == plan.decoded(t),
{
}

/// Positional input: where a lenient field's number is replaced by its
/// decimal text, the decode gives the same record, or the same error.
pub proof fn law_lenient_positional(fields: Seq<FieldPlanView>, tokens: Seq<TokenView>, i: int)
    requires
        0 <= i < tokens.len(),
        i < fields.len(),
        fields[i].class != Classification::Strict,
        is_number(tokens[i]),
    ensures
        positional(fields, tokens.update(i, as_text(tokens[i]))) == positional(fields, tokens),
{
    law_lenient_field(fields[i], tokens[i]);
    lemma_positional_alike(fields, tokens.update(i, as_text(tokens[i])), tokens);
}

/// Keyed input: where a lenient field's number is replaced by its decimal
/// text, the decode gives the same record, or the same error.
pub proof fn law_lenient_keyed(
    fields: Seq<FieldPlanView>,
    entries: Seq<(Seq<char>, TokenView)>,
    j: int,
)
    requires
        0 <= j < entries.len(),
        find(fields, entries[j].0) matches Some(i) && fields[i].class != Classification::Strict,
        is_number(entries[j].1),
    ensures
        keyed(fields, entries.update(j, (entries[j].0, as_text(entries[j].1)))) == keyed(
            fields,
            entries,
        ),
{
    let i = find(fields, entries[j].0)->Some_0;
    law_lenient_field(fields[i], entries[j].1);
    let changed = entries.update(j, (entries[j].0, as_text(entries[j].1)));
    assert forall|k: int| 0 <= k < changed.len() implies read_alike(
        fields,
        #[trigger] changed[k],
        entries[k],
    ) by {
    }
    lemma_keyed_alike(fields, changed, entries);
}

/// No field's own failure is an invalid length.
pub proof fn lemma_decoded_error(plan: FieldPlanView, t: TokenView)
    ensures
        plan.decoded(t) matches Err(e) ==> e is UnexpectedShape || e is ParseFailure,
{
}

proof fn lemma_first_error_kind(fields: Seq<FieldPlanView>, tokens: Seq<TokenView>, upto: nat)
    ensures
        first_error(fields, tokens, upto) matches Some(e) ==> e is UnexpectedShape
            || e is ParseFailure,
    decreases upto,
{
    if upto > 0 {
        lemma_first_error_kind(fields, tokens, (upto - 1) as nat);
        lemma_decoded_error(fields[upto - 1], tokens[upto - 1]);
    }
}

/// Arity: a positional input with fewer or more tokens than the record has
/// fields never decodes, and fails with an invalid length unless a token
/// that has a field fails first. An input with exactly as many tokens never
/// fails with an invalid length.
pub proof fn law_arity(fields: Seq<FieldPlanView>, tokens: Seq<TokenView>)
    ensures
        tokens.len() != fields.len() ==> positional(fields, tokens) is Err,
        tokens.len() != fields.len() && (forall|i: int|
            0 <= i < tokens.len() && i < fields.len() ==> fields[i].decoded(tokens[i]) is Ok)
            ==> positional(fields, tokens) == Err::<Seq<ValueView>, DecodeErrorView>(
            DecodeErrorView::InvalidLength { found: tokens.len(), expected: fields.len() },
        ),
        tokens.len() == fields.len() ==> !(positional(fields, tokens) matches Err(e)
            && e is InvalidLength),
{
    let common = if tokens.len() < fields.len() {
        tokens.len()
    } else {
        fields.len()
    };
    lemma_first_error_kind(fields, tokens, common);
    if forall|i: int|
        0 <= i < tokens.len() && i < fields.len() ==> fields[i].decoded(tokens[i]) is Ok {
        lemma_no_error(fields, tokens, common);
    }
}

/// A positional decode succeeds exactly where the input holds one token
/// for each field and each field reads its token; the record holds what
/// the fields read, in the order of declaration.
pub proof fn law_positional_success(
    fields: Seq<FieldPlanView>,
    tokens: Seq<TokenView>,
    record: Seq<ValueView>,
)
    ensures
        positional(fields, tokens) == Ok::<Seq<ValueView>, DecodeErrorView>(record) <==> (
        tokens.len() == fields.len() && record.len() == fields.len() && forall|i: int|
            0 <= i < fields.len() ==> fields[i].decoded(tokens[i]) == Ok::<
                ValueView,
                DecodeErrorView,
            >(#[trigger] record[i])),
{
    if positional(fields, tokens) == Ok::<Seq<ValueView>, DecodeErrorView>(record) {
        lemma_all_decode(fields, tokens, fields.len());
    }
    if tokens.len() == fields.len() && record.len() == fields.len() && forall|i: int|
        0 <= i < fields.len() ==> fields[i].decoded(tokens[i]) == Ok::<ValueView, DecodeErrorView>(
            #[trigger] record[i],
        ) {
        assert forall|i: int| 0 <= i < fields.len() implies fields[i].decoded(tokens[i]) is Ok by {
            assert(fields[i].decoded(tokens[i]) == Ok::<ValueView, DecodeErrorView>(record[i]));
        }
        lemma_no_error(fields, tokens, fields.len());
        assert(Seq::new(fields.len(), |i: int| fields[i].decoded(tokens[i])->Ok_0) =~= record);
    }
}

/// A strict field of a numeric type takes no text, whatever the text
/// writes; it takes an integer token that its type holds.
pub proof fn law_strict_field(plan: FieldPlanView, text: Seq<char>, n: int)
    requires
        plan.class == Classification::Strict,
    ensures
        plan.target.is_integer() || plan.target.is_float() ==> plan.decoded(TokenView::Str(text))
            == Err::<ValueView, DecodeErrorView>(DecodeErrorView::UnexpectedShape),
        plan.target.holds(n) ==> plan.decoded(integer_token(n)) == Ok::<
            ValueView,
            DecodeErrorView,
        >(ValueView::Int(plan.target, n)),
{
}

/// A field whose override says `skip` is strict, whatever its type.
pub proof fn law_skip_is_strict(field: FieldDef)
    requires
        override_of(field.attrs@) == Some(false),
    ensures
        field.classification() == Classification::Strict,
{
}

/// A field is classified Lenient exactly where it is read leniently and
/// its type is not `Option`, and Lenient-Optional exactly where it is read
/// leniently and its type is `Option`.
pub proof fn law_classification(field: FieldDef)
    ensures
        field.classification() is Lenient <==> field.lenient() && !field.ty.is_option(),
        field.classification() is LenientOptional <==> field.lenient() && field.ty.is_option(),
        field.classification() is Strict <==> !field.lenient(),
{
}

/// A field that is lenient without an override is read as a number: as an
/// integer type or as a floating-point type.
pub proof fn law_default_lenient_is_numeric(field: FieldDef)
    requires
        override_of(field.attrs@) is None,
        field.classification() != Classification::Strict,
    ensures
        field.ty.target().is_integer() || field.ty.target().is_float(),
{
    lemma_option_is_no_numeric_name();
}

/// A numeric field whose override says `skip` takes no text, whichever
/// decoder is made for its definition.
pub proof fn law_skipped_field_takes_no_text(field: FieldDef, lenient: bool, text: Seq<char>)
    requires
        override_of(field.attrs@) == Some(false),
        field.ty.is_numeric(),
    ensures
        planned(field, lenient).decoded(TokenView::Str(text)) == Err::<
            ValueView,
            DecodeErrorView,
        >(DecodeErrorView::UnexpectedShape),
{
    lemma_option_is_no_numeric_name();
}

/// Positional input: a text at the place of a strict field of a numeric
/// type fails the decode.
pub proof fn law_strict_positional(fields: Seq<FieldPlanView>, tokens: Seq<TokenView>, i: int)
    requires
        0 <= i < tokens.len(),
        i < fields.len(),
        fields[i].class == Classification::Strict,
        fields[i].target.is_integer() || fields[i].target.is_float(),
        tokens[i] is Str,
    ensures
        positional(fields, tokens) is Err,
{
    let common = if tokens.len() < fields.len() {
        tokens.len()
    } else {
        fields.len()
    };
    law_strict_field(fields[i], tokens[i]->Str_0, 0);
    assert(first_error(fields, tokens, (i + 1) as nat) is Some);
    lemma_first_error_stays(fields, tokens, (i + 1) as nat, common);
}

/// Keyed input: a text under the key of a strict field of a numeric type
/// fails the decode.
pub proof fn law_strict_keyed(
    fields: Seq<FieldPlanView>,
    entries: Seq<(Seq<char>, TokenView)>,
    j: int,
)
    requires
        0 <= j < entries.len(),
        find(fields, entries[j].0) matches Some(i) && fields[i].class == Classification::Strict
            && (fields[i].target.is_integer() || fields[i].target.is_float()),
        entries[j].1 is Str,
    ensures
        keyed(fields, entries) is Err,
{
    let i = find(fields, entries[j].0)->Some_0;
    law_strict_field(fields[i], entries[j].1->Str_0, 0);
    assert(fill(fields, entries, (j + 1) as nat) is Err);
    lemma_fill_error_stays(fields, entries, (j + 1) as nat, entries.len());
}

/// Whether `v` is a value of the field's type: the empty state where the
/// field is optional, and else a value of the type that the field is read
/// as.
pub open spec fn of_type(plan: FieldPlanView, v: ValueView) -> bool {
    match v {
        ValueView::Null => plan.optional,
        ValueView::Bool(_) => plan.target is Bool,
        ValueView::Int(ty, n) => ty == plan.target && ty.holds(n),
        ValueView::Float(_) => plan.target.is_float(),
        ValueView::Str(_) => plan.target is Str,
        ValueView::Raw(t) => plan.target is Other && !(plan.optional && t is Null),
    }
}

/// Whether the field reads `v` back from the token that writes it.
///
/// A strict field reads back every value of its type. A lenient field takes
/// numbers of up to 64 bits and text, so it reads back neither a wider
/// integer, nor a truth value, nor a token of another type that is no text;
/// and it reads the empty state only where it allows the absent value.
pub open spec fn reads_back(plan: FieldPlanView, v: ValueView) -> bool {
    plan.class is Strict || match v {
        ValueView::Null => plan.class is LenientOptional,
        ValueView::Bool(_) => false,
        ValueView::Int(_, n) => i64::MIN <= n <= u64::MAX,
        ValueView::Float(_) => true,
        ValueView::Str(_) => true,
        ValueView::Raw(t) => t is Str,
    }
}

/// A field reads a value of its type back from the token that writes it
/// exactly where [`reads_back`] says so.
pub proof fn law_field_round_trip(plan: FieldPlanView, v: ValueView)
    requires
        of_type(plan, v),
    ensures
        reads_back(plan, v) <==> plan.decoded(v.token()) == Ok::<ValueView, DecodeErrorView>(v),
{
    match v {
        ValueView::Int(ty, n) => {
            lemma_decimal_round_trip(n, ty.is_signed());
            if plan.class !is Strict && i64::MIN <= n <= u64::MAX {
                let t = integer_token(n);
                assert(flexible(t)->Some_0.text() == decimal_text(n));
                assert(integer_of(decimal_text(n), ty) == Some(n));
            }
        },
        _ => {},
    }
}

/// Round trip: a positional decoder reads a record back from the array
/// that writes it, where the record holds a value of its type for each
/// field and each field reads its value back.
pub proof fn law_round_trip(fields: Seq<FieldPlanView>, record: Seq<ValueView>)
    requires
        record.len() == fields.len(),
        forall|i: int|
            0 <= i < fields.len() ==> of_type(fields[i], #[trigger] record[i]) && reads_back(
                fields[i],
                record[i],
            ),
    ensures
        positional(fields, encoded(record)) == Ok::<Seq<ValueView>, DecodeErrorView>(record),
        DeserializerView::Tuple(fields).decoded(TokenView::Array(encoded(record))) == Ok::<
            Seq<ValueView>,
            DecodeErrorView,
        >(record),
{
    let tokens = encoded(record);
    assert forall|i: int| 0 <= i < fields.len() implies fields[i].decoded(tokens[i]) == Ok::<
        ValueView,
        DecodeErrorView,
    >(record[i]) by {
        law_field_round_trip(fields[i], record[i]);
    }
    lemma_no_error(fields, tokens, fields.len());
    assert(Seq::new(fields.len(), |i: int| fields[i].decoded(tokens[i])->Ok_0) =~= record);
}

/// Absence: where a keyed input holds no pair for a field, an optional
/// field is empty in the record, and a field that is not optional fails
/// the decode. Where every pair is read, the failure is a missing field;
/// it names this field where no field before it is missing too.
pub proof fn law_absent_field(
    fields: Seq<FieldPlanView>,
    entries: Seq<(Seq<char>, TokenView)>,
    i: int,
)
    requires
        0 <= i < fields.len(),
        forall|j: int| 0 <= j < entries.len() ==> (#[trigger] entries[j]).0 != fields[i].name,
    ensures
        fields[i].optional ==> (keyed(fields, entries) matches Ok(record) ==> record[i]
            == ValueView::Null),
        !fields[i].optional ==> keyed(fields, entries) is Err,
        !fields[i].optional ==> (fill(fields, entries, entries.len()) matches Ok(slots) ==> (keyed(
            fields,
            entries,
        ) matches Err(e) && e is MissingField) && ((forall|k: int|
            0 <= k < i ==> slots[k] is Some || fields[k].optional) ==> keyed(fields, entries)
            == Err::<Seq<ValueView>, DecodeErrorView>(
            DecodeErrorView::MissingField { name: fields[i].name },
        ))),
{
    lemma_fill_gives(fields, entries, entries.len());
    if fill(fields, entries, entries.len()) is Ok {
        let slots = fill(fields, entries, entries.len())->Ok_0;
        if named(fields, entries, entries.len() as int, i) {
            let j = choose|j: int|
                0 <= j < entries.len() && #[trigger] slot_of(fields, entries[j]) == Some(i);
            lemma_find(fields, entries[j].0);
        }
        assert(slots[i] is None);
        lemma_first_missing(fields, slots, fields.len());
    }
}

/// The field whose slot a pair of a keyed input goes to.
pub open spec fn slot_of(fields: Seq<FieldPlanView>, entry: (Seq<char>, TokenView)) -> Option<int> {
    find(fields, entry.0)
}

/// Whether one of the first `upto` pairs goes to the slot of field `i`.
pub open spec fn named(
    fields: Seq<FieldPlanView>,
    entries: Seq<(Seq<char>, TokenView)>,
    upto: int,
    i: int,
) -> bool {
    exists|j: int| 0 <= j < upto && #[trigger] slot_of(fields, entries[j]) == Some(i)
}

/// Whether a pair names a field whose slot holds what the field reads from
/// the pair.
pub open spec fn pair_fills(
    fields: Seq<FieldPlanView>,
    entry: (Seq<char>, TokenView),
    slots: Slots,
) -> bool {
    match slot_of(fields, entry) {
        Some(i) => 0 <= i < fields.len() && match fields[i].decoded(entry.1) {
            Ok(value) => slots[i] == Some(value),
            Err(_) => false,
        },
        None => false,
    }
}

/// Whether a pair names a field that reads from the pair what `record`
/// holds for it.
pub open spec fn pair_gives(
    fields: Seq<FieldPlanView>,
    entry: (Seq<char>, TokenView),
    record: Seq<ValueView>,
) -> bool {
    match slot_of(fields, entry) {
        Some(i) => 0 <= i < fields.len() && fields[i].decoded(entry.1) == Ok::<
            ValueView,
            DecodeErrorView,
        >(record[i]),
        None => false,
    }
}

/// Whether `slots` is what the first `upto` pairs fill: each pair names a
/// field, no two the same, the slot of a named field holds what the field
/// reads from its pair, and every other slot is empty.
pub open spec fn filled_by(
    fields: Seq<FieldPlanView>,
    entries: Seq<(Seq<char>, TokenView)>,
    upto: int,
    slots: Slots,
) -> bool {
    &&& slots.len() == fields.len()
    &&& forall|j: int| 0 <= j < upto ==> pair_fills(fields, #[trigger] entries[j], slots)
    &&& forall|j: int, k: int|
        0 <= j < k < upto ==> #[trigger] slot_of(fields, entries[j]) != #[trigger] slot_of(
            fields,
            entries[k],
        )
    &&& forall|i: int|
        0 <= i < fields.len() && !named(fields, entries, upto, i) ==> #[trigger] slots[i] is None
}

/// The slots that the pairs fill are as [`filled_by`] says.
pub proof fn lemma_fill_gives(
    fields: Seq<FieldPlanView>,
    entries: Seq<(Seq<char>, TokenView)>,
    upto: nat,
)
    requires
        upto <= entries.len(),
    ensures
        fill(fields, entries, upto) matches Ok(slots) ==> filled_by(
            fields,
            entries,
            upto as int,
            slots,
        ),
    decreases upto,
{
    if upto > 0 && fill(fields, entries, upto) is Ok {
        let last = upto - 1;
        lemma_fill_gives(fields, entries, last as nat);
        lemma_find(fields, entries[last].0);
        let before = fill(fields, entries, last as nat)->Ok_0;
        let slots = fill(fields, entries, upto)->Ok_0;
        let at = slot_of(fields, entries[last])->Some_0;
        let value = fields[at].decoded(entries[last].1)->Ok_0;
        assert(slots == before.update(at, Some(value)));
        assert(before[at] is None);
        assert forall|j: int| 0 <= j < last implies slot_of(fields, entries[j]) != Some(at) by {
            if slot_of(fields, entries[j]) == Some(at) {
                assert(before[at] is Some);
            }
        }
        assert forall|i: int|
            0 <= i < fields.len() && !named(
                fields,
                entries,
                upto as int,
                i,
            ) implies #[trigger] slots[i] is None by {
            assert(slot_of(fields, entries[last]) != Some(i));
            if named(fields, entries, last, i) {
                let j = choose|j: int|
                    0 <= j < last && #[trigger] slot_of(fields, entries[j]) == Some(i);
                assert(0 <= j < upto && slot_of(fields, entries[j]) == Some(i));
            }
        }
    }
}

/// Whether a keyed input gives `record`, said without regard to the order
/// of its pairs: each key names a field, no two the same field; each named
/// field holds what it reads from its pair; each other field is optional
/// and empty.
pub open spec fn keyed_gives(
    fields: Seq<FieldPlanView>,
    entries: Seq<(Seq<char>, TokenView)>,
    record: Seq<ValueView>,
) -> bool {
    &&& record.len() == fields.len()
    &&& forall|j: int| 0 <= j < entries.len() ==> pair_gives(fields, #[trigger] entries[j], record)
    &&& forall|j: int, k: int|
        0 <= j < k < entries.len() ==> #[trigger] slot_of(fields, entries[j])
            != #[trigger] slot_of(fields, entries[k])
    &&& forall|i: int|
        0 <= i < fields.len() && !named(fields, entries, entries.len() as int, i)
            ==> fields[i].optional && #[trigger] record[i] == ValueView::Null
}

/// Where the conditions of [`keyed_gives`] hold of the pairs, the pairs
/// fill the slots without failure.
proof fn lemma_fill_succeeds(
    fields: Seq<FieldPlanView>,
    entries: Seq<(Seq<char>, TokenView)>,
    record: Seq<ValueView>,
    upto: nat,
)
    requires
        upto <= entries.len(),
        keyed_gives(fields, entries, record),
    ensures
        fill(fields, entries, upto) is Ok,
    decreases upto,
{
    if upto > 0 {
        let last = upto - 1;
        lemma_fill_succeeds(fields, entries, record, last as nat);
        lemma_fill_gives(fields, entries, last as nat);
        let before = fill(fields, entries, last as nat)->Ok_0;
        let at = slot_of(fields, entries[last])->Some_0;
        if before[at] is Some {
            assert(named(fields, entries, last, at));
            let j = choose|j: int|
                0 <= j < last && #[trigger] slot_of(fields, entries[j]) == Some(at);
            assert(slot_of(fields, entries[j]) != slot_of(fields, entries[last]));
        }
    }
}

/// A keyed decode succeeds exactly where [`keyed_gives`] holds, and gives
/// the record of which it holds.
pub proof fn law_keyed_success(
    fields: Seq<FieldPlanView>,
    entries: Seq<(Seq<char>, TokenView)>,
    record: Seq<ValueView>,
)
    ensures
        keyed(fields, entries) == Ok::<Seq<ValueView>, DecodeErrorView>(record) <==> keyed_gives(
            fields,
            entries,
            record,
        ),
{
    let n = entries.len();
    if keyed(fields, entries) == Ok::<Seq<ValueView>, DecodeErrorView>(record) {
        lemma_fill_gives(fields, entries, n);
        let slots = fill(fields, entries, n)->Ok_0;
        lemma_first_missing(fields, slots, fields.len());
        assert forall|i: int|
            0 <= i < fields.len() && !named(fields, entries, n as int, i) implies fields[i].optional
            && #[trigger] record[i] == ValueView::Null by {
            assert(slots[i] is None);
        }
        assert(keyed_gives(fields, entries, record));
    }
    if keyed_gives(fields, entries, record) {
        lemma_fill_succeeds(fields, entries, record, n);
        lemma_fill_gives(fields, entries, n);
        let slots = fill(fields, entries, n)->Ok_0;
        lemma_first_missing(fields, slots, fields.len());
        assert forall|i: int| 0 <= i < fields.len() implies (#[trigger] slots[i] is Some
            || fields[i].optional) && record[i] == (match slots[i] {
            Some(value) => value,
            None => ValueView::Null,
        }) by {
            if named(fields, entries, n as int, i) {
                let j = choose|j: int|
                    0 <= j < n && #[trigger] slot_of(fields, entries[j]) == Some(i);
                assert(slots[i] == Some(record[i]));
            } else {
                assert(slots[i] is None);
            }
        }
        if first_missing(fields, slots, fields.len()) is Some {
            let m = first_missing(fields, slots, fields.len())->Some_0;
            assert(slots[m] is Some || fields[m].optional);
        }
        assert(finish(fields, slots)->Ok_0 =~= record);
    }
}

/// Whether `b` holds the pairs of `a` in another order: `to` says where
/// each pair of `a` stands in `b`, and `from` where each pair of `b` stood
/// in `a`.
pub open spec fn rearranged(
    a: Seq<(Seq<char>, TokenView)>,
    b: Seq<(Seq<char>, TokenView)>,
    to: Seq<int>,
    from: Seq<int>,
) -> bool {
    &&& a.len() == b.len()
    &&& to.len() == a.len()
    &&& from.len() == a.len()
    &&& forall|j: int| 0 <= j < a.len() ==> 0 <= #[trigger] to[j] < b.len() && from[to[j]] == j
        && b[to[j]] == a[j]
    &&& forall|k: int| 0 <= k < b.len() ==> 0 <= #[trigger] from[k] < a.len() && to[from[k]] == k
        && a[from[k]] == b[k]
}

/// The order of the pairs of a keyed input does not matter: in another
/// order they give the same record, and where they fail in one order they
/// fail in every other.
pub proof fn law_key_order(
    fields: Seq<FieldPlanView>,
    a: Seq<(Seq<char>, TokenView)>,
    b: Seq<(Seq<char>, TokenView)>,
    to: Seq<int>,
    from: Seq<int>,
)
    requires
        rearranged(a, b, to, from),
    ensures
        keyed(fields, a) is Ok ==> keyed(fields, b) == keyed(fields, a),
        keyed(fields, a) is Err ==> keyed(fields, b) is Err,
{
    if keyed(fields, a) is Ok {
        lemma_rearranged_gives(fields, a, b, to, from, keyed(fields, a)->Ok_0);
    }
    if keyed(fields, b) is Ok {
        lemma_rearranged_gives(fields, b, a, from, to, keyed(fields, b)->Ok_0);
    }
}

proof fn lemma_rearranged_gives(
    fields: Seq<FieldPlanView>,
    a: Seq<(Seq<char>, TokenView)>,
    b: Seq<(Seq<char>, TokenView)>,
    to: Seq<int>,
    from: Seq<int>,
    record: Seq<ValueView>,
)
    requires
        rearranged(a, b, to, from),
        keyed(fields, a) == Ok::<Seq<ValueView>, DecodeErrorView>(record),
    ensures
        keyed(fields, b) == Ok::<Seq<ValueView>, DecodeErrorView>(record),
{
    law_keyed_success(fields, a, record);
    assert forall|k: int| 0 <= k < b.len() implies pair_gives(fields, #[trigger] b[k], record) by {
        let j = from[k];
        assert(a[j] == b[k]);
        assert(pair_gives(fields, a[j], record));
    }
    assert forall|j: int, k: int| 0 <= j < k < b.len() implies #[trigger] slot_of(fields, b[j])
        != #[trigger] slot_of(fields, b[k]) by {
        let x = from[j];
        let y = from[k];
        assert(a[x] == b[j] && a[y] == b[k]);
        assert(x != y) by {
            assert(to[x] == j && to[y] == k);
        }
        if x < y {
            assert(slot_of(fields, a[x]) != slot_of(fields, a[y]));
        } else {
            assert(slot_of(fields, a[y]) != slot_of(fields, a[x]));
        }
    }
    assert forall|i: int|
        0 <= i < fields.len() && !named(fields, b, b.len() as int, i) implies fields[i].optional
        && #[trigger] record[i] == ValueView::Null by {
        if named(fields, a, a.len() as int, i) {
            let j = choose|j: int| 0 <= j < a.len() && #[trigger] slot_of(fields, a[j]) == Some(i);
            let k = to[j];
            assert(b[k] == a[j]);
            assert(slot_of(fields, b[k]) == Some(i));
            assert(named(fields, b, b.len() as int, i));
        }
    }
    assert(keyed_gives(fields, b, record));
    law_keyed_success(fields, b, record);
}

} // verus!
