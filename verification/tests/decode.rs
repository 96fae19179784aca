use serde_tuplex::analysis::Classification;
use serde_tuplex::deserialize::gen_deserialize_impl;
use serde_tuplex::error::{DecodeError, GenError};
use serde_tuplex::lenient::{gen_lenient_deserialize, Deserializer, StructVisitor, TupleVisitor};
use serde_tuplex::plan::{strict, FieldPlan};
use serde_tuplex::serialize::gen_serialize_impl;
use serde_tuplex::syntax::{Attr, Data, DeriveInput, FieldDef, Fields, TypeExpr};
use serde_tuplex::token::Token;
use serde_tuplex::value::{Target, Value};
use serde_tuplex::{derive_lenient, derive_tuple, derive_tuple_lenient, lenient, lenient_option};

fn text(s: &str) -> Token {
    Token::Str(s.to_string())
}

fn pair(key: &str, value: Token) -> (String, Token) {
    (key.to_string(), value)
}

fn ty(text: &str) -> TypeExpr {
    match text.strip_prefix("Option<").and_then(|rest| rest.strip_suffix(">")) {
        Some(inner) => TypeExpr::option(TypeExpr::name(inner)),
        None => TypeExpr::name(text),
    }
}

fn field(name: &str, text: &str) -> FieldDef {
    FieldDef::new(name, ty(text))
}

fn parse_failure(field: Option<&str>, message: &str) -> DecodeError {
    DecodeError::ParseFailure {
        field: field.map(|name| name.to_string()),
        message: message.to_string(),
    }
}

/// `struct User { #[serde_tuplex] id: u64, name: String }`
fn user() -> Deserializer {
    derive_lenient(&DeriveInput::record(
        "User",
        vec![field("id", "u64").with_attr(Attr::lenient()), field("name", "String")],
    ))
    .unwrap()
}

/// `struct Point { x: u64, y: u64 }`
fn point_fields() -> DeriveInput {
    DeriveInput::record("Point", vec![field("x", "u64"), field("y", "u64")])
}

/// `struct Config { #[serde_tuplex(skip)] port: u16, timeout: u64 }`
fn config() -> Deserializer {
    derive_lenient(&DeriveInput::record(
        "Config",
        vec![field("port", "u16").with_attr(Attr::skip()), field("timeout", "u64")],
    ))
    .unwrap()
}

/// `struct Profile { id: u64, age: Option<u8>, nick: Option<String>, name: String }`
fn profile() -> DeriveInput {
    DeriveInput::record(
        "Profile",
        vec![
            field("id", "u64"),
            field("age", "Option<u8>"),
            field("nick", "Option<String>"),
            field("name", "String"),
        ],
    )
}

// Whole records

#[test]
fn a_tagged_id_is_read_from_text_and_from_a_number() {
    let from_text = user()
        .deserialize(Token::Object(vec![pair("id", text("42")), pair("name", text("Bob"))]))
        .unwrap();
    assert_eq!(from_text, vec![Value::U64(42), Value::Str("Bob".to_string())]);

    let from_number = user()
        .deserialize(Token::Object(vec![pair("id", Token::U64(42)), pair("name", text("Bob"))]))
        .unwrap();
    assert_eq!(from_number, from_text);

    let failure = user()
        .deserialize(Token::Object(vec![pair("id", text("abc")), pair("name", text("Bob"))]));
    assert_eq!(failure, Err(parse_failure(Some("id"), "invalid digit found in string")));
}

#[test]
fn a_point_is_an_array_of_two() {
    let point = derive_tuple(&point_fields()).unwrap();
    let written = point.serializer.serialize(&vec![Value::U64(10), Value::U64(20)]);
    assert_eq!(written, Some(Token::Array(vec![Token::U64(10), Token::U64(20)])));

    let long = Token::Array(vec![Token::U64(10), Token::U64(20), Token::U64(30)]);
    assert_eq!(
        point.deserializer.deserialize(long),
        Err(DecodeError::InvalidLength { found: 3, expected: 2 })
    );
    assert_eq!(
        point.deserializer.deserialize(Token::Array(vec![])),
        Err(DecodeError::InvalidLength { found: 0, expected: 2 })
    );
}

#[test]
fn a_strict_port_beside_a_lenient_timeout() {
    let ok = config()
        .deserialize(Token::Object(vec![pair("port", Token::U64(8080)), pair("timeout", text("30000"))]))
        .unwrap();
    assert_eq!(ok, vec![Value::U16(8080), Value::U64(30000)]);

    let failure = config()
        .deserialize(Token::Object(vec![pair("port", text("8080")), pair("timeout", Token::U64(30000))]));
    assert_eq!(failure, Err(DecodeError::UnexpectedShape));
}

// What holds of all inputs, on chosen ones

#[test]
fn text_for_number_changes_nothing_in_a_positional_decode() {
    let decoder = derive_tuple_lenient(&profile()).unwrap().deserializer;
    let numbers = vec![Token::U64(7), Token::I64(-3), Token::Null, text("Ann")];
    let texts = vec![text("7"), text("-3"), Token::Null, text("Ann")];
    let from_numbers = decoder.deserialize(Token::Array(numbers));
    let from_texts = decoder.deserialize(Token::Array(texts));
    assert_eq!(from_numbers, Err(parse_failure(None, "invalid digit found in string")));
    assert_eq!(from_numbers, from_texts);

    let numbers = vec![Token::U64(7), Token::U64(3), Token::Null, text("Ann")];
    let texts = vec![text("7"), text("3"), Token::Null, text("Ann")];
    let from_numbers = decoder.deserialize(Token::Array(numbers)).unwrap();
    let from_texts = decoder.deserialize(Token::Array(texts)).unwrap();
    assert_eq!(
        from_numbers,
        vec![Value::U64(7), Value::U8(3), Value::Null, Value::Str("Ann".to_string())]
    );
    assert_eq!(from_numbers, from_texts);
}

#[test]
fn text_for_number_changes_nothing_in_a_keyed_decode() {
    let decoder = derive_lenient(&profile()).unwrap();
    let numbers = vec![
        pair("name", text("Ann")),
        pair("age", Token::U64(255)),
        pair("id", Token::U64(u64::MAX)),
    ];
    let texts = vec![
        pair("name", text("Ann")),
        pair("age", text("255")),
        pair("id", text("18446744073709551615")),
    ];
    let from_numbers = decoder.deserialize(Token::Object(numbers)).unwrap();
    let from_texts = decoder.deserialize(Token::Object(texts)).unwrap();
    assert_eq!(
        from_numbers,
        vec![Value::U64(u64::MAX), Value::U8(255), Value::Null, Value::Str("Ann".to_string())]
    );
    assert_eq!(from_numbers, from_texts);
}

#[test]
fn a_record_is_read_back_from_what_writes_it() {
    for codec in [derive_tuple(&profile()).unwrap(), derive_tuple_lenient(&profile()).unwrap()] {
        let records = vec![
            vec![Value::U64(0), Value::Null, Value::Null, Value::Str(String::new())],
            vec![
                Value::U64(u64::MAX),
                Value::U8(u8::MAX),
                Value::Str("42".to_string()),
                Value::Str("Ann".to_string()),
            ],
        ];
        for record in records {
            let written = codec.serializer.serialize(&record).unwrap();
            assert_eq!(codec.deserializer.deserialize(written), Ok(record));
        }
    }
}

#[test]
fn signed_and_wide_integers_are_read_back_by_strict_fields() {
    let wide = DeriveInput::record(
        "Wide",
        vec![field("a", "i8"), field("b", "i128"), field("c", "u128"), field("d", "isize")],
    );
    let codec = derive_tuple(&wide).unwrap();
    let record = vec![
        Value::I8(i8::MIN),
        Value::I128(i128::MIN),
        Value::U128(u128::MAX),
        Value::Isize(-1),
    ];
    let written = codec.serializer.serialize(&record).unwrap();
    assert_eq!(
        written,
        Token::Array(vec![
            Token::I64(-128),
            Token::I128(i128::MIN),
            Token::U128(u128::MAX),
            Token::I64(-1),
        ])
    );
    assert_eq!(codec.deserializer.deserialize(written), Ok(record));
}

#[test]
fn a_lenient_field_does_not_read_back_an_integer_beyond_64_bits() {
    let wide = DeriveInput::record("Wide", vec![field("c", "u128")]);
    let codec = derive_tuple_lenient(&wide).unwrap();
    let small = vec![Value::U128(5)];
    let written = codec.serializer.serialize(&small).unwrap();
    assert_eq!(written, Token::Array(vec![Token::U64(5)]));
    assert_eq!(codec.deserializer.deserialize(written), Ok(small));

    let large = vec![Value::U128(1 << 64)];
    let written = codec.serializer.serialize(&large).unwrap();
    assert_eq!(written, Token::Array(vec![Token::U128(1 << 64)]));
    assert_eq!(codec.deserializer.deserialize(written), Err(DecodeError::UnexpectedShape));
}

#[test]
fn one_token_less_or_more_is_an_invalid_length() {
    let decoder = derive_tuple_lenient(&profile()).unwrap().deserializer;
    let exact = vec![Token::U64(7), Token::U64(3), text("x"), text("Ann")];
    assert!(decoder.deserialize(Token::Array(exact)).is_ok());

    let less = vec![Token::U64(7), Token::U64(3), text("x")];
    assert_eq!(
        decoder.deserialize(Token::Array(less)),
        Err(DecodeError::InvalidLength { found: 3, expected: 4 })
    );
    let more = vec![Token::U64(7), Token::U64(3), text("x"), text("Ann"), Token::Null];
    assert_eq!(
        decoder.deserialize(Token::Array(more)),
        Err(DecodeError::InvalidLength { found: 5, expected: 4 })
    );
}

#[test]
fn a_token_that_fails_comes_before_the_length() {
    let decoder = derive_tuple_lenient(&profile()).unwrap().deserializer;
    let less = vec![text("seven"), Token::U64(3), text("x")];
    assert_eq!(
        decoder.deserialize(Token::Array(less)),
        Err(parse_failure(None, "invalid digit found in string"))
    );
    let more = vec![Token::U64(7), Token::Bool(true), text("x"), text("Ann"), Token::Null];
    assert_eq!(decoder.deserialize(Token::Array(more)), Err(DecodeError::UnexpectedShape));
}

#[test]
fn an_exact_length_fails_on_content_only() {
    let decoder = derive_tuple(&point_fields()).unwrap().deserializer;
    assert_eq!(
        decoder.deserialize(Token::Array(vec![Token::U64(1), text("2")])),
        Err(DecodeError::UnexpectedShape)
    );
    assert_eq!(
        decoder.deserialize(Token::Array(vec![Token::U64(1), Token::U64(2)])),
        Ok(vec![Value::U64(1), Value::U64(2)])
    );
}

#[test]
fn an_omitted_optional_field_is_empty() {
    let decoder = derive_lenient(&profile()).unwrap();
    let record = decoder
        .deserialize(Token::Object(vec![pair("name", text("Ann")), pair("id", Token::U64(1))]))
        .unwrap();
    assert_eq!(
        record,
        vec![Value::U64(1), Value::Null, Value::Null, Value::Str("Ann".to_string())]
    );
}

#[test]
fn an_omitted_required_field_is_missing() {
    let decoder = derive_lenient(&profile()).unwrap();
    assert_eq!(
        decoder.deserialize(Token::Object(vec![pair("id", Token::U64(1))])),
        Err(DecodeError::MissingField { name: "name".to_string() })
    );
    assert_eq!(
        decoder.deserialize(Token::Object(vec![])),
        Err(DecodeError::MissingField { name: "id".to_string() })
    );
}

#[test]
fn a_strict_numeric_field_takes_no_text() {
    for target in [
        Target::U8,
        Target::U16,
        Target::U32,
        Target::U64,
        Target::U128,
        Target::Usize,
        Target::I8,
        Target::I16,
        Target::I32,
        Target::I64,
        Target::I128,
        Target::Isize,
        Target::F32,
        Target::F64,
    ] {
        assert_eq!(strict(text("80"), target, false), Err(DecodeError::UnexpectedShape));
        assert_eq!(strict(text("80"), target, true), Err(DecodeError::UnexpectedShape));
        assert!(strict(Token::U64(80), target, false).is_ok());
    }
}

// Strict reading

#[test]
fn a_strict_integer_takes_an_integer_token_that_it_holds() {
    assert_eq!(strict(Token::U64(255), Target::U8, false), Ok(Value::U8(255)));
    assert_eq!(strict(Token::I64(255), Target::U8, false), Ok(Value::U8(255)));
    assert_eq!(strict(Token::I64(-128), Target::I8, false), Ok(Value::I8(-128)));
    assert_eq!(strict(Token::U64(256), Target::U8, false), Err(DecodeError::UnexpectedShape));
    assert_eq!(strict(Token::I64(-1), Target::U64, false), Err(DecodeError::UnexpectedShape));
    assert_eq!(strict(Token::I64(-129), Target::I8, false), Err(DecodeError::UnexpectedShape));
    assert_eq!(
        strict(Token::U64(u64::MAX), Target::I64, false),
        Err(DecodeError::UnexpectedShape)
    );
    assert_eq!(strict(Token::U64(u64::MAX), Target::I128, false), Ok(Value::I128(u64::MAX as i128)));
    assert_eq!(strict(Token::U128(u128::MAX), Target::U128, false), Ok(Value::U128(u128::MAX)));
    assert_eq!(
        strict(Token::U128(u128::MAX), Target::I128, false),
        Err(DecodeError::UnexpectedShape)
    );
    assert_eq!(
        strict(Token::F64("1".to_string()), Target::U8, false),
        Err(DecodeError::UnexpectedShape)
    );
    assert_eq!(strict(Token::Bool(true), Target::U8, false), Err(DecodeError::UnexpectedShape));
    assert_eq!(strict(Token::Null, Target::U8, false), Err(DecodeError::UnexpectedShape));
}

#[test]
fn the_form_of_128_bits_is_for_the_types_of_128_bits() {
    assert_eq!(strict(Token::U128(255), Target::U8, false), Err(DecodeError::UnexpectedShape));
    assert_eq!(strict(Token::I128(-128), Target::I8, false), Err(DecodeError::UnexpectedShape));
    assert_eq!(strict(Token::U128(1), Target::U64, false), Err(DecodeError::UnexpectedShape));
    assert_eq!(strict(Token::I128(1), Target::Isize, false), Err(DecodeError::UnexpectedShape));
    assert_eq!(strict(Token::U128(255), Target::U128, false), Ok(Value::U128(255)));
    assert_eq!(strict(Token::U128(255), Target::I128, false), Ok(Value::I128(255)));
    assert_eq!(strict(Token::I128(-1), Target::I128, false), Ok(Value::I128(-1)));
    assert_eq!(strict(Token::I128(1), Target::U128, false), Ok(Value::U128(1)));
    assert_eq!(strict(Token::I128(-1), Target::U128, false), Err(DecodeError::UnexpectedShape));
    assert_eq!(strict(Token::I64(-1), Target::I128, false), Ok(Value::I128(-1)));
    assert_eq!(strict(Token::U64(1), Target::U128, false), Ok(Value::U128(1)));
}

#[test]
fn a_strict_float_takes_a_number_and_keeps_its_text() {
    assert_eq!(
        strict(Token::F64("2.5".to_string()), Target::F64, false),
        Ok(Value::Float("2.5".to_string()))
    );
    assert_eq!(strict(Token::U64(3), Target::F32, false), Ok(Value::Float("3".to_string())));
    assert_eq!(strict(Token::I64(-3), Target::F64, false), Ok(Value::Float("-3".to_string())));
    assert_eq!(strict(Token::U128(3), Target::F64, false), Err(DecodeError::UnexpectedShape));
    assert_eq!(strict(Token::Bool(true), Target::F64, false), Err(DecodeError::UnexpectedShape));
}

#[test]
fn strict_text_and_truth_values() {
    assert_eq!(strict(text("a"), Target::Str, false), Ok(Value::Str("a".to_string())));
    assert_eq!(strict(Token::U64(1), Target::Str, false), Err(DecodeError::UnexpectedShape));
    assert_eq!(strict(Token::Bool(false), Target::Bool, false), Ok(Value::Bool(false)));
    assert_eq!(strict(text("false"), Target::Bool, false), Err(DecodeError::UnexpectedShape));
    assert_eq!(strict(Token::U64(0), Target::Bool, false), Err(DecodeError::UnexpectedShape));
}

#[test]
fn the_absent_value_is_the_empty_state_of_an_optional_field() {
    for target in [Target::U8, Target::F64, Target::Bool, Target::Str, Target::Other] {
        assert_eq!(strict(Token::Null, target, true), Ok(Value::Null));
    }
    assert_eq!(strict(Token::Null, Target::Str, false), Err(DecodeError::UnexpectedShape));
    assert_eq!(strict(Token::Null, Target::Other, false), Ok(Value::Raw(Token::Null)));
    assert_eq!(strict(Token::U64(5), Target::U8, true), Ok(Value::U8(5)));
}

#[test]
fn a_token_of_another_type_is_handed_on() {
    let nested = Token::Array(vec![Token::Object(vec![pair("a", Token::U64(1))])]);
    let copy = Token::Array(vec![Token::Object(vec![pair("a", Token::U64(1))])]);
    assert_eq!(strict(nested, Target::Other, false), Ok(Value::Raw(copy)));
}

// Lenient reading

#[test]
fn lenient_reads_numbers_and_texts() {
    assert_eq!(lenient(Token::U64(42), Target::U64), Ok(Value::U64(42)));
    assert_eq!(lenient(text("42"), Target::U64), Ok(Value::U64(42)));
    assert_eq!(lenient(Token::I64(-42), Target::I16), Ok(Value::I16(-42)));
    assert_eq!(lenient(Token::F64("42".to_string()), Target::U8), Ok(Value::U8(42)));
    assert_eq!(lenient(Token::U64(u64::MAX), Target::U64), Ok(Value::U64(u64::MAX)));
    assert_eq!(lenient(Token::U64(u64::MAX), Target::U128), Ok(Value::U128(u64::MAX as u128)));
    assert_eq!(
        lenient(text("x"), Target::U64),
        Err(parse_failure(None, "invalid digit found in string"))
    );
    assert_eq!(
        lenient(Token::U64(256), Target::U8),
        Err(parse_failure(None, "number too large to fit in target type"))
    );
}

#[test]
fn lenient_takes_no_other_shape() {
    assert_eq!(lenient(Token::Bool(true), Target::U64), Err(DecodeError::UnexpectedShape));
    assert_eq!(lenient(Token::Bool(true), Target::Bool), Err(DecodeError::UnexpectedShape));
    assert_eq!(lenient(Token::Null, Target::U64), Err(DecodeError::UnexpectedShape));
    assert_eq!(lenient(Token::Array(vec![]), Target::U64), Err(DecodeError::UnexpectedShape));
    assert_eq!(lenient(Token::Object(vec![]), Target::U64), Err(DecodeError::UnexpectedShape));
    assert_eq!(lenient(Token::U128(1), Target::U128), Err(DecodeError::UnexpectedShape));
}

#[test]
fn lenient_option_reads_nothing_from_the_absent_value() {
    assert_eq!(lenient_option(Token::Null, Target::U32), Ok(None));
    assert_eq!(lenient_option(Token::U64(5), Target::U32), Ok(Some(Value::U32(5))));
    assert_eq!(lenient_option(text("5"), Target::U32), Ok(Some(Value::U32(5))));
    assert_eq!(
        lenient_option(text(""), Target::U32),
        Err(parse_failure(None, "cannot parse integer from empty string"))
    );
    assert_eq!(lenient_option(Token::Bool(true), Target::U32), Err(DecodeError::UnexpectedShape));
}

#[test]
fn an_overridden_field_of_another_type_reads_text() {
    let decoder = derive_lenient(&DeriveInput::record(
        "Flags",
        vec![
            field("on", "bool").with_attr(Attr::lenient()),
            field("label", "Option<String>").with_attr(Attr::lenient()),
            field("at", "IpAddr").with_attr(Attr::lenient()),
        ],
    ))
    .unwrap();
    let record = decoder
        .deserialize(Token::Object(vec![
            pair("on", text("true")),
            pair("label", Token::U64(7)),
            pair("at", text("10.0.0.1")),
        ]))
        .unwrap();
    assert_eq!(
        record,
        vec![
            Value::Bool(true),
            Value::Str("7".to_string()),
            Value::Raw(Token::Str("10.0.0.1".to_string())),
        ]
    );
    let absent = decoder
        .deserialize(Token::Object(vec![
            pair("on", text("false")),
            pair("label", Token::Null),
            pair("at", Token::U64(1)),
        ]))
        .unwrap();
    assert_eq!(
        absent,
        vec![Value::Bool(false), Value::Null, Value::Raw(Token::Str("1".to_string()))]
    );
}

// Keyed decoding

#[test]
fn the_order_of_the_keys_does_not_matter() {
    let decoder = derive_lenient(&profile()).unwrap();
    let one = decoder.deserialize(Token::Object(vec![
        pair("id", Token::U64(1)),
        pair("age", text("30")),
        pair("nick", text("a")),
        pair("name", text("Ann")),
    ]));
    let other = decoder.deserialize(Token::Object(vec![
        pair("name", text("Ann")),
        pair("nick", text("a")),
        pair("age", text("30")),
        pair("id", Token::U64(1)),
    ]));
    assert_eq!(
        one,
        Ok(vec![
            Value::U64(1),
            Value::U8(30),
            Value::Str("a".to_string()),
            Value::Str("Ann".to_string()),
        ])
    );
    assert_eq!(one, other);
}

#[test]
fn an_unknown_key_lists_the_fields() {
    let decoder = derive_lenient(&profile()).unwrap();
    assert_eq!(
        decoder.deserialize(Token::Object(vec![pair("id", Token::U64(1)), pair("Id", Token::U64(1))])),
        Err(DecodeError::UnknownField {
            name: "Id".to_string(),
            fields: vec![
                "id".to_string(),
                "age".to_string(),
                "nick".to_string(),
                "name".to_string(),
            ],
        })
    );
}

#[test]
fn a_key_seen_twice_is_a_duplicate() {
    let decoder = derive_lenient(&profile()).unwrap();
    assert_eq!(
        decoder.deserialize(Token::Object(vec![
            pair("id", Token::U64(1)),
            pair("name", text("Ann")),
            pair("id", Token::U64(1)),
        ])),
        Err(DecodeError::DuplicateField { name: "id".to_string() })
    );
    assert_eq!(
        decoder.deserialize(Token::Object(vec![
            pair("age", Token::Null),
            pair("age", Token::Null),
        ])),
        Err(DecodeError::DuplicateField { name: "age".to_string() })
    );
}

#[test]
fn the_first_failure_ends_a_keyed_decode() {
    let decoder = derive_lenient(&profile()).unwrap();
    assert_eq!(
        decoder.deserialize(Token::Object(vec![
            pair("age", text("300")),
            pair("what", Token::Null),
            pair("age", Token::Null),
        ])),
        Err(parse_failure(Some("age"), "number too large to fit in target type"))
    );
    assert_eq!(
        decoder.deserialize(Token::Object(vec![
            pair("what", Token::Null),
            pair("age", text("300")),
        ])),
        Err(DecodeError::UnknownField {
            name: "what".to_string(),
            fields: vec![
                "id".to_string(),
                "age".to_string(),
                "nick".to_string(),
                "name".to_string(),
            ],
        })
    );
    assert_eq!(
        decoder.deserialize(Token::Object(vec![pair("id", Token::Bool(true))])),
        Err(DecodeError::UnexpectedShape)
    );
}

#[test]
fn a_key_names_the_first_field_of_its_name() {
    let visitor = StructVisitor {
        name: "Twice".to_string(),
        fields: vec![
            FieldPlan {
                name: "a".to_string(),
                class: Classification::Lenient,
                optional: false,
                target: Target::U8,
            },
            FieldPlan {
                name: "a".to_string(),
                class: Classification::Strict,
                optional: true,
                target: Target::Str,
            },
        ],
    };
    assert_eq!(visitor.field_index("a"), Some(0));
    assert_eq!(visitor.field_index("b"), None);
    assert_eq!(visitor.field_index(""), None);
    assert_eq!(visitor.field_names(), vec!["a".to_string(), "a".to_string()]);
    assert_eq!(
        visitor.visit_map(vec![pair("a", text("9"))]),
        Ok(vec![Value::U8(9), Value::Null])
    );
}

#[test]
fn a_decoder_takes_the_shape_it_was_made_for() {
    let keyed = derive_lenient(&point_fields()).unwrap();
    let positional = derive_tuple_lenient(&point_fields()).unwrap().deserializer;
    let array = || Token::Array(vec![Token::U64(1), Token::U64(2)]);
    let object = || Token::Object(vec![pair("x", Token::U64(1)), pair("y", Token::U64(2))]);
    assert_eq!(keyed.deserialize(array()), Err(DecodeError::UnexpectedShape));
    assert_eq!(positional.deserialize(object()), Err(DecodeError::UnexpectedShape));
    assert_eq!(positional.deserialize(Token::Null), Err(DecodeError::UnexpectedShape));
    assert_eq!(keyed.deserialize(text("{}")), Err(DecodeError::UnexpectedShape));
    assert_eq!(keyed.deserialize(object()), Ok(vec![Value::U64(1), Value::U64(2)]));
    assert_eq!(positional.deserialize(array()), Ok(vec![Value::U64(1), Value::U64(2)]));
}

#[test]
fn a_record_without_fields() {
    let empty = DeriveInput::record("Empty", vec![]);
    let codec = derive_tuple_lenient(&empty).unwrap();
    assert_eq!(codec.serializer.serialize(&vec![]), Some(Token::Array(vec![])));
    assert_eq!(codec.deserializer.deserialize(Token::Array(vec![])), Ok(vec![]));
    assert_eq!(
        codec.deserializer.deserialize(Token::Array(vec![Token::Null])),
        Err(DecodeError::InvalidLength { found: 1, expected: 0 })
    );
    let keyed = derive_lenient(&empty).unwrap();
    assert_eq!(keyed.deserialize(Token::Object(vec![])), Ok(vec![]));
    assert_eq!(
        keyed.deserialize(Token::Object(vec![pair("a", Token::Null)])),
        Err(DecodeError::UnknownField { name: "a".to_string(), fields: vec![] })
    );
}

// Encoding

#[test]
fn each_value_is_written_in_its_native_form() {
    assert_eq!(Value::Null.to_token(), Token::Null);
    assert_eq!(Value::Bool(true).to_token(), Token::Bool(true));
    assert_eq!(Value::U8(1).to_token(), Token::U64(1));
    assert_eq!(Value::U16(1).to_token(), Token::U64(1));
    assert_eq!(Value::U32(1).to_token(), Token::U64(1));
    assert_eq!(Value::U64(u64::MAX).to_token(), Token::U64(u64::MAX));
    assert_eq!(Value::U128(u64::MAX as u128).to_token(), Token::U64(u64::MAX));
    assert_eq!(Value::U128(u64::MAX as u128 + 1).to_token(), Token::U128(u64::MAX as u128 + 1));
    assert_eq!(Value::Usize(1).to_token(), Token::U64(1));
    assert_eq!(Value::I8(-1).to_token(), Token::I64(-1));
    assert_eq!(Value::I8(1).to_token(), Token::U64(1));
    assert_eq!(Value::I16(-1).to_token(), Token::I64(-1));
    assert_eq!(Value::I32(-1).to_token(), Token::I64(-1));
    assert_eq!(Value::I64(i64::MIN).to_token(), Token::I64(i64::MIN));
    assert_eq!(Value::I128(i64::MIN as i128).to_token(), Token::I64(i64::MIN));
    assert_eq!(Value::I128(i64::MIN as i128 - 1).to_token(), Token::I128(i64::MIN as i128 - 1));
    assert_eq!(Value::I128(i128::MAX).to_token(), Token::U128(i128::MAX as u128));
    assert_eq!(Value::Isize(-1).to_token(), Token::I64(-1));
    assert_eq!(Value::Float("2.5".to_string()).to_token(), Token::F64("2.5".to_string()));
    assert_eq!(Value::Str("7".to_string()).to_token(), Token::Str("7".to_string()));
    assert_eq!(Value::Raw(Token::Array(vec![Token::Null])).to_token(), Token::Array(vec![Token::Null]));
}

#[test]
fn a_record_of_another_length_is_not_written() {
    let point = gen_serialize_impl(&point_fields()).unwrap();
    assert_eq!(point.fields, vec!["x".to_string(), "y".to_string()]);
    assert_eq!(point.serialize(&vec![Value::U64(1)]), None);
    assert_eq!(point.serialize(&vec![Value::U64(1), Value::U64(2), Value::U64(3)]), None);
    assert_eq!(point.serialize(&vec![]), None);
}

#[test]
fn copies_are_equal() {
    let token = Token::Object(vec![
        pair("a", Token::Array(vec![Token::I128(-1), Token::U128(1), Token::F64("1.5".to_string())])),
        pair("b", Token::Object(vec![pair("c", text("d")), pair("e", Token::Null)])),
        pair("f", Token::Bool(true)),
        pair("g", Token::I64(-1)),
        pair("h", Token::U64(1)),
    ]);
    assert_eq!(token.clone(), token);
    let values = vec![
        Value::Null,
        Value::Bool(true),
        Value::U8(1),
        Value::U16(2),
        Value::U32(3),
        Value::U64(4),
        Value::U128(5),
        Value::Usize(6),
        Value::I8(-1),
        Value::I16(-2),
        Value::I32(-3),
        Value::I64(-4),
        Value::I128(-5),
        Value::Isize(-6),
        Value::Float("1.5".to_string()),
        Value::Str("s".to_string()),
        Value::Raw(token),
    ];
    for value in values {
        assert_eq!(value.clone(), value);
    }
}

// Making decoders

fn refusal(message: &str) -> GenError {
    GenError { message: message.to_string() }
}

fn of(data: Data) -> DeriveInput {
    DeriveInput { ident: "T".to_string(), data }
}

#[test]
fn a_lenient_decoder_is_made_for_named_fields_only() {
    for as_tuple in [false, true] {
        assert_eq!(
            gen_lenient_deserialize(&of(Data::Struct(Fields::Unnamed)), as_tuple),
            Err(refusal("Lenient does not support tuple structs"))
        );
        assert_eq!(
            gen_lenient_deserialize(&of(Data::Struct(Fields::Unit)), as_tuple),
            Err(refusal("Lenient does not support unit structs"))
        );
        assert_eq!(
            gen_lenient_deserialize(&of(Data::Enum), as_tuple),
            Err(refusal("Lenient only supports structs"))
        );
        assert_eq!(
            gen_lenient_deserialize(&of(Data::Union), as_tuple),
            Err(refusal("Lenient only supports structs"))
        );
    }
    assert_eq!(
        derive_lenient(&of(Data::Enum)),
        Err(refusal("Lenient only supports structs"))
    );
}

#[test]
fn a_strict_decoder_is_made_for_named_fields_only() {
    assert_eq!(
        gen_deserialize_impl(&of(Data::Struct(Fields::Unnamed))),
        Err(refusal("Tuple does not support tuple structs"))
    );
    assert_eq!(
        gen_deserialize_impl(&of(Data::Struct(Fields::Unit))),
        Err(refusal("Tuple does not support unit structs"))
    );
    assert_eq!(gen_deserialize_impl(&of(Data::Enum)), Err(refusal("Tuple only supports structs")));
    assert_eq!(gen_deserialize_impl(&of(Data::Union)), Err(refusal("Tuple only supports structs")));
}

#[test]
fn an_encoder_is_made_for_named_fields_only() {
    assert_eq!(
        gen_serialize_impl(&of(Data::Struct(Fields::Unnamed))),
        Err(refusal("Serialize does not support tuple structs"))
    );
    assert_eq!(
        gen_serialize_impl(&of(Data::Struct(Fields::Unit))),
        Err(refusal("Serialize does not support tuple structs"))
    );
    assert_eq!(gen_serialize_impl(&of(Data::Enum)), Err(refusal("Only supports structs")));
    assert_eq!(gen_serialize_impl(&of(Data::Union)), Err(refusal("Only supports structs")));
}

#[test]
fn a_codec_is_refused_by_its_encoder_first() {
    assert_eq!(
        derive_tuple(&of(Data::Struct(Fields::Unit))),
        Err(refusal("Serialize does not support tuple structs"))
    );
    assert_eq!(derive_tuple(&of(Data::Enum)), Err(refusal("Only supports structs")));
    assert_eq!(
        derive_tuple_lenient(&of(Data::Struct(Fields::Unnamed))),
        Err(refusal("Serialize does not support tuple structs"))
    );
    assert_eq!(derive_tuple_lenient(&of(Data::Union)), Err(refusal("Only supports structs")));
}

#[test]
fn the_three_decoders_of_one_definition() {
    let definition = DeriveInput::record(
        "Config",
        vec![field("port", "u16").with_attr(Attr::skip()), field("retry", "Option<u32>")],
    );
    let plan = |class_port, class_retry| {
        vec![
            FieldPlan {
                name: "port".to_string(),
                class: class_port,
                optional: false,
                target: Target::U16,
            },
            FieldPlan {
                name: "retry".to_string(),
                class: class_retry,
                optional: true,
                target: Target::U32,
            },
        ]
    };
    assert_eq!(
        derive_tuple(&definition).unwrap().deserializer,
        Deserializer::Tuple(TupleVisitor {
            fields: plan(Classification::Strict, Classification::Strict)
        })
    );
    assert_eq!(
        derive_tuple_lenient(&definition).unwrap().deserializer,
        Deserializer::Tuple(TupleVisitor {
            fields: plan(Classification::Strict, Classification::LenientOptional)
        })
    );
    assert_eq!(
        derive_lenient(&definition).unwrap(),
        Deserializer::Struct(StructVisitor {
            name: "Config".to_string(),
            fields: plan(Classification::Strict, Classification::LenientOptional)
        })
    );
    assert_eq!(
        gen_lenient_deserialize(&definition, true).unwrap(),
        derive_tuple_lenient(&definition).unwrap().deserializer
    );
    assert_eq!(
        gen_deserialize_impl(&definition).unwrap(),
        derive_tuple(&definition).unwrap().deserializer
    );
}

#[test]
fn a_parse_failure_of_the_callers_parser() {
    let keyed = derive_lenient(&point_fields()).unwrap();
    let positional = derive_tuple_lenient(&point_fields()).unwrap().deserializer;
    let message = || "invalid float literal".to_string();
    assert_eq!(keyed.parse_failure(1, message()), parse_failure(Some("y"), "invalid float literal"));
    assert_eq!(keyed.parse_failure(2, message()), parse_failure(None, "invalid float literal"));
    assert_eq!(positional.parse_failure(1, message()), parse_failure(None, "invalid float literal"));
}

#[test]
fn a_parse_failure_takes_the_fields_name() {
    let failure = parse_failure(None, "m");
    assert_eq!(failure.tagged(&"id".to_string()), parse_failure(Some("id"), "m"));
    let renamed = parse_failure(Some("a"), "m");
    assert_eq!(renamed.tagged(&"b".to_string()), parse_failure(Some("b"), "m"));
    assert_eq!(
        DecodeError::UnexpectedShape.tagged(&"id".to_string()),
        DecodeError::UnexpectedShape
    );
    assert_eq!(
        DecodeError::InvalidLength { found: 1, expected: 2 }.tagged(&"id".to_string()),
        DecodeError::InvalidLength { found: 1, expected: 2 }
    );
}
