use derpiboorust::{Id, IdError, JsonValue};

#[test]
fn number_and_string_forms_agree() {
    assert_eq!(Id::decode(JsonValue::UInt(1941825)), Ok(Id(1941825)));
    assert_eq!(
        Id::decode(JsonValue::Str(String::from("1941825"))),
        Ok(Id(1941825))
    );
}

#[test]
fn unparsable_string_is_an_error_naming_the_text() {
    assert_eq!(
        Id::decode(JsonValue::Str(String::from("abc"))),
        Err(IdError::UnparsableString(String::from("abc")))
    );
    assert_eq!(
        Id::decode(JsonValue::Str(String::from(""))),
        Err(IdError::UnparsableString(String::from("")))
    );
    assert_eq!(
        Id::decode(JsonValue::Str(String::from("-7"))),
        Err(IdError::UnparsableString(String::from("-7")))
    );
}

#[test]
fn non_numeric_kinds_are_rejected() {
    assert_eq!(Id::decode(JsonValue::Bool(true)), Err(IdError::UnsupportedKind));
    assert_eq!(Id::decode(JsonValue::Bool(false)), Err(IdError::UnsupportedKind));
    assert_eq!(Id::decode(JsonValue::Null), Err(IdError::UnsupportedKind));
    assert_eq!(Id::decode(JsonValue::Array), Err(IdError::UnsupportedKind));
    assert_eq!(Id::decode(JsonValue::Object), Err(IdError::UnsupportedKind));
    assert_eq!(Id::decode(JsonValue::Float), Err(IdError::UnsupportedKind));
}

#[test]
fn signed_integers_accepted_only_when_non_negative() {
    assert_eq!(Id::decode(JsonValue::Int(5)), Ok(Id(5)));
    assert_eq!(Id::decode(JsonValue::Int(0)), Ok(Id(0)));
    assert_eq!(Id::decode(JsonValue::Int(-5)), Err(IdError::UnsupportedKind));
}

#[test]
fn string_form_accepts_u64_range_exactly() {
    assert_eq!(
        Id::decode(JsonValue::Str(String::from("18446744073709551615"))),
        Ok(Id(u64::MAX))
    );
    assert_eq!(
        Id::decode(JsonValue::Str(String::from("18446744073709551616"))),
        Err(IdError::UnparsableString(String::from("18446744073709551616")))
    );
}
