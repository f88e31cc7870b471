use omit_default::json::{
    deserialize, fields_to_json, member_to_field, round_trip, serialize, MalformedInputError,
};
use omit_default::record::{Field, Record};

fn record(text: Option<&str>, number: Option<i32>, flags: Option<Vec<bool>>) -> Record {
    Record { text: text.map(String::from), number, flags }
}

fn empty() -> Record {
    record(None, None, None)
}

#[test]
fn all_absent_serializes_to_empty_object() {
    let r = Record::default();
    assert_eq!(r, empty());
    let (text, back) = round_trip(&r);
    assert_eq!(text, "{}");
    assert_eq!(back, Ok(empty()));
}

#[test]
fn explicit_defaults_collapse_to_absent() {
    let r = record(Some(""), Some(0), Some(vec![]));
    let (text, back) = round_trip(&r);
    assert_eq!(text, "{}");
    assert_eq!(back, Ok(empty()));
}

#[test]
fn non_default_record_round_trips() {
    let r = record(Some("a string"), Some(42), Some(vec![true, false]));
    let (text, back) = round_trip(&r);
    assert_eq!(text, r#"{"text":"a string","number":42,"flags":[true,false]}"#);
    assert_eq!(back, Ok(r));
}

#[test]
fn only_flags_kept() {
    let r = record(None, Some(0), Some(vec![true, false]));
    assert_eq!(serialize(&r), r#"{"flags":[true,false]}"#);
}

#[test]
fn serialization_is_deterministic() {
    let r = record(Some("x"), Some(-5), Some(vec![false]));
    assert_eq!(serialize(&r), serialize(&r));
}

#[test]
fn keys_follow_omission() {
    assert_eq!(serialize(&record(Some("t"), None, None)), r#"{"text":"t"}"#);
    assert_eq!(serialize(&record(Some(""), Some(-7), None)), r#"{"number":-7}"#);
    assert_eq!(serialize(&record(None, None, Some(vec![false]))), r#"{"flags":[false]}"#);
    assert_eq!(
        serialize(&record(Some("t"), Some(0), Some(vec![true]))),
        r#"{"text":"t","flags":[true]}"#
    );
}

#[test]
fn number_extremes_are_decimal() {
    assert_eq!(serialize(&record(None, Some(i32::MIN), None)), r#"{"number":-2147483648}"#);
    assert_eq!(serialize(&record(None, Some(i32::MAX), None)), r#"{"number":2147483647}"#);
}

#[test]
fn text_is_escaped_and_read_back() {
    let r = record(Some("a\"b\\c\nd"), None, None);
    let (text, back) = round_trip(&r);
    assert_eq!(text, r#"{"text":"a\"b\\c\nd"}"#);
    assert_eq!(back, Ok(r));
}

#[test]
fn partly_default_record_loses_defaults() {
    let r = record(Some(""), Some(5), None);
    let (text, back) = round_trip(&r);
    assert_eq!(text, r#"{"number":5}"#);
    assert_eq!(back, Ok(record(None, Some(5), None)));
}

#[test]
fn wrong_typed_number_is_malformed() {
    assert_eq!(deserialize(r#"{"number":"not-a-number"}"#), Err(MalformedInputError));
}

#[test]
fn wrong_typed_text_and_flags_are_malformed() {
    assert_eq!(deserialize(r#"{"text":5}"#), Err(MalformedInputError));
    assert_eq!(deserialize(r#"{"flags":[1,2]}"#), Err(MalformedInputError));
    assert_eq!(deserialize(r#"{"flags":true}"#), Err(MalformedInputError));
    assert_eq!(deserialize(r#"{"number":1.5}"#), Err(MalformedInputError));
    assert_eq!(deserialize(r#"{"number":3000000000}"#), Err(MalformedInputError));
}

#[test]
fn unparseable_text_is_malformed() {
    assert_eq!(deserialize(r#"{"text":"#), Err(MalformedInputError));
    assert_eq!(deserialize(""), Err(MalformedInputError));
    assert_eq!(deserialize("[1]"), Err(MalformedInputError));
    assert_eq!(deserialize("{} x"), Err(MalformedInputError));
}

#[test]
fn null_and_missing_keys_are_absent() {
    assert_eq!(deserialize(r#"{"text":null,"number":null,"flags":null}"#), Ok(empty()));
    assert_eq!(deserialize("{}"), Ok(empty()));
}

#[test]
fn defaults_in_text_are_read_as_present() {
    assert_eq!(
        deserialize(r#"{"text":"","number":0,"flags":[]}"#),
        Ok(record(Some(""), Some(0), Some(vec![])))
    );
}

#[test]
fn unknown_keys_and_spacing_are_accepted() {
    assert_eq!(
        deserialize(r#" { "other" : [1, {"x": 2}], "number" : 3 } "#),
        Ok(record(None, Some(3), None))
    );
}

#[test]
fn fields_written_in_given_order() {
    let fs = vec![Field::Flags(vec![true]), Field::Number(1), Field::Text(String::from("z"))];
    assert_eq!(fields_to_json(&fs), r#"{"flags":[true],"number":1,"text":"z"}"#);
    assert_eq!(fields_to_json(&vec![]), "{}");
}

#[test]
fn members_decode_by_key() {
    let k = |s: &str| String::from(s);
    assert_eq!(member_to_field(&k("text"), &k(r#""hi""#)), Ok(Some(Field::Text(k("hi")))));
    assert_eq!(member_to_field(&k("number"), &k("-4")), Ok(Some(Field::Number(-4))));
    assert_eq!(
        member_to_field(&k("flags"), &k("[false,true]")),
        Ok(Some(Field::Flags(vec![false, true])))
    );
    assert_eq!(member_to_field(&k("number"), &k("null")), Ok(None));
    assert_eq!(member_to_field(&k("other"), &k("[[")), Ok(None));
    assert_eq!(member_to_field(&k("text"), &k("1")), Err(MalformedInputError));
}
