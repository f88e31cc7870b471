//! The JSON text of a record. serde_json encodes and decodes single values;
//! which keys are written, in which order, and how a key's value becomes a
//! field is decided here.

use crate::record::{
    fields_record, fields_view, flags_key, number_key, text_key, Field, FieldView, Record,
    RecordView, kept_fields,
};
use vstd::prelude::*;

verus! {

#[verifier::external_type_specification]
#[verifier::external_body]
pub struct ExJsonError(serde_json::Error);

/// The error of reading a text that is not a record.
#[derive(Debug, Clone, Copy, PartialEq, Eq, Structural)]
pub struct MalformedInputError;

// ---------------------------------------------------------------- encoding

/// The JSON string literal that serde_json writes for `s`, quotes included.
pub uninterp spec fn json_string_text(s: Seq<char>) -> Seq<char>;

/// Relies on serde_json::to_string for a `str`: the quoted, escaped string.
/// Writing into memory cannot fail for a `str`, so the error arm is never taken.
#[verifier::external_body]
fn quote_text(s: &str) -> (r: String)
    ensures
        r@ == json_string_text(s@),
{
    serde_json::to_string(s).expect("a str always serializes")
}

/// The decimal digit `d`.
pub open spec fn digit_char(d: nat) -> char {
    seq!['0', '1', '2', '3', '4', '5', '6', '7', '8', '9'][d as int]
}

/// The decimal digits of `n`, without leading zeros.
pub open spec fn nat_text(n: nat) -> Seq<char>
    decreases n,
{
    if n < 10 {
        seq![digit_char(n)]
    } else {
        nat_text(n / 10) + seq![digit_char(n % 10)]
    }
}

/// The decimal text of `i`, with a leading minus sign when it is negative.
pub open spec fn int_text(i: int) -> Seq<char> {
    if i < 0 {
        seq!['-'] + nat_text((-i) as nat)
    } else {
        nat_text(i as nat)
    }
}

/// Relies on serde_json::to_string for an `i32`: its decimal text.
/// Writing into memory cannot fail for an `i32`, so the error arm is never taken.
#[verifier::external_body]
fn number_text(n: i32) -> (r: String)
    ensures
        r@ == int_text(n as int),
{
    serde_json::to_string(&n).expect("an i32 always serializes")
}

/// `true` or `false`.
pub open spec fn bool_text(b: bool) -> Seq<char> {
    if b {
        seq!['t', 'r', 'u', 'e']
    } else {
        seq!['f', 'a', 'l', 's', 'e']
    }
}

/// The items of a list of booleans, separated by commas.
pub open spec fn bool_items_text(bs: Seq<bool>) -> Seq<char>
    decreases bs.len(),
{
    if bs.len() == 0 {
        Seq::empty()
    } else if bs.len() == 1 {
        bool_text(bs[0])
    } else {
        bool_items_text(bs.drop_last()) + seq![','] + bool_text(bs.last())
    }
}

/// The JSON array of a list of booleans, in compact form.
pub open spec fn bools_text(bs: Seq<bool>) -> Seq<char> {
    seq!['['] + bool_items_text(bs) + seq![']']
}

/// Relies on serde_json::to_string for a `Vec<bool>`: a compact JSON array.
/// Writing into memory cannot fail for a `Vec<bool>`, so the error arm is never taken.
#[verifier::external_body]
fn flags_text(b: &Vec<bool>) -> (r: String)
    ensures
        r@ == bools_text(b@),
{
    serde_json::to_string(b).expect("a Vec<bool> always serializes")
}

/// A key in quotes followed by a colon.
pub open spec fn key_prefix(k: Seq<char>) -> Seq<char> {
    seq!['"'] + k + seq!['"', ':']
}

/// The text of one field: its key and its value.
pub open spec fn entry_text(f: FieldView) -> Seq<char> {
    match f {
        FieldView::Text(s) => key_prefix(text_key()) + json_string_text(s),
        FieldView::Number(n) => key_prefix(number_key()) + int_text(n as int),
        FieldView::Flags(b) => key_prefix(flags_key()) + bools_text(b),
    }
}

/// The entries of a list of fields, separated by commas.
pub open spec fn entries_text(fs: Seq<FieldView>) -> Seq<char>
    decreases fs.len(),
{
    if fs.len() == 0 {
        Seq::empty()
    } else if fs.len() == 1 {
        entry_text(fs[0])
    } else {
        entries_text(fs.drop_last()) + seq![','] + entry_text(fs.last())
    }
}

/// The JSON object that holds a list of fields, in their order.
pub open spec fn object_text(fs: Seq<FieldView>) -> Seq<char> {
    seq!['{'] + entries_text(fs) + seq!['}']
}

/// The text of a record: an object of the fields that are not omitted.
pub open spec fn serialized(r: Record) -> Seq<char> {
    object_text(kept_fields(r))
}

/// The text of one field (see `entry_text`).
fn entry_string(f: &Field) -> (r: String)
    ensures
        r@ == entry_text(f@),
{
    match f {
        Field::Text(s) => {
            let mut out = String::from_str("\"text\":");
            proof {
                reveal_strlit("\"text\":");
            }
            assert(out@ =~= key_prefix(text_key()));
            let v = quote_text(s.as_str());
            out.append(v.as_str());
            out
        },
        Field::Number(n) => {
            let mut out = String::from_str("\"number\":");
            proof {
                reveal_strlit("\"number\":");
            }
            assert(out@ =~= key_prefix(number_key()));
            let v = number_text(*n);
            out.append(v.as_str());
            out
        },
        Field::Flags(b) => {
            let mut out = String::from_str("\"flags\":");
            proof {
                reveal_strlit("\"flags\":");
            }
            assert(out@ =~= key_prefix(flags_key()));
            let v = flags_text(b);
            out.append(v.as_str());
            out
        },
    }
}

/// Writes a list of fields as a JSON object, in their order.
pub fn fields_to_json(fs: &Vec<Field>) -> (r: String)
    ensures
        r@ == object_text(fields_view(fs@)),
{
    let mut out = String::from_str("{");
    proof {
        reveal_strlit("{");
    }
    let mut i: usize = 0;
    while i < fs.len()
        invariant
            i <= fs.len(),
            out@ == seq!['{'] + entries_text(fields_view(fs@).subrange(0, i as int)),
        decreases fs.len() - i,
    {
        let ghost before = fields_view(fs@).subrange(0, i as int);
        let ghost after = fields_view(fs@).subrange(0, i + 1);
        assert(after.drop_last() =~= before);
        assert(after.last() == fs@[i as int]@);
        if i > 0 {
            proof {
                reveal_strlit(",");
            }
            out.append(",");
        }
        let e = entry_string(&fs[i]);
        out.append(e.as_str());
        if i == 0 {
            assert(after[0] == after.last());
        }
        assert(out@ =~= seq!['{'] + entries_text(after));
        i = i + 1;
    }
    assert(fields_view(fs@).subrange(0, fs.len() as int) =~= fields_view(fs@));
    proof {
        reveal_strlit("}");
    }
    out.append("}");
    out
}

/// Writes a record as JSON, leaving out each field that is absent or holds
/// its type's default value.
pub fn serialize(r: &Record) -> (s: String)
    ensures
        s@ == serialized(*r),
{
    let fs = r.kept();
    fields_to_json(&fs)
}

// ---------------------------------------------------------------- decoding

/// The members of the JSON object that `s` holds, each key with the compact
/// text of its value; none when `s` is not a JSON object.
pub uninterp spec fn json_members_of(s: Seq<char>) -> Option<Seq<(Seq<char>, Seq<char>)>>;

/// The views of a list of members.
pub open spec fn members_view(ms: Seq<(String, String)>) -> Seq<(Seq<char>, Seq<char>)> {
    ms.map_values(|m: (String, String)| (m.0@, m.1@))
}

/// Relies on serde_json::from_str into a serde_json::Map, which fails unless
/// the text is one JSON object, and on serde_json::Value's Display, which
/// writes each member's value back as compact JSON.
#[verifier::external_body]
fn parse_members(text: &str) -> (r: Result<Vec<(String, String)>, serde_json::Error>)
    ensures
        r is Ok <==> json_members_of(text@) is Some,
        r is Ok ==> members_view(r->Ok_0@) == json_members_of(text@)->Some_0,
{
    serde_json::from_str::<serde_json::Map<String, serde_json::Value>>(text).map(
        |m| m.into_iter().map(|(k, v)| (k, v.to_string())).collect(),
    )
}

/// What serde_json reads from a JSON text as an optional string: none on an
/// error, `Some(None)` for null.
pub uninterp spec fn json_text_value_of(raw: Seq<char>) -> Option<Option<Seq<char>>>;

/// Relies on serde_json::from_str for an `Option<String>`.
#[verifier::external_body]
fn decode_text(raw: &str) -> (r: Result<Option<String>, serde_json::Error>)
    ensures
        match r {
            Ok(Some(s)) => json_text_value_of(raw@) == Some(Some(s@)),
            Ok(None) => json_text_value_of(raw@) == Some(None::<Seq<char>>),
            Err(_) => json_text_value_of(raw@) is None,
        },
{
    serde_json::from_str::<Option<String>>(raw)
}

/// What serde_json reads from a JSON text as an optional `i32`: none on an
/// error, `Some(None)` for null.
pub uninterp spec fn json_number_value_of(raw: Seq<char>) -> Option<Option<i32>>;

/// Relies on serde_json::from_str for an `Option<i32>`.
#[verifier::external_body]
fn decode_number(raw: &str) -> (r: Result<Option<i32>, serde_json::Error>)
    ensures
        match r {
            Ok(v) => json_number_value_of(raw@) == Some(v),
            Err(_) => json_number_value_of(raw@) is None,
        },
{
    serde_json::from_str::<Option<i32>>(raw)
}

/// What serde_json reads from a JSON text as an optional list of booleans:
/// none on an error, `Some(None)` for null.
pub uninterp spec fn json_flags_value_of(raw: Seq<char>) -> Option<Option<Seq<bool>>>;

/// Relies on serde_json::from_str for an `Option<Vec<bool>>`.
#[verifier::external_body]
fn decode_flags(raw: &str) -> (r: Result<Option<Vec<bool>>, serde_json::Error>)
    ensures
        match r {
            Ok(Some(b)) => json_flags_value_of(raw@) == Some(Some(b@)),
            Ok(None) => json_flags_value_of(raw@) == Some(None::<Seq<bool>>),
            Err(_) => json_flags_value_of(raw@) is None,
        },
{
    serde_json::from_str::<Option<Vec<bool>>>(raw)
}

/// What one member of the object means: none when its value has the wrong
/// type for its key, `Some(None)` when it sets no field (a null value, or a
/// key that names no field), else the field it sets.
pub open spec fn member_field(key: Seq<char>, raw: Seq<char>) -> Option<Option<FieldView>> {
    if key == text_key() {
        match json_text_value_of(raw) {
            None => None,
            Some(None) => Some(None),
            Some(Some(s)) => Some(Some(FieldView::Text(s))),
        }
    } else if key == number_key() {
        match json_number_value_of(raw) {
            None => None,
            Some(None) => Some(None),
            Some(Some(n)) => Some(Some(FieldView::Number(n))),
        }
    } else if key == flags_key() {
        match json_flags_value_of(raw) {
            None => None,
            Some(None) => Some(None),
            Some(Some(b)) => Some(Some(FieldView::Flags(b))),
        }
    } else {
        Some(None)
    }
}

/// The fields that a list of members sets, in order; none when one of the
/// members is malformed.
pub open spec fn members_fields(ms: Seq<(Seq<char>, Seq<char>)>) -> Option<Seq<FieldView>>
    decreases ms.len(),
{
    if ms.len() == 0 {
        Some(Seq::empty())
    } else {
        match members_fields(ms.drop_last()) {
            None => None,
            Some(fs) => match member_field(ms.last().0, ms.last().1) {
                None => None,
                Some(None) => Some(fs),
                Some(Some(f)) => Some(fs.push(f)),
            },
        }
    }
}

/// The record that a text describes: malformed unless the text is a JSON
/// object whose known keys all hold values of their field's type; every
/// field that no member sets is absent.
pub open spec fn deserialized(text: Seq<char>) -> Result<RecordView, MalformedInputError> {
    match json_members_of(text) {
        None => Err(MalformedInputError),
        Some(ms) => match members_fields(ms) {
            None => Err(MalformedInputError),
            Some(fs) => Ok(fields_record(fs)),
        },
    }
}

/// The view of a decoded member, in the shape of `member_field`.
pub open spec fn member_result_view(r: Result<Option<Field>, MalformedInputError>) -> Option<
    Option<FieldView>,
> {
    match r {
        Ok(Some(f)) => Some(Some(f@)),
        Ok(None) => Some(None),
        Err(_) => None,
    }
}

/// The view of a record read from text, in the shape of `deserialized`.
pub open spec fn record_result_view(r: Result<Record, MalformedInputError>) -> Result<
    RecordView,
    MalformedInputError,
> {
    match r {
        Ok(rec) => Ok(rec@),
        Err(e) => Err(e),
    }
}

/// Decodes one member of a JSON object (see `member_field`).
pub fn member_to_field(key: &String, raw: &String) -> (r: Result<Option<Field>, MalformedInputError>)
    ensures
        member_result_view(r) == member_field(key@, raw@),
{
    let text = String::from_str("text");
    let number = String::from_str("number");
    let flags = String::from_str("flags");
    proof {
        reveal_strlit("text");
        reveal_strlit("number");
        reveal_strlit("flags");
    }
    assert(text@ =~= text_key());
    assert(number@ =~= number_key());
    assert(flags@ =~= flags_key());
    if *key == text {
        match decode_text(raw.as_str()) {
            Ok(Some(s)) => Ok(Some(Field::Text(s))),
            Ok(None) => Ok(None),
            Err(_) => Err(MalformedInputError),
        }
    } else if *key == number {
        match decode_number(raw.as_str()) {
            Ok(Some(n)) => Ok(Some(Field::Number(n))),
            Ok(None) => Ok(None),
            Err(_) => Err(MalformedInputError),
        }
    } else if *key == flags {
        match decode_flags(raw.as_str()) {
            Ok(Some(b)) => Ok(Some(Field::Flags(b))),
            Ok(None) => Ok(None),
            Err(_) => Err(MalformedInputError),
        }
    } else {
        Ok(None)
    }
}

/// A malformed prefix of the members makes the whole list malformed.
proof fn lemma_malformed_prefix(ms: Seq<(Seq<char>, Seq<char>)>, i: int)
    requires
        0 <= i <= ms.len(),
        members_fields(ms.subrange(0, i)) is None,
    ensures
        members_fields(ms) is None,
    decreases ms.len(),
{
    if i == ms.len() {
        assert(ms.subrange(0, i) =~= ms);
    } else {
        assert(ms.drop_last().subrange(0, i) =~= ms.subrange(0, i));
        lemma_malformed_prefix(ms.drop_last(), i);
    }
}

/// Reads a record from its JSON text. Every field whose key is missing, or
/// holds null, is absent; a text that is not a JSON object, or a known key
/// whose value has the wrong type, gives `MalformedInputError`.
pub fn deserialize(text: &str) -> (r: Result<Record, MalformedInputError>)
    ensures
        record_result_view(r) == deserialized(text@),
{
    let members = match parse_members(text) {
        Ok(ms) => ms,
        Err(_) => {
            return Err(MalformedInputError);
        },
    };
    let ghost ms = members_view(members@);
    let mut fs: Vec<Field> = Vec::new();
    let mut i: usize = 0;
    while i < members.len()
        invariant
            i <= members.len(),
            ms == members_view(members@),
            json_members_of(text@) == Some(ms),
            members_fields(ms.subrange(0, i as int)) == Some(fields_view(fs@)),
        decreases members.len() - i,
    {
        let ghost before = ms.subrange(0, i as int);
        let ghost after = ms.subrange(0, i + 1);
        assert(after.drop_last() =~= before);
        assert(after.last() == (members@[i as int].0@, members@[i as int].1@));
        match member_to_field(&members[i].0, &members[i].1) {
            Ok(Some(f)) => {
                let ghost prior = fs@;
                let ghost fv = f@;
                fs.push(f);
                assert(fields_view(fs@) =~= fields_view(prior).push(fv));
            },
            Ok(None) => {},
            Err(e) => {
                assert(members_fields(after) is None);
                proof {
                    lemma_malformed_prefix(ms, i + 1);
                }
                return Err(e);
            },
        }
        i = i + 1;
    }
    assert(ms.subrange(0, members.len() as int) =~= ms);
    Ok(Record::from_fields(&fs))
}

/// Writes a record as JSON and reads that text back: the text, and the
/// record (or the error) that it gives.
pub fn round_trip(r: &Record) -> (out: (String, Result<Record, MalformedInputError>))
    ensures
        out.0@ == serialized(*r),
        record_result_view(out.1) == deserialized(out.0@),
{
    let text = serialize(r);
    let back = deserialize(text.as_str());
    (text, back)
}

} // verus!
