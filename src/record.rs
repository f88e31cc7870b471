//! The record, its fields, and the conversion between a record and the list
//! of fields that its text carries.

use crate::omission::{is_none_or_default, omits};
use vstd::prelude::*;

verus! {

/// A record whose three fields are each optional.
#[derive(Debug, PartialEq, Eq)]
pub struct Record {
    pub text: Option<String>,
    pub number: Option<i32>,
    pub flags: Option<Vec<bool>>,
}

/// The mathematical value of a `Record`.
pub struct RecordView {
    pub text: Option<Seq<char>>,
    pub number: Option<i32>,
    pub flags: Option<Seq<bool>>,
}

impl View for Record {
    type V = RecordView;

    open spec fn view(&self) -> RecordView {
        RecordView {
            text: match self.text {
                Some(s) => Some(s@),
                None => None,
            },
            number: self.number,
            flags: match self.flags {
                Some(b) => Some(b@),
                None => None,
            },
        }
    }
}

/// The record with every field absent.
pub open spec fn empty_view() -> RecordView {
    RecordView { text: None, number: None, flags: None }
}

impl Default for Record {
    fn default() -> (r: Record)
        ensures
            r@ == empty_view(),
    {
        Record { text: None, number: None, flags: None }
    }
}

/// One field that holds a value, as it stands in the text.
#[derive(Debug, PartialEq, Eq)]
pub enum Field {
    Text(String),
    Number(i32),
    Flags(Vec<bool>),
}

/// The mathematical value of a `Field`.
pub enum FieldView {
    Text(Seq<char>),
    Number(i32),
    Flags(Seq<bool>),
}

impl View for Field {
    type V = FieldView;

    open spec fn view(&self) -> FieldView {
        match self {
            Field::Text(s) => FieldView::Text(s@),
            Field::Number(n) => FieldView::Number(*n),
            Field::Flags(b) => FieldView::Flags(b@),
        }
    }
}

/// The views of a list of fields.
pub open spec fn fields_view(fs: Seq<Field>) -> Seq<FieldView> {
    fs.map_values(|f: Field| f@)
}

/// The key of the text field.
pub open spec fn text_key() -> Seq<char> {
    seq!['t', 'e', 'x', 't']
}

/// The key of the number field.
pub open spec fn number_key() -> Seq<char> {
    seq!['n', 'u', 'm', 'b', 'e', 'r']
}

/// The key of the flags field.
pub open spec fn flags_key() -> Seq<char> {
    seq!['f', 'l', 'a', 'g', 's']
}

/// The key under which a field is written.
pub open spec fn key_of(f: FieldView) -> Seq<char> {
    match f {
        FieldView::Text(_) => text_key(),
        FieldView::Number(_) => number_key(),
        FieldView::Flags(_) => flags_key(),
    }
}

/// The fields of `r` that are not omitted, in declared order.
pub open spec fn kept_fields(r: Record) -> Seq<FieldView> {
    let t = if omits(r.text) {
        Seq::empty()
    } else {
        seq![FieldView::Text(r.text->Some_0@)]
    };
    let n = if omits(r.number) {
        Seq::empty()
    } else {
        seq![FieldView::Number(r.number->Some_0)]
    };
    let f = if omits(r.flags) {
        Seq::empty()
    } else {
        seq![FieldView::Flags(r.flags->Some_0@)]
    };
    t + n + f
}

/// `r` with one field set.
pub open spec fn with_field(r: RecordView, f: FieldView) -> RecordView {
    match f {
        FieldView::Text(s) => RecordView { text: Some(s), ..r },
        FieldView::Number(n) => RecordView { number: Some(n), ..r },
        FieldView::Flags(b) => RecordView { flags: Some(b), ..r },
    }
}

/// The record that a list of fields describes: every field starts absent,
/// and each field of the list sets its own, a later one over an earlier one.
pub open spec fn fields_record(fs: Seq<FieldView>) -> RecordView
    decreases fs.len(),
{
    if fs.len() == 0 {
        empty_view()
    } else {
        with_field(fields_record(fs.drop_last()), fs.last())
    }
}

impl Record {
    /// The fields that the record's text carries: those not omitted, in
    /// declared order.
    pub fn kept(&self) -> (fs: Vec<Field>)
        ensures
            fields_view(fs@) == kept_fields(*self),
    {
        let mut fs: Vec<Field> = Vec::new();
        if !is_none_or_default(&self.text) {
            match &self.text {
                Some(s) => fs.push(Field::Text(s.clone())),
                None => {},
            }
        }
        if !is_none_or_default(&self.number) {
            match &self.number {
                Some(n) => fs.push(Field::Number(*n)),
                None => {},
            }
        }
        if !is_none_or_default(&self.flags) {
            match &self.flags {
                Some(b) => {
                    let c = b.clone();
                    assert(c@ =~= b@);
                    fs.push(Field::Flags(c));
                },
                None => {},
            }
        }
        assert(fields_view(fs@) =~= kept_fields(*self));
        fs
    }

    /// The record that a list of fields describes (see `fields_record`).
    pub fn from_fields(fs: &Vec<Field>) -> (r: Record)
        ensures
            r@ == fields_record(fields_view(fs@)),
    {
        let mut r = Record { text: None, number: None, flags: None };
        let mut i: usize = 0;
        while i < fs.len()
            invariant
                i <= fs.len(),
                r@ == fields_record(fields_view(fs@).subrange(0, i as int)),
            decreases fs.len() - i,
        {
            let ghost before = fields_view(fs@).subrange(0, i as int);
            let ghost after = fields_view(fs@).subrange(0, i + 1);
            assert(after.drop_last() =~= before);
            match &fs[i] {
                Field::Text(s) => {
                    r.text = Some(s.clone());
                },
                Field::Number(n) => {
                    r.number = Some(*n);
                },
                Field::Flags(b) => {
                    let c = b.clone();
                    assert(c@ =~= b@);
                    r.flags = Some(c);
                },
            }
            i = i + 1;
        }
        assert(fields_view(fs@).subrange(0, fs.len() as int) =~= fields_view(fs@));
        r
    }
}

} // verus!
