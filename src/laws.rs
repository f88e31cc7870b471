//! Laws that relate the omission predicate, the fields a record's text
//! carries, and the record read back from them.

use crate::json::{object_text, serialized};
use crate::omission::omits;
use crate::record::{fields_record, flags_key, kept_fields, key_of, number_key, text_key, Record};
use vstd::prelude::*;

verus! {

/// Omission on the three field types: a field is omitted exactly when it is
/// absent or holds the empty string, zero, or the empty list; a present
/// value other than these is never omitted.
pub proof fn lemma_omission_by_type(t: Option<String>, n: Option<i32>, f: Option<Vec<bool>>)
    ensures
        omits(t) <==> (t is None || t->Some_0@.len() == 0),
        omits(n) <==> (n is None || n->Some_0 == 0),
        omits(f) <==> (f is None || f->Some_0@.len() == 0),
{
    if t is Some && t->Some_0@.len() == 0 {
        assert(t->Some_0@ =~= Seq::<char>::empty());
    }
    if f is Some && f->Some_0@.len() == 0 {
        assert(f->Some_0@ =~= Seq::<bool>::empty());
    }
}

/// Two records with the same value have the same text.
pub proof fn lemma_serialization_deterministic(a: Record, b: Record)
    requires
        a@ == b@,
    ensures
        serialized(a) == serialized(b),
{
    assert(kept_fields(a) =~= kept_fields(b));
}

/// The text of a record is the object of its kept fields, and a field's key
/// is among them exactly when the field is not omitted.
pub proof fn lemma_keys_follow_omission(r: Record)
    ensures
        serialized(r) == object_text(kept_fields(r)),
        (exists|i: int| 0 <= i < kept_fields(r).len() && key_of(kept_fields(r)[i]) == text_key())
            <==> !omits(r.text),
        (exists|i: int| 0 <= i < kept_fields(r).len() && key_of(kept_fields(r)[i]) == number_key())
            <==> !omits(r.number),
        (exists|i: int| 0 <= i < kept_fields(r).len() && key_of(kept_fields(r)[i]) == flags_key())
            <==> !omits(r.flags),
{
    let ks = kept_fields(r);
    assert(text_key() != number_key());
    assert(text_key() != flags_key());
    assert(number_key() != flags_key());
    if !omits(r.text) {
        assert(key_of(ks[0]) == text_key());
    }
    if !omits(r.number) {
        let i: int = if omits(r.text) { 0 } else { 1 };
        assert(key_of(ks[i]) == number_key());
    }
    if !omits(r.flags) {
        assert(key_of(ks[ks.len() - 1]) == flags_key());
    }
}

/// Reading back the fields that a record's text carries gives every omitted
/// field as absent and every other field unchanged; so a record none of
/// whose present fields holds a default comes back whole.
pub proof fn lemma_round_trip_through_fields(r: Record)
    ensures
        fields_record(kept_fields(r)).text == (if omits(r.text) { None } else { r@.text }),
        fields_record(kept_fields(r)).number == (if omits(r.number) { None } else { r@.number }),
        fields_record(kept_fields(r)).flags == (if omits(r.flags) { None } else { r@.flags }),
        (omits(r.text) ==> r.text is None) && (omits(r.number) ==> r.number is None) && (omits(
            r.flags,
        ) ==> r.flags is None) ==> fields_record(kept_fields(r)) == r@,
{
    reveal_with_fuel(fields_record, 4);
    let ks = kept_fields(r);
    if ks.len() > 0 {
        assert(ks.drop_last().len() + 1 == ks.len());
    }
    if ks.len() > 1 {
        assert(ks.drop_last().drop_last().len() + 2 == ks.len());
    }
}

} // verus!
