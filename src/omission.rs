//! The omission predicate: a field is left out when it is absent or holds the
//! default value of its type.

use vstd::prelude::*;

verus! {

/// A type of field value that knows which of its values is the default one.
pub trait FieldValue: View + Sized {
    /// The view of the type's default value.
    spec fn default_view() -> Self::V;

    /// Whether this value equals the type's default value.
    fn is_default(&self) -> (r: bool)
        ensures
            r == (self@ == Self::default_view()),
    ;
}

impl FieldValue for String {
    /// The empty string.
    open spec fn default_view() -> Seq<char> {
        Seq::empty()
    }

    fn is_default(&self) -> (r: bool) {
        let r = self.as_str().is_empty();
        assert(r ==> self@ =~= Seq::<char>::empty());
        r
    }
}

impl FieldValue for i32 {
    /// Zero.
    open spec fn default_view() -> i32 {
        0
    }

    fn is_default(&self) -> (r: bool) {
        *self == 0
    }
}

impl FieldValue for Vec<bool> {
    /// The empty sequence.
    open spec fn default_view() -> Seq<bool> {
        Seq::empty()
    }

    fn is_default(&self) -> (r: bool) {
        let r = self.len() == 0;
        assert(r ==> self@ =~= Seq::<bool>::empty());
        r
    }
}

/// A field is omitted when it holds no value or holds its type's default.
pub open spec fn omits<T: FieldValue>(field: Option<T>) -> bool {
    match field {
        None => true,
        Some(v) => v@ == T::default_view(),
    }
}

/// Decides the omission predicate for one field.
pub fn is_none_or_default<T: FieldValue>(obj: &Option<T>) -> (r: bool)
    ensures
        r == omits(*obj),
        r <==> (obj is None || obj->Some_0@ == T::default_view()),
{
    match obj {
        Some(o) => o.is_default(),
        None => true,
    }
}

} // verus!
