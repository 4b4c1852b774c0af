use crate::text::str_eq;
use vstd::prelude::*;

verus! {

/// A JSON document, holding as plain values everything the flow reads:
/// integers in `i64` range, strings, arrays and string-keyed objects.
/// A number outside `i64` range is kept as `Other`, so that reading it as
/// an integer fails, exactly as it does on the raw document.
pub enum JsonDoc {
    Null,
    Bool(bool),
    Int(i64),
    Str(String),
    Arr(Vec<JsonDoc>),
    Obj(Vec<(String, JsonDoc)>),
    Other,
}

/// The value under `key` among `entries`, first match first, from
/// position `i` on.
pub open spec fn spec_get_from(entries: Seq<(String, JsonDoc)>, key: Seq<char>, i: int) -> Option<
    JsonDoc,
>
    decreases entries.len() - i,
{
    if i < 0 || i >= entries.len() {
        None
    } else if entries[i].0@ == key {
        Some(entries[i].1)
    } else {
        spec_get_from(entries, key, i + 1)
    }
}

impl JsonDoc {
    /// The value under `key` when this document is an object that has the
    /// key; `None` on every other document.
    pub open spec fn spec_get(self, key: Seq<char>) -> Option<JsonDoc> {
        match self {
            JsonDoc::Obj(entries) => spec_get_from(entries@, key, 0),
            _ => None,
        }
    }

    /// Field lookup on a document; `None` unless the document is an
    /// object with the key.
    pub fn get<'a>(&'a self, key: &str) -> (r: Option<&'a JsonDoc>)
        ensures
            match r {
                Some(d) => self.spec_get(key@) == Some(*d),
                None => self.spec_get(key@) is None,
            },
    {
        match self {
            JsonDoc::Obj(entries) => {
                let n = entries.len();
                let mut i: usize = 0;
                while i < n
                    invariant
                        n == entries@.len(),
                        0 <= i <= n,
                        self.spec_get(key@) == spec_get_from(entries@, key@, i as int),
                    decreases n - i,
                {
                    if str_eq(entries[i].0.as_str(), key) {
                        proof {
                            assert(spec_get_from(entries@, key@, i as int) == Some(
                                entries@[i as int].1,
                            ));
                        }
                        return Some(&entries[i].1);
                    }
                    i = i + 1;
                }
                None
            },
            _ => None,
        }
    }

    /// The string under `key`, or `default` when the key is absent or its
    /// value is not a string.
    pub fn str_field_or(&self, key: &str, default: &str) -> (r: String)
        ensures
            r@ == spec_str_field_or(*self, key@, default@),
    {
        match self.get(key) {
            Some(d) => match d {
                JsonDoc::Str(s) => s.clone(),
                _ => default.to_owned(),
            },
            None => default.to_owned(),
        }
    }

    /// The integer under `key`, or `None` when the key is absent or its
    /// value is not an integer.
    pub fn int_field(&self, key: &str) -> (r: Option<i64>)
        ensures
            r == spec_int_field(*self, key@),
    {
        match self.get(key) {
            Some(d) => match d {
                JsonDoc::Int(n) => Some(*n),
                _ => None,
            },
            None => None,
        }
    }
}

/// The string under `key` of `doc`, or `default`.
pub open spec fn spec_str_field_or(doc: JsonDoc, key: Seq<char>, default: Seq<char>) -> Seq<char> {
    match doc.spec_get(key) {
        Some(JsonDoc::Str(s)) => s@,
        _ => default,
    }
}

/// The integer under `key` of `doc`, when present as an integer.
pub open spec fn spec_int_field(doc: JsonDoc, key: Seq<char>) -> Option<i64> {
    match doc.spec_get(key) {
        Some(JsonDoc::Int(n)) => Some(n),
        _ => None,
    }
}

} // verus!
