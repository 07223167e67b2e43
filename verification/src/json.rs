//! A JSON document model: the values that JSON-RPC requests, responses and
//! notifications carry.

use vstd::prelude::*;

use crate::text::same_text;

verus! {

/// A JSON number, kept in the three shapes a JSON number can take:
/// a non-negative integer, a negative integer, or a binary64 float held by
/// its IEEE-754 bit pattern.
#[derive(Clone, Copy, Debug, PartialEq, Eq, Structural)]
pub enum JsonNumber {
    /// A non-negative integer.
    PosInt(u64),
    /// A negative integer (always below zero).
    NegInt(i64),
    /// A floating-point number, stored as its IEEE-754 bits.
    FloatBits(u64),
}

/// A JSON value.
#[derive(Debug, PartialEq)]
pub enum JsonValue {
    /// `null`
    Null,
    /// `true` / `false`
    Bool(bool),
    /// A number
    Number(JsonNumber),
    /// A string
    String(String),
    /// An array
    Array(Vec<JsonValue>),
    /// An object, as its key/value pairs in order
    Object(Vec<(String, JsonValue)>),
}

/// `a` and `b` hold the same JSON document: scalars are equal, strings
/// have the same text, and arrays and objects agree entry by entry.
pub open spec fn json_eq(a: JsonValue, b: JsonValue) -> bool
    decreases a,
{
    match (a, b) {
        (JsonValue::String(x), JsonValue::String(y)) => x@ == y@,
        (JsonValue::Array(xs), JsonValue::Array(ys)) => json_eq_items(xs@, ys@),
        (JsonValue::Object(xs), JsonValue::Object(ys)) => json_eq_fields(xs@, ys@),
        (JsonValue::String(_), _) => false,
        (JsonValue::Array(_), _) => false,
        (JsonValue::Object(_), _) => false,
        _ => a == b,
    }
}

/// Two arrays hold the same documents in the same order.
pub open spec fn json_eq_items(xs: Seq<JsonValue>, ys: Seq<JsonValue>) -> bool
    decreases xs,
{
    if xs.len() == 0 {
        ys.len() == 0
    } else {
        &&& ys.len() == xs.len()
        &&& json_eq_items(xs.drop_last(), ys.drop_last())
        &&& json_eq(xs.last(), ys.last())
    }
}

/// Two objects hold the same keys and documents in the same order.
pub open spec fn json_eq_fields(xs: Seq<(String, JsonValue)>, ys: Seq<(String, JsonValue)>) -> bool
    decreases xs,
{
    if xs.len() == 0 {
        ys.len() == 0
    } else {
        &&& ys.len() == xs.len()
        &&& json_eq_fields(xs.drop_last(), ys.drop_last())
        &&& xs.last().0@ == ys.last().0@
        &&& json_eq(xs.last().1, ys.last().1)
    }
}

/// The value of the first entry of `fields` whose key is `key`.
pub open spec fn field_value(fields: Seq<(String, JsonValue)>, key: Seq<char>) -> Option<JsonValue>
    decreases fields.len(),
{
    if fields.len() == 0 {
        None
    } else if fields[0].0@ == key {
        Some(fields[0].1)
    } else {
        field_value(fields.drop_first(), key)
    }
}

/// What indexing a document by an object key gives: the value of the first
/// entry with that key, or nothing when the document is not an object.
pub open spec fn member(v: JsonValue, key: Seq<char>) -> Option<JsonValue> {
    match v {
        JsonValue::Object(fields) => field_value(fields@, key),
        _ => None,
    }
}

/// The text of a string document.
pub open spec fn text_of(v: JsonValue) -> Option<Seq<char>> {
    match v {
        JsonValue::String(s) => Some(s@),
        _ => None,
    }
}

/// The integer of a number document that fits in `u64`.
pub open spec fn u64_of(v: JsonValue) -> Option<u64> {
    match v {
        JsonValue::Number(JsonNumber::PosInt(n)) => Some(n),
        _ => None,
    }
}

/// The value of a boolean document.
pub open spec fn bool_of(v: JsonValue) -> Option<bool> {
    match v {
        JsonValue::Bool(b) => Some(b),
        _ => None,
    }
}

/// The texts of an array document all of whose items are strings.
pub open spec fn string_items(v: JsonValue) -> Option<Seq<Seq<char>>> {
    match v {
        JsonValue::Array(items) => if forall|i: int|
            0 <= i < items@.len() ==> (#[trigger] items@[i]) is String {
            Some(items@.map_values(|x: JsonValue| text_of(x)->0))
        } else {
            None
        },
        _ => None,
    }
}

/// The document is an object with exactly the given keys in order, each
/// holding the given document.
pub open spec fn is_object_of(v: JsonValue, entries: Seq<(Seq<char>, JsonValue)>) -> bool {
    match v {
        JsonValue::Object(fields) => {
            &&& fields@.len() == entries.len()
            &&& forall|i: int|
                0 <= i < entries.len() ==> {
                    &&& (#[trigger] fields@[i]).0@ == entries[i].0
                    &&& json_eq(fields@[i].1, entries[i].1)
                }
        },
        _ => false,
    }
}

impl JsonNumber {
    /// The number as a `u64`, when it is a non-negative integer.
    pub fn as_u64(&self) -> (r: Option<u64>)
        ensures
            r == (match *self {
                JsonNumber::PosInt(n) => Some(n),
                _ => None::<u64>,
            }),
    {
        match self {
            JsonNumber::PosInt(n) => Some(*n),
            _ => None,
        }
    }
}

impl JsonValue {
    /// A string document holding `s`.
    pub fn from_str(s: &str) -> (r: JsonValue)
        ensures
            text_of(r) == Some(s@),
    {
        let mut t = String::new();
        t.append(s);
        JsonValue::String(t)
    }

    /// A number document holding `n`.
    pub fn from_u64(n: u64) -> (r: JsonValue)
        ensures
            r == JsonValue::Number(JsonNumber::PosInt(n)),
    {
        JsonValue::Number(JsonNumber::PosInt(n))
    }

    /// An empty object.
    pub fn empty_object() -> (r: JsonValue)
        ensures
            is_object_of(r, seq![]),
    {
        JsonValue::Object(Vec::new())
    }

    /// A copy of this document.
    pub fn deep_clone(&self) -> (r: JsonValue)
        ensures
            json_eq(*self, r),
        decreases self,
    {
        match self {
            JsonValue::Null => JsonValue::Null,
            JsonValue::Bool(b) => JsonValue::Bool(*b),
            JsonValue::Number(n) => JsonValue::Number(*n),
            JsonValue::String(s) => JsonValue::String(s.clone()),
            JsonValue::Array(items) => {
                let mut out: Vec<JsonValue> = Vec::new();
                let mut i: usize = 0;
                while i < items.len()
                    invariant
                        *self == JsonValue::Array(*items),
                        i <= items@.len(),
                        out@.len() == i,
                        json_eq_items(items@.subrange(0, i as int), out@),
                    decreases items@.len() - i,
                {
                    proof {
                        vstd::std_specs::vec::axiom_vec_index_decreases(*items, i as int);
                        assert(decreases_to!(*self => self->Array_0));
                    }
                    let c = items[i].deep_clone();
                    let ghost before = out@;
                    out.push(c);
                    assert(items@.subrange(0, i + 1).drop_last() =~= items@.subrange(0, i as int));
                    assert(out@.drop_last() =~= before);
                    i = i + 1;
                }
                assert(items@.subrange(0, items@.len() as int) =~= items@);
                JsonValue::Array(out)
            },
            JsonValue::Object(fields) => {
                let mut out: Vec<(String, JsonValue)> = Vec::new();
                let mut i: usize = 0;
                while i < fields.len()
                    invariant
                        *self == JsonValue::Object(*fields),
                        i <= fields@.len(),
                        out@.len() == i,
                        json_eq_fields(fields@.subrange(0, i as int), out@),
                    decreases fields@.len() - i,
                {
                    proof {
                        vstd::std_specs::vec::axiom_vec_index_decreases(*fields, i as int);
                        assert(decreases_to!(*self => self->Object_0));
                        assert(decreases_to!(fields[i as int] => fields[i as int].1));
                    }
                    let k = fields[i].0.clone();
                    let c = fields[i].1.deep_clone();
                    let ghost before = out@;
                    out.push((k, c));
                    assert(fields@.subrange(0, i + 1).drop_last() =~= fields@.subrange(
                        0,
                        i as int,
                    ));
                    assert(out@.drop_last() =~= before);
                    i = i + 1;
                }
                assert(fields@.subrange(0, fields@.len() as int) =~= fields@);
                JsonValue::Object(out)
            },
        }
    }

    /// The value under `key` when this document is an object.
    pub fn get(&self, key: &str) -> (r: Option<&JsonValue>)
        ensures
            match r {
                Some(v) => member(*self, key@) == Some(*v),
                None => member(*self, key@) is None,
            },
    {
        match self {
            JsonValue::Object(fields) => {
                let mut i: usize = 0;
                assert(fields@.subrange(0, fields@.len() as int) =~= fields@);
                while i < fields.len()
                    invariant
                        *self == JsonValue::Object(*fields),
                        i <= fields@.len(),
                        field_value(fields@, key@) == field_value(fields@.subrange(i as int, fields@.len() as int), key@),
                    decreases fields@.len() - i,
                {
                    let ghost rest = fields@.subrange(i as int, fields@.len() as int);
                    assert(rest.drop_first() =~= fields@.subrange(i + 1, fields@.len() as int));
                    assert(rest[0] == fields@[i as int]);
                    if same_text(fields[i].0.as_str(), key) {
                        assert(field_value(rest, key@) == Some(rest[0].1));
                        assert(member(*self, key@) == field_value(fields@, key@));
                        return Some(&fields[i].1);
                    }
                    i = i + 1;
                }
                None
            },
            _ => None,
        }
    }

    /// The text of a string document.
    pub fn as_str(&self) -> (r: Option<&String>)
        ensures
            match r {
                Some(s) => text_of(*self) == Some(s@),
                None => text_of(*self) is None,
            },
    {
        match self {
            JsonValue::String(s) => Some(s),
            _ => None,
        }
    }

    /// The integer of a non-negative integer document.
    pub fn as_u64(&self) -> (r: Option<u64>)
        ensures
            r == u64_of(*self),
    {
        match self {
            JsonValue::Number(n) => n.as_u64(),
            _ => None,
        }
    }

    /// The value of a boolean document.
    pub fn as_bool(&self) -> (r: Option<bool>)
        ensures
            r == bool_of(*self),
    {
        match self {
            JsonValue::Bool(b) => Some(*b),
            _ => None,
        }
    }
}

} // verus!

verus! {

/// `v` is the string `t`.
pub open spec fn is_text(v: JsonValue, t: Seq<char>) -> bool {
    v matches JsonValue::String(s) && s@ == t
}

/// The object entries `f` have, in order, the keys and string values of
/// `entries`.
pub open spec fn text_fields(f: Seq<(String, JsonValue)>, entries: Seq<(Seq<char>, Seq<char>)>) -> bool {
    &&& f.len() == entries.len()
    &&& forall|i: int|
        0 <= i < entries.len() ==> (#[trigger] f[i]).0@ == entries[i].0 && is_text(f[i].1, entries[i].1)
}

/// `v` is an object whose entries are, in order, the keys and string values
/// of `entries`.
pub open spec fn text_object(v: JsonValue, entries: Seq<(Seq<char>, Seq<char>)>) -> bool {
    v matches JsonValue::Object(f) && text_fields(f@, entries)
}

/// One entry `key: text` when the text is present, none otherwise.
pub open spec fn opt_text_entry(key: Seq<char>, text: Option<Seq<char>>) -> Seq<(Seq<char>, Seq<char>)> {
    match text {
        Some(t) => seq![(key, t)],
        None => seq![],
    }
}

/// Appends the entry `key: value` (a string) to an object's entries.
pub fn push_text_field(fields: &mut Vec<(String, JsonValue)>, key: &str, value: &str)
    ensures
        final(fields)@.len() == old(fields)@.len() + 1,
        final(fields)@.subrange(0, old(fields)@.len() as int) == old(fields)@,
        final(fields)@.last().0@ == key@,
        is_text(final(fields)@.last().1, value@),
        forall|entries: Seq<(Seq<char>, Seq<char>)>|
            text_fields(old(fields)@, entries) ==> #[trigger] text_fields(
                final(fields)@,
                entries.push((key@, value@)),
            ),
{
    let ghost before = fields@;
    let mut k = String::new();
    k.append(key);
    fields.push((k, JsonValue::from_str(value)));
    assert(fields@.subrange(0, before.len() as int) =~= before);
    assert forall|entries: Seq<(Seq<char>, Seq<char>)>| text_fields(before, entries) implies #[trigger] text_fields(
        fields@,
        entries.push((key@, value@)),
    ) by {
        assert forall|i: int| 0 <= i < entries.len() + 1 implies (#[trigger] fields@[i]).0@ == entries.push(
            (key@, value@),
        )[i].0 && is_text(fields@[i].1, entries.push((key@, value@))[i].1) by {
            if i < entries.len() {
                assert(fields@[i] == before[i]);
            }
        }
    }
}

} // verus!
