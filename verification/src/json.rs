//! JSON values as the service's store hands them over: null, booleans, numbers,
//! strings, arrays and objects whose fields keep the order in which they came.
use crate::text::str_equal;
use vstd::prelude::*;

verus! {

/// A JSON number: a non-negative integer, a negative integer, or any other
/// number held as its decimal text.
pub enum JsonNumber {
    PosInt(u64),
    NegInt(i64),
    Decimal(String),
}

/// A JSON value. As serde_json holds one, every object has strictly
/// increasing keys (`wf`); the functions here are defined for any value.
pub enum JsonValue {
    Null,
    Bool(bool),
    Number(JsonNumber),
    String(String),
    Array(Vec<JsonValue>),
    Object(Vec<(String, JsonValue)>),
}

/// The value of the first field of `fields` named `key`, if any.
pub open spec fn lookup(fields: Seq<(String, JsonValue)>, key: Seq<char>) -> Option<JsonValue>
    decreases fields.len(),
{
    if fields.len() == 0 {
        None
    } else if fields[0].0@ == key {
        Some(fields[0].1)
    } else {
        lookup(fields.drop_first(), key)
    }
}

/// Whether the key `a` sorts before the key `b`, character by character
/// (the order of Rust's `String`, which serde_json's maps keep).
pub open spec fn key_lt(a: Seq<char>, b: Seq<char>) -> bool
    decreases a.len(),
{
    if a.len() == 0 {
        b.len() > 0
    } else if b.len() == 0 {
        false
    } else if a[0] != b[0] {
        a[0] < b[0]
    } else {
        key_lt(a.drop_first(), b.drop_first())
    }
}

/// Whether the keys of `fields` strictly increase, so no key occurs twice.
pub open spec fn keys_sorted(fields: Seq<(String, JsonValue)>) -> bool {
    forall|i: int, j: int|
        0 <= i < j < fields.len() ==> key_lt(#[trigger] fields[i].0@, #[trigger] fields[j].0@)
}

/// No key sorts before itself.
pub proof fn lemma_key_lt_irreflexive(a: Seq<char>)
    ensures
        !key_lt(a, a),
    decreases a.len(),
{
    if a.len() > 0 {
        lemma_key_lt_irreflexive(a.drop_first());
    }
}

/// In fields with sorted keys, looking up the key of field `i` finds field `i`.
pub proof fn lemma_sorted_lookup(fields: Seq<(String, JsonValue)>, i: int)
    requires
        keys_sorted(fields),
        0 <= i < fields.len(),
    ensures
        lookup(fields, fields[i].0@) == Some(fields[i].1),
    decreases i,
{
    if i > 0 {
        let rest = fields.drop_first();
        assert(key_lt(fields[0].0@, fields[i].0@));
        lemma_key_lt_irreflexive(fields[i].0@);
        assert(fields[0].0@ != fields[i].0@);
        assert forall|a: int, b: int| 0 <= a < b < rest.len() implies key_lt(
            #[trigger] rest[a].0@,
            #[trigger] rest[b].0@,
        ) by {
            assert(rest[a] == fields[a + 1] && rest[b] == fields[b + 1]);
        }
        assert(rest[i - 1] == fields[i]);
        lemma_sorted_lookup(rest, i - 1);
    }
}

impl JsonValue {
    /// Whether this value is as serde_json holds one: in every object,
    /// nested ones too, the keys strictly increase.
    pub open spec fn wf(&self) -> bool
        decreases self,
    {
        match self {
            JsonValue::Array(items) => forall|i: int|
                0 <= i < items@.len() ==> (#[trigger] items@[i]).wf(),
            JsonValue::Object(fields) => keys_sorted(fields@) && forall|i: int|
                0 <= i < fields@.len() ==> (#[trigger] fields@[i]).1.wf(),
            _ => true,
        }
    }

    /// The field `key` of an object; `None` for a missing field or a value that
    /// is no object.
    pub open spec fn spec_get(&self, key: Seq<char>) -> Option<JsonValue> {
        match self {
            JsonValue::Object(fields) => lookup(fields@, key),
            _ => None,
        }
    }

    /// The text of a string value; `None` for any other value.
    pub open spec fn spec_as_str(&self) -> Option<Seq<char>> {
        match self {
            JsonValue::String(s) => Some(s@),
            _ => None,
        }
    }

    /// Looks up the field `key` of an object.
    pub fn get(&self, key: &str) -> (res: Option<&JsonValue>)
        ensures
            match self.spec_get(key@) {
                Some(v) => res == Some(&v),
                None => res is None,
            },
    {
        match self {
            JsonValue::Object(fields) => {
                let mut i: usize = 0;
                assert(fields@.skip(0) =~= fields@);
                while i < fields.len()
                    invariant
                        i <= fields@.len(),
                        self.spec_get(key@) == lookup(fields@, key@),
                        lookup(fields@, key@) == lookup(fields@.skip(i as int), key@),
                    decreases fields@.len() - i,
                {
                    assert(fields@.skip(i as int).drop_first() =~= fields@.skip(i + 1));
                    assert(fields@.skip(i as int)[0] == fields@[i as int]);
                    if str_equal(fields[i].0.as_str(), key) {
                        return Some(&fields[i].1);
                    }
                    i = i + 1;
                }
                None
            },
            _ => None,
        }
    }

    /// The text of a string value.
    pub fn as_str(&self) -> (res: Option<&str>)
        ensures
            match self.spec_as_str() {
                Some(s) => res matches Some(r) && r@ == s,
                None => res is None,
            },
    {
        match self {
            JsonValue::String(s) => Some(s.as_str()),
            _ => None,
        }
    }
}

} // verus!
