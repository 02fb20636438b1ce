//! A library-owned JSON document tree, with the trusted parse boundary and
//! verified field accessors. The decoders read provider envelopes through
//! this type only.

use vstd::prelude::*;
use crate::errors::DecodeError;
use crate::strutil::str_eq;

verus! {

/// A parsed JSON document. Numbers that fit an `i64` are kept exactly; any
/// other number (too large, or not an integer) becomes `OtherNumber`, which
/// the decoding logic never needs to read.
#[derive(Debug)]
pub enum JsonValue {
    Null,
    Boolean(bool),
    Integer(i64),
    OtherNumber,
    Text(String),
    Array(Vec<JsonValue>),
    Object(Vec<(String, JsonValue)>),
}

#[verifier::external_type_specification]
#[verifier::external_body]
pub struct ExValue(serde_json::Value);

/// Names the document that `serde_json::from_str::<serde_json::Value>`
/// parses a text to: `Some(mirrored tree)` for valid JSON, `None` otherwise.
/// Parsing is deterministic, so the result is a function of the text alone.
pub uninterp spec fn json_of(s: Seq<char>) -> Option<JsonValue>;

/// Mirrors a `serde_json::Value` tree into the library's own `JsonValue`,
/// variant for variant; integer numbers go through
/// `serde_json::Number::as_i64`, anything else becomes `OtherNumber`. This
/// exists only so that `parse_json` can walk the outside tree recursively.
#[verifier::external_body]
fn json_tree(v: serde_json::Value) -> JsonValue {
    match v {
        serde_json::Value::Null => JsonValue::Null,
        serde_json::Value::Bool(b) => JsonValue::Boolean(b),
        serde_json::Value::Number(n) => match n.as_i64() {
            Some(i) => JsonValue::Integer(i),
            None => JsonValue::OtherNumber,
        },
        serde_json::Value::String(s) => JsonValue::Text(s),
        serde_json::Value::Array(a) => JsonValue::Array(a.into_iter().map(json_tree).collect()),
        serde_json::Value::Object(o) => JsonValue::Object(
            o.into_iter().map(|(k, x)| (k, json_tree(x))).collect(),
        ),
    }
}

/// Relies on `serde_json::from_str::<serde_json::Value>`: whether a text is
/// valid JSON, and the document it parses to, depend on the text alone; the
/// parsed tree is handed back mirrored into `JsonValue`, unchanged.
#[verifier::external_body]
pub(crate) fn parse_json(s: &str) -> (r: Result<JsonValue, DecodeError>)
    ensures
        match r {
            Ok(v) => json_of(s@) == Some(v),
            Err(e) => json_of(s@) is None && e == DecodeError::InvalidJson,
        },
{
    match serde_json::from_str::<serde_json::Value>(s) {
        Ok(v) => Ok(json_tree(v)),
        Err(_) => Err(DecodeError::InvalidJson),
    }
}

/// The first binding of `key` among an object's fields, if any. Mirrored
/// documents never repeat a key, but the definition does not depend on that.
pub open spec fn lookup_field(fields: Seq<(String, JsonValue)>, key: Seq<char>) -> Option<
    JsonValue,
>
    decreases fields.len(),
{
    if fields.len() == 0 {
        None
    } else if fields[0].0@ == key {
        Some(fields[0].1)
    } else {
        lookup_field(fields.drop_first(), key)
    }
}

/// Field access as the decoders use it: `None` when the value is not an
/// object or the key is absent.
pub open spec fn spec_get(v: JsonValue, key: Seq<char>) -> Option<JsonValue> {
    match v {
        JsonValue::Object(fields) => lookup_field(fields@, key),
        _ => None,
    }
}

pub open spec fn spec_text(v: JsonValue) -> Option<Seq<char>> {
    match v {
        JsonValue::Text(s) => Some(s@),
        _ => None,
    }
}

pub open spec fn spec_array(v: JsonValue) -> Option<Seq<JsonValue>> {
    match v {
        JsonValue::Array(a) => Some(a@),
        _ => None,
    }
}

pub open spec fn spec_object(v: JsonValue) -> Option<Seq<(String, JsonValue)>> {
    match v {
        JsonValue::Object(f) => Some(f@),
        _ => None,
    }
}

/// The string under `key`, if the value is an object, the key is bound, and
/// the binding is a string.
pub open spec fn spec_get_text(v: JsonValue, key: Seq<char>) -> Option<Seq<char>> {
    match spec_get(v, key) {
        Some(x) => spec_text(x),
        None => None,
    }
}

pub open spec fn spec_get_array(v: JsonValue, key: Seq<char>) -> Option<Seq<JsonValue>> {
    match spec_get(v, key) {
        Some(x) => spec_array(x),
        None => None,
    }
}

pub open spec fn spec_get_object(v: JsonValue, key: Seq<char>) -> Option<
    Seq<(String, JsonValue)>,
> {
    match spec_get(v, key) {
        Some(x) => spec_object(x),
        None => None,
    }
}

proof fn lemma_lookup_skip(fields: Seq<(String, JsonValue)>, key: Seq<char>, i: int)
    requires
        0 <= i <= fields.len(),
        forall|k: int| 0 <= k < i ==> fields[k].0@ != key,
    ensures
        lookup_field(fields, key) == lookup_field(fields.skip(i), key),
    decreases i,
{
    if i > 0 {
        lemma_lookup_skip(fields.drop_first(), key, i - 1);
        assert(fields.drop_first().skip(i - 1) =~= fields.skip(i));
    } else {
        assert(fields.skip(0) =~= fields);
    }
}

impl JsonValue {
    /// Look a key up in an object; `None` for a missing key or a non-object.
    pub fn get<'a>(&'a self, key: &str) -> (r: Option<&'a JsonValue>)
        ensures
            match r {
                Some(x) => spec_get(*self, key@) == Some(*x),
                None => spec_get(*self, key@) is None,
            },
    {
        match self {
            JsonValue::Object(fields) => {
                let n = fields.len();
                let mut i: usize = 0;
                while i < n
                    invariant
                        i <= n,
                        n == fields@.len(),
                        spec_get(*self, key@) == lookup_field(fields@, key@),
                        forall|k: int| 0 <= k < i ==> fields@[k].0@ != key@,
                    decreases n - i,
                {
                    if str_eq(fields[i].0.as_str(), key) {
                        proof {
                            lemma_lookup_skip(fields@, key@, i as int);
                            assert(fields@.skip(i as int)[0] == fields@[i as int]);
                        }
                        return Some(&fields[i].1);
                    }
                    i = i + 1;
                }
                proof {
                    lemma_lookup_skip(fields@, key@, n as int);
                    assert(fields@.skip(n as int) =~= Seq::<(String, JsonValue)>::empty());
                }
                None
            },
            _ => None,
        }
    }

    pub fn as_text(&self) -> (r: Option<&str>)
        ensures
            match r {
                Some(t) => spec_text(*self) == Some(t@),
                None => spec_text(*self) is None,
            },
    {
        match self {
            JsonValue::Text(s) => Some(s.as_str()),
            _ => None,
        }
    }

    pub fn as_array(&self) -> (r: Option<&Vec<JsonValue>>)
        ensures
            match r {
                Some(a) => spec_array(*self) == Some(a@),
                None => spec_array(*self) is None,
            },
    {
        match self {
            JsonValue::Array(a) => Some(a),
            _ => None,
        }
    }

    /// The string under `key`, as `envelope["key"].as_str()` reads it.
    pub fn get_text<'a>(&'a self, key: &str) -> (r: Option<&'a str>)
        ensures
            match r {
                Some(t) => spec_get_text(*self, key@) == Some(t@),
                None => spec_get_text(*self, key@) is None,
            },
    {
        match self.get(key) {
            Some(x) => x.as_text(),
            None => None,
        }
    }

    pub fn get_array<'a>(&'a self, key: &str) -> (r: Option<&'a Vec<JsonValue>>)
        ensures
            match r {
                Some(a) => spec_get_array(*self, key@) == Some(a@),
                None => spec_get_array(*self, key@) is None,
            },
    {
        match self.get(key) {
            Some(x) => x.as_array(),
            None => None,
        }
    }

    pub fn get_object<'a>(&'a self, key: &str) -> (r: Option<&'a Vec<(String, JsonValue)>>)
        ensures
            match r {
                Some(f) => spec_get_object(*self, key@) == Some(f@),
                None => spec_get_object(*self, key@) is None,
            },
    {
        match self.get(key) {
            Some(x) => match x {
                JsonValue::Object(f) => Some(f),
                _ => None,
            },
            None => None,
        }
    }
}

} // verus!
