//! The JSON documents the decoder works on, and the trusted boundary
//! that produces them from response text.
//!
//! The decoder never walks an outside parse tree: the body text is turned
//! once, behind [`parse_json`], into the crate's own [`JsonValue`], and
//! everything after that point is verified against the spec functions
//! below.

use vstd::prelude::*;

verus! {

/// A JSON document as the decoder sees it.
///
/// A number that fits `i64` is held as `Int`; any other number (a
/// decimal, or an integer out of range) is carried through as its
/// literal text, so a document is never rejected over a number in a
/// field the decoder does not read — in a consumed integer field it is
/// a type mismatch like any other.  Objects keep their fields as the
/// parser hands them out, duplicates already resolved.
#[derive(Debug)]
pub enum JsonValue {
    Null,
    Bool(bool),
    Int(i64),
    Decimal(String),
    Str(String),
    Arr(Vec<JsonValue>),
    Obj(Vec<(String, JsonValue)>),
}

/// First binding of a key in an object's field list.
pub open spec fn lookup(ps: Seq<(String, JsonValue)>, k: Seq<char>) -> Option<JsonValue>
    decreases ps.len(),
{
    if ps.len() == 0 {
        None
    } else if ps[0].0@ == k {
        Some(ps[0].1)
    } else {
        lookup(ps.drop_first(), k)
    }
}

/// The value under a key, when the document is an object holding it.
pub open spec fn field(j: JsonValue, k: Seq<char>) -> Option<JsonValue> {
    match j {
        JsonValue::Obj(ps) => lookup(ps@, k),
        _ => None,
    }
}

/// The characters under a key, when it holds a string.
pub open spec fn str_field(j: JsonValue, k: Seq<char>) -> Option<Seq<char>> {
    match field(j, k) {
        Some(JsonValue::Str(s)) => Some(s@),
        _ => None,
    }
}

/// The number under a key, when it holds one.
pub open spec fn int_field(j: JsonValue, k: Seq<char>) -> Option<int> {
    match field(j, k) {
        Some(JsonValue::Int(n)) => Some(n as int),
        _ => None,
    }
}

/// The elements under a key, when it holds an array.
pub open spec fn arr_field(j: JsonValue, k: Seq<char>) -> Option<Seq<JsonValue>> {
    match field(j, k) {
        Some(JsonValue::Arr(a)) => Some(a@),
        _ => None,
    }
}

impl JsonValue {
    /// Look a key up in this document, when it is an object.
    pub fn get<'a>(&'a self, k: &str) -> (r: Option<&'a JsonValue>)
        ensures
            match r {
                Some(v) => field(*self, k@) == Some(*v),
                None => field(*self, k@) is None,
            },
    {
        match self {
            JsonValue::Obj(ps) => {
                proof {
                    assert(ps@.skip(0) =~= ps@);
                }
                let mut i: usize = 0;
                while i < ps.len()
                    invariant
                        i <= ps@.len(),
                        lookup(ps@, k@) == lookup(ps@.skip(i as int), k@),
                        field(*self, k@) == lookup(ps@, k@),
                    decreases ps@.len() - i,
                {
                    proof {
                        assert(ps@.skip(i as int)[0] == ps@[i as int]);
                    }
                    if crate::query::str_eq(ps[i].0.as_str(), k) {
                        return Some(&ps[i].1);
                    }
                    proof {
                        assert(ps@.skip(i as int).drop_first() =~= ps@.skip(i as int + 1));
                    }
                    i = i + 1;
                }
                None
            },
            _ => None,
        }
    }

    /// Look a string field up.
    pub fn get_str<'a>(&'a self, k: &str) -> (r: Option<&'a String>)
        ensures
            match r {
                Some(s) => str_field(*self, k@) == Some(s@),
                None => str_field(*self, k@) is None,
            },
    {
        match self.get(k) {
            Some(JsonValue::Str(s)) => Some(s),
            _ => None,
        }
    }

    /// Look a numeric field up.
    pub fn get_int(&self, k: &str) -> (r: Option<i64>)
        ensures
            match r {
                Some(n) => int_field(*self, k@) == Some(n as int),
                None => int_field(*self, k@) is None,
            },
    {
        match self.get(k) {
            Some(JsonValue::Int(n)) => Some(*n),
            _ => None,
        }
    }

    /// Look an array field up.
    pub fn get_arr<'a>(&'a self, k: &str) -> (r: Option<&'a Vec<JsonValue>>)
        ensures
            match r {
                Some(a) => arr_field(*self, k@) == Some(a@),
                None => arr_field(*self, k@) is None,
            },
    {
        match self.get(k) {
            Some(JsonValue::Arr(a)) => Some(a),
            _ => None,
        }
    }
}

#[verifier::external_type_specification]
#[verifier::external_body]
pub struct ExSerdeValue(serde_json::Value);

/// The document a body text parses to, if any.  Parsing is a function of
/// the text alone: the same body always yields the same document, so the
/// result can be given this name.
pub uninterp spec fn json_of(s: Seq<char>) -> Option<JsonValue>;

/// Relies on the variants of `serde_json::Value`: rebuilds the parsed
/// document one-for-one in the crate's own type; a number outside `i64`
/// is kept as its literal text.
#[verifier::external_body]
fn from_serde(v: serde_json::Value) -> (r: JsonValue) {
    match v {
        serde_json::Value::Null => JsonValue::Null,
        serde_json::Value::Bool(b) => JsonValue::Bool(b),
        serde_json::Value::Number(n) => match n.as_i64() {
            Some(i) => JsonValue::Int(i),
            None => JsonValue::Decimal(n.to_string()),
        },
        serde_json::Value::String(s) => JsonValue::Str(s),
        serde_json::Value::Array(a) => JsonValue::Arr(a.into_iter().map(from_serde).collect()),
        serde_json::Value::Object(m) => JsonValue::Obj(m.into_iter().map(|(k, x)| (k, from_serde(x))).collect()),
    }
}

/// Relies on `serde_json::from_str`: whether a text is valid JSON, and
/// what document it denotes, depend on the text alone.
#[verifier::external_body]
pub(crate) fn parse_json(s: &str) -> (r: Option<JsonValue>)
    ensures
        r == json_of(s@),
{
    serde_json::from_str::<serde_json::Value>(s).ok().map(from_serde)
}

} // verus!
