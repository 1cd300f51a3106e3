//! A JSON document model.
//!
//! Raw bytes are parsed by serde_json behind a trusted wrapper; everything
//! that reads the parsed document afterwards is verified against the
//! `JsonView` ghost shape.

use vstd::prelude::*;
use crate::strutil::{str_eq, parse_i64, parse_i64_spec, parse_u64, parse_u64_spec};

verus! {

/// A parsed JSON document. Numbers keep their decimal rendering; the record
/// decoders parse the ones they need as integers and refuse the rest, so a
/// numeric field never coerces silently.
pub enum JsonValue {
    Null,
    Bool(bool),
    /// A number, as serde_json renders it (plain decimal for integers).
    Num(String),
    Str(String),
    Array(Vec<JsonValue>),
    /// Key/value pairs; serde_json hands objects over with unique keys.
    Object(Vec<(String, JsonValue)>),
}

/// The ghost shape of a JSON document.
pub enum JsonView {
    Null,
    Bool(bool),
    Num(Seq<char>),
    Str(Seq<char>),
    Array(Seq<JsonView>),
    Object(Seq<(Seq<char>, JsonView)>),
}

/// The ghost shape of an array's elements.
pub open spec fn arr_deep(a: Seq<JsonValue>) -> Seq<JsonView>
    decreases a,
{
    Seq::new(
        a.len(),
        |i: int|
            if 0 <= i < a.len() {
                a[i].deep()
            } else {
                JsonView::Null
            },
    )
}

/// The ghost shape of an object's pairs.
pub open spec fn obj_deep(o: Seq<(String, JsonValue)>) -> Seq<(Seq<char>, JsonView)>
    decreases o,
{
    Seq::new(
        o.len(),
        |i: int|
            if 0 <= i < o.len() {
                (o[i].0@, o[i].1.deep())
            } else {
                (Seq::<char>::empty(), JsonView::Null)
            },
    )
}

impl JsonValue {
    /// The ghost shape of this document.
    pub open spec fn deep(self) -> JsonView
        decreases self,
    {
        match self {
            JsonValue::Null => JsonView::Null,
            JsonValue::Bool(b) => JsonView::Bool(b),
            JsonValue::Num(s) => JsonView::Num(s@),
            JsonValue::Str(s) => JsonView::Str(s@),
            JsonValue::Array(a) => JsonView::Array(arr_deep(a@)),
            JsonValue::Object(o) => JsonView::Object(obj_deep(o@)),
        }
    }
}

#[verifier::external_type_specification]
#[verifier::external_body]
pub struct ExSerdeValue(serde_json::Value);

/// What parsing raw bytes as one JSON document yields; `None` on input that
/// is not a single well-formed document.
pub uninterp spec fn json_parse(b: Seq<u8>) -> Option<JsonView>;

/// Relies on the variants of serde_json::Value: carries a parsed document
/// over into the library's own model, variant for variant. Numbers come over
/// as serde_json renders them.
#[verifier::external_body]
fn from_serde_value(v: serde_json::Value) -> JsonValue {
    match v {
        serde_json::Value::Null => JsonValue::Null,
        serde_json::Value::Bool(b) => JsonValue::Bool(b),
        serde_json::Value::Number(n) => JsonValue::Num(n.to_string()),
        serde_json::Value::String(s) => JsonValue::Str(s),
        serde_json::Value::Array(a) => JsonValue::Array(
            a.into_iter().map(from_serde_value).collect(),
        ),
        serde_json::Value::Object(o) => JsonValue::Object(
            o.into_iter().map(|e| (e.0, from_serde_value(e.1))).collect(),
        ),
    }
}

/// Relies on serde_json::from_slice for serde_json::Value: parses exactly
/// one JSON document from raw bytes, failing on malformed input.
#[verifier::external_body]
pub(crate) fn parse_json(b: &[u8]) -> (r: Result<JsonValue, String>)
    ensures
        r matches Ok(j) ==> json_parse(b@) == Some(j.deep()),
        r is Err ==> json_parse(b@) is None,
{
    match serde_json::from_slice::<serde_json::Value>(b) {
        Ok(v) => Ok(from_serde_value(v)),
        Err(e) => Err(e.to_string()),
    }
}

/// First value under `key` among an object's pairs.
pub open spec fn spec_get(o: Seq<(Seq<char>, JsonView)>, key: Seq<char>) -> Option<JsonView>
    decreases o.len(),
{
    if o.len() == 0 {
        None
    } else if o[0].0 == key {
        Some(o[0].1)
    } else {
        spec_get(o.skip(1), key)
    }
}

/// Look a key up in an object's pairs.
pub fn json_get<'a>(o: &'a Vec<(String, JsonValue)>, key: &str) -> (r: Option<&'a JsonValue>)
    ensures
        match r {
            Some(v) => spec_get(obj_deep(o@), key@) == Some(v.deep()),
            None => spec_get(obj_deep(o@), key@) is None,
        },
{
    let ghost full = obj_deep(o@);
    proof {
        assert(full.skip(0) =~= full);
    }
    let mut i: usize = 0;
    while i < o.len()
        invariant
            0 <= i <= o.len(),
            full == obj_deep(o@),
            full.len() == o@.len(),
            spec_get(full, key@) == spec_get(full.skip(i as int), key@),
        decreases o.len() - i,
    {
        if str_eq(o[i].0.as_str(), key) {
            proof {
                assert(full.skip(i as int)[0] == full[i as int]);
            }
            return Some(&o[i].1);
        }
        proof {
            assert(full.skip(i as int)[0] == full[i as int]);
            assert(full.skip(i as int).skip(1) =~= full.skip(i + 1));
        }
        i = i + 1;
    }
    proof {
        assert(full.skip(i as int) =~= Seq::<(Seq<char>, JsonView)>::empty());
    }
    None
}

// Field readers with the decoder's defaulting rule: a missing field takes the
// field type's zero value; a present field of the wrong shape is a refusal.
/// A string field: missing means empty.
pub open spec fn spec_str_field(o: Seq<(Seq<char>, JsonView)>, key: Seq<char>) -> Option<
    Seq<char>,
> {
    match spec_get(o, key) {
        None => Some(Seq::<char>::empty()),
        Some(JsonView::Str(s)) => Some(s),
        Some(_) => None,
    }
}

pub fn json_str_field(o: &Vec<(String, JsonValue)>, key: &str) -> (r: Option<String>)
    ensures
        match r {
            Some(s) => spec_str_field(obj_deep(o@), key@) == Some(s@),
            None => spec_str_field(obj_deep(o@), key@) is None,
        },
{
    match json_get(o, key) {
        None => Some(String::new()),
        Some(JsonValue::Str(s)) => Some(s.clone()),
        Some(_) => None,
    }
}

/// A string field that the shape requires: missing is a refusal.
pub open spec fn spec_req_str_field(o: Seq<(Seq<char>, JsonView)>, key: Seq<char>) -> Option<
    Seq<char>,
> {
    match spec_get(o, key) {
        Some(JsonView::Str(s)) => Some(s),
        _ => None,
    }
}

pub fn json_req_str_field(o: &Vec<(String, JsonValue)>, key: &str) -> (r: Option<String>)
    ensures
        match r {
            Some(s) => spec_req_str_field(obj_deep(o@), key@) == Some(s@),
            None => spec_req_str_field(obj_deep(o@), key@) is None,
        },
{
    match json_get(o, key) {
        Some(JsonValue::Str(s)) => Some(s.clone()),
        _ => None,
    }
}

/// A port-sized unsigned field that the shape requires: missing, fractional
/// or out-of-range numbers are refusals.
pub open spec fn spec_req_u16_field(o: Seq<(Seq<char>, JsonView)>, key: Seq<char>) -> Option<u16> {
    match spec_get(o, key) {
        Some(JsonView::Num(s)) => match parse_u64_spec(s) {
            Some(v) => if v <= u16::MAX as u64 {
                Some(v as u16)
            } else {
                None
            },
            None => None,
        },
        _ => None,
    }
}

pub fn json_req_u16_field(o: &Vec<(String, JsonValue)>, key: &str) -> (r: Option<u16>)
    ensures
        match r {
            Some(n) => spec_req_u16_field(obj_deep(o@), key@) == Some(n),
            None => spec_req_u16_field(obj_deep(o@), key@) is None,
        },
{
    match json_get(o, key) {
        Some(JsonValue::Num(s)) => match parse_u64(s.as_str()) {
            Some(v) => if v <= 65535 {
                Some(v as u16)
            } else {
                None
            },
            None => None,
        },
        _ => None,
    }
}

/// A string-array field that the shape requires: missing is a refusal.
pub open spec fn spec_req_str_array_field(o: Seq<(Seq<char>, JsonView)>, key: Seq<char>) -> Option<
    Seq<Seq<char>>,
> {
    match spec_get(o, key) {
        Some(JsonView::Array(a)) => spec_str_array(a),
        _ => None,
    }
}

pub fn json_req_str_array_field(o: &Vec<(String, JsonValue)>, key: &str) -> (r: Option<
    Vec<String>,
>)
    ensures
        match r {
            Some(v) => spec_req_str_array_field(obj_deep(o@), key@) == Some(v.deep_view()),
            None => spec_req_str_array_field(obj_deep(o@), key@) is None,
        },
{
    match json_get(o, key) {
        Some(JsonValue::Array(a)) => json_str_array(a),
        _ => None,
    }
}

/// A boolean field: missing means false.
pub open spec fn spec_bool_field(o: Seq<(Seq<char>, JsonView)>, key: Seq<char>) -> Option<bool> {
    match spec_get(o, key) {
        None => Some(false),
        Some(JsonView::Bool(b)) => Some(b),
        Some(_) => None,
    }
}

pub fn json_bool_field(o: &Vec<(String, JsonValue)>, key: &str) -> (r: Option<bool>)
    ensures
        match r {
            Some(b) => spec_bool_field(obj_deep(o@), key@) == Some(b),
            None => spec_bool_field(obj_deep(o@), key@) is None,
        },
{
    match json_get(o, key) {
        None => Some(false),
        Some(JsonValue::Bool(b)) => Some(*b),
        Some(_) => None,
    }
}

/// A signed integer field: missing means zero; a number that is not a plain
/// in-range integer (a fraction, an exponent) is a refusal, never coerced.
pub open spec fn spec_i64_field(o: Seq<(Seq<char>, JsonView)>, key: Seq<char>) -> Option<i64> {
    match spec_get(o, key) {
        None => Some(0),
        Some(JsonView::Num(s)) => parse_i64_spec(s),
        Some(_) => None,
    }
}

pub fn json_i64_field(o: &Vec<(String, JsonValue)>, key: &str) -> (r: Option<i64>)
    ensures
        match r {
            Some(n) => spec_i64_field(obj_deep(o@), key@) == Some(n),
            None => spec_i64_field(obj_deep(o@), key@) is None,
        },
{
    match json_get(o, key) {
        None => Some(0),
        Some(JsonValue::Num(s)) => parse_i64(s.as_str()),
        Some(_) => None,
    }
}

/// A port-sized unsigned field: missing means zero.
pub open spec fn spec_u16_field(o: Seq<(Seq<char>, JsonView)>, key: Seq<char>) -> Option<u16> {
    match spec_get(o, key) {
        None => Some(0),
        Some(JsonView::Num(s)) => match parse_u64_spec(s) {
            Some(v) => if v <= u16::MAX as u64 {
                Some(v as u16)
            } else {
                None
            },
            None => None,
        },
        Some(_) => None,
    }
}

pub fn json_u16_field(o: &Vec<(String, JsonValue)>, key: &str) -> (r: Option<u16>)
    ensures
        match r {
            Some(n) => spec_u16_field(obj_deep(o@), key@) == Some(n),
            None => spec_u16_field(obj_deep(o@), key@) is None,
        },
{
    match json_get(o, key) {
        None => Some(0),
        Some(JsonValue::Num(s)) => match parse_u64(s.as_str()) {
            Some(v) => if v <= 65535 {
                Some(v as u16)
            } else {
                None
            },
            None => None,
        },
        Some(_) => None,
    }
}

/// An array whose elements must all be strings.
pub open spec fn spec_str_array(a: Seq<JsonView>) -> Option<Seq<Seq<char>>> {
    if forall|i: int| 0 <= i < a.len() ==> (#[trigger] a[i]) is Str {
        Some(Seq::new(a.len(), |i: int| a[i]->Str_0))
    } else {
        None
    }
}

pub fn json_str_array(a: &Vec<JsonValue>) -> (r: Option<Vec<String>>)
    ensures
        match r {
            Some(v) => spec_str_array(arr_deep(a@)) == Some(v.deep_view()),
            None => spec_str_array(arr_deep(a@)) is None,
        },
{
    let ghost av = arr_deep(a@);
    let mut out: Vec<String> = Vec::new();
    let mut i: usize = 0;
    while i < a.len()
        invariant
            0 <= i <= a.len(),
            av == arr_deep(a@),
            av.len() == a@.len(),
            out@.len() == i,
            forall|j: int| 0 <= j < i ==> (#[trigger] av[j]) is Str,
            forall|j: int| 0 <= j < i ==> (#[trigger] out@[j])@ == av[j]->Str_0,
        decreases a.len() - i,
    {
        match &a[i] {
            JsonValue::Str(s) => {
                out.push(s.clone());
            },
            _ => {
                proof {
                    assert(!(av[i as int] is Str));
                }
                return None;
            },
        }
        i = i + 1;
    }
    proof {
        assert(out.deep_view() =~= Seq::new(av.len(), |j: int| av[j]->Str_0));
    }
    Some(out)
}

/// A string-array field: missing means empty.
pub open spec fn spec_str_array_field(o: Seq<(Seq<char>, JsonView)>, key: Seq<char>) -> Option<
    Seq<Seq<char>>,
> {
    match spec_get(o, key) {
        None => Some(Seq::<Seq<char>>::empty()),
        Some(JsonView::Array(a)) => spec_str_array(a),
        Some(_) => None,
    }
}

pub fn json_str_array_field(o: &Vec<(String, JsonValue)>, key: &str) -> (r: Option<Vec<String>>)
    ensures
        match r {
            Some(v) => spec_str_array_field(obj_deep(o@), key@) == Some(v.deep_view()),
            None => spec_str_array_field(obj_deep(o@), key@) is None,
        },
{
    match json_get(o, key) {
        None => {
            let out: Vec<String> = Vec::new();
            proof {
                assert(out.deep_view() =~= Seq::<Seq<char>>::empty());
            }
            Some(out)
        },
        Some(JsonValue::Array(a)) => json_str_array(a),
        Some(_) => None,
    }
}

/// An object whose values must all be strings, kept in the order handed over.
pub open spec fn spec_str_map(o: Seq<(Seq<char>, JsonView)>) -> Option<
    Seq<(Seq<char>, Seq<char>)>,
> {
    if forall|i: int| 0 <= i < o.len() ==> (#[trigger] o[i].1) is Str {
        Some(Seq::new(o.len(), |i: int| (o[i].0, o[i].1->Str_0)))
    } else {
        None
    }
}

pub fn json_str_map(o: &Vec<(String, JsonValue)>) -> (r: Option<Vec<(String, String)>>)
    ensures
        match r {
            Some(v) => spec_str_map(obj_deep(o@)) == Some(v.deep_view()),
            None => spec_str_map(obj_deep(o@)) is None,
        },
{
    let ghost ov = obj_deep(o@);
    let mut out: Vec<(String, String)> = Vec::new();
    let mut i: usize = 0;
    while i < o.len()
        invariant
            0 <= i <= o.len(),
            ov == obj_deep(o@),
            ov.len() == o@.len(),
            out@.len() == i,
            forall|j: int| 0 <= j < i ==> (#[trigger] ov[j].1) is Str,
            forall|j: int|
                0 <= j < i ==> (#[trigger] out@[j]).0@ == ov[j].0 && out@[j].1@ == ov[j].1->Str_0,
        decreases o.len() - i,
    {
        match &o[i].1 {
            JsonValue::Str(s) => {
                out.push((o[i].0.clone(), s.clone()));
            },
            _ => {
                proof {
                    assert(!(ov[i as int].1 is Str));
                }
                return None;
            },
        }
        i = i + 1;
    }
    proof {
        assert(out.deep_view() =~= Seq::new(ov.len(), |j: int| (ov[j].0, ov[j].1->Str_0)));
    }
    Some(out)
}

/// An optional string-map field: missing or null means absent.
pub open spec fn spec_opt_str_map_field(o: Seq<(Seq<char>, JsonView)>, key: Seq<char>) -> Option<
    Option<Seq<(Seq<char>, Seq<char>)>>,
> {
    match spec_get(o, key) {
        None => Some(None),
        Some(JsonView::Null) => Some(None),
        Some(JsonView::Object(m)) => match spec_str_map(m) {
            Some(v) => Some(Some(v)),
            None => None,
        },
        Some(_) => None,
    }
}

pub fn json_opt_str_map_field(o: &Vec<(String, JsonValue)>, key: &str) -> (r: Option<
    Option<Vec<(String, String)>>,
>)
    ensures
        match r {
            Some(v) => spec_opt_str_map_field(obj_deep(o@), key@) == Some(v.deep_view()),
            None => spec_opt_str_map_field(obj_deep(o@), key@) is None,
        },
{
    match json_get(o, key) {
        None => Some(None),
        Some(JsonValue::Null) => Some(None),
        Some(JsonValue::Object(m)) => match json_str_map(m) {
            Some(v) => Some(Some(v)),
            None => None,
        },
        Some(_) => None,
    }
}

} // verus!
