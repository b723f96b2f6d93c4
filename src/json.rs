//! A JSON document tree owned by the library, read from text by serde_json.
use vstd::prelude::*;

verus! {

#[verifier::external_type_specification]
#[verifier::external_body]
pub struct ExValue(serde_json::Value);

#[verifier::external_type_specification]
#[verifier::external_body]
pub struct ExJsonError(serde_json::Error);

/// Nesting depth that serde_json's parser never exceeds (it stops at 128).
pub const MAX_DEPTH: usize = 256;

/// A JSON number: its text as serde_json writes it, and its value where it is
/// a non-negative integer that fits in `u64`.
#[derive(Debug, PartialEq, Eq)]
pub struct JsonNumber {
    pub text: String,
    pub whole: Option<u64>,
}

impl JsonNumber {
    pub fn copy(&self) -> (r: JsonNumber)
        ensures
            r == *self,
    {
        JsonNumber { text: self.text.clone(), whole: self.whole }
    }
}

/// A JSON value; an object keeps its entries as a sequence of key and value.
#[derive(Debug, PartialEq, Eq)]
pub enum Json {
    Null,
    Bool(bool),
    Number(JsonNumber),
    Str(String),
    Array(Vec<Json>),
    Object(Vec<(String, Json)>),
}

/// One level of a `serde_json::Value`, its children still undecoded.
enum Node {
    Null,
    Bool(bool),
    Number(JsonNumber),
    Str(String),
    Array(Vec<serde_json::Value>),
    Object(Vec<(String, serde_json::Value)>),
}

/// Names whether serde_json accepts a text as one JSON value.
pub uninterp spec fn json_accepted(text: Seq<char>) -> bool;

/// Relies on serde_json::from_str to read JSON text into a value; whether it
/// succeeds depends on the text alone.
#[verifier::external_body]
fn read_value(text: &str) -> (r: Result<serde_json::Value, serde_json::Error>)
    ensures
        r is Ok <==> json_accepted(text@),
{
    serde_json::from_str(text)
}

/// Relies on the variants of serde_json::Value, on serde_json::Number::as_u64
/// and on serde_json::Number's Display for the text of a number.
#[verifier::external_body]
fn node_of(v: serde_json::Value) -> Node {
    match v {
        serde_json::Value::Null => Node::Null,
        serde_json::Value::Bool(b) => Node::Bool(b),
        serde_json::Value::Number(n) => Node::Number(
            JsonNumber { whole: n.as_u64(), text: n.to_string() },
        ),
        serde_json::Value::String(s) => Node::Str(s),
        serde_json::Value::Array(a) => Node::Array(a),
        serde_json::Value::Object(m) => Node::Object(m.into_iter().collect()),
    }
}

/// Builds the library's tree from a serde_json value. Below `fuel` levels a
/// list or object reads as null; serde_json never nests that deep.
fn tree_of(v: serde_json::Value, fuel: usize) -> Json
    decreases fuel,
{
    match node_of(v) {
        Node::Null => Json::Null,
        Node::Bool(b) => Json::Bool(b),
        Node::Number(n) => Json::Number(n),
        Node::Str(s) => Json::Str(s),
        Node::Array(items) => {
            if fuel == 0 {
                return Json::Null;
            }
            let mut rest = items;
            let mut out: Vec<Json> = Vec::new();
            while rest.len() > 0
                invariant
                    fuel > 0,
                decreases rest.len(),
            {
                let item = rest.remove(0);
                out.push(tree_of(item, fuel - 1));
            }
            Json::Array(out)
        },
        Node::Object(entries) => {
            if fuel == 0 {
                return Json::Null;
            }
            let mut rest = entries;
            let mut out: Vec<(String, Json)> = Vec::new();
            while rest.len() > 0
                invariant
                    fuel > 0,
                decreases rest.len(),
            {
                let (key, item) = rest.remove(0);
                out.push((key, tree_of(item, fuel - 1)));
            }
            Json::Object(out)
        },
    }
}

/// Reads JSON text; `None` exactly where serde_json rejects it.
pub fn parse_json(text: &str) -> (r: Option<Json>)
    ensures
        r is Some <==> json_accepted(text@),
{
    match read_value(text) {
        Ok(v) => Some(tree_of(v, MAX_DEPTH)),
        Err(_) => None,
    }
}

/// The value under `key` in an object's entries: the first entry with that key.
pub open spec fn field(entries: Seq<(String, Json)>, key: Seq<char>) -> Option<Json>
    decreases entries.len(),
{
    if entries.len() == 0 {
        None
    } else if entries[0].0@ == key {
        Some(entries[0].1)
    } else {
        field(entries.drop_first(), key)
    }
}

/// The value behind an optional reference.
pub open spec fn own(f: Option<&Json>) -> Option<Json> {
    match f {
        Some(j) => Some(*j),
        None => None,
    }
}

/// Looks up `key` among an object's entries.
pub fn get_field<'a>(entries: &'a Vec<(String, Json)>, key: &str) -> (r: Option<&'a Json>)
    ensures
        own(r) == field(entries@, key@),
{
    let k = key.to_string();
    proof {
        assert(k@ == key@);
    }
    let n = entries.len();
    let mut i: usize = 0;
    assert(entries@.subrange(0, n as int) =~= entries@);
    while i < n
        invariant
            n == entries@.len(),
            i <= n,
            k@ == key@,
            field(entries@, key@) == field(entries@.subrange(i as int, n as int), key@),
        decreases n - i,
    {
        let rest = Ghost(entries@.subrange(i as int, n as int));
        assert(rest@.drop_first() =~= entries@.subrange(i + 1, n as int));
        assert(rest@[0] == entries@[i as int]);
        if entries[i].0 == k {
            return Some(&entries[i].1);
        }
        i = i + 1;
    }
    None
}

} // verus!
