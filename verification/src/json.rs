//! A model of JSON values, and the trusted bridge between that model and
//! JSON text, which is `serde_json`'s work.

use vstd::prelude::*;
use crate::text::str_eq;

verus! {

/// A JSON value. The settings logic reads booleans, strings, nulls and the
/// entries of the top-level object; a number is carried as its decimal text,
/// which the logic never inspects.
pub enum JsonVal {
    Null,
    Bool(bool),
    Num(String),
    Str(String),
    Arr(Vec<JsonVal>),
    Obj(Vec<(String, JsonVal)>),
}

/// The JSON value a text denotes, or `None` where the text is not valid
/// JSON. `serde_json` decides this; the name stands for its answer.
pub uninterp spec fn json_of(s: Seq<char>) -> Option<JsonVal>;

/// The pretty-printed text of the JSON object `{k1: v1, k2: v2}`, where `v1`
/// is a boolean and `v2` a string or null, or `None` where the encoder
/// refuses it. `serde_json` decides this; the name stands for its answer.
pub uninterp spec fn pretty_obj2(
    k1: Seq<char>,
    v1: bool,
    k2: Seq<char>,
    v2: Option<Seq<char>>,
) -> Option<Seq<char>>;

/// The character sequences of an optional string.
pub open spec fn opt_text(v: Option<String>) -> Option<Seq<char>> {
    match v {
        Some(s) => Some(s@),
        None => None,
    }
}

/// Relies on `serde_json::from_str::<serde_json::Value>`: whether a text is
/// valid JSON and which value it denotes; the result depends on the text
/// alone. `convert_value` rewrites the parsed `serde_json::Value` into the
/// library's `JsonVal`.
#[verifier::external_body]
pub(crate) fn parse_json(s: &str) -> (r: Option<JsonVal>)
    ensures
        r == json_of(s@),
{
    serde_json::from_str::<serde_json::Value>(s).ok().map(convert_value)
}

/// The variant-for-variant rewrite of `serde_json::Value` into `JsonVal`
/// used by `parse_json`: each arm moves the fields across; a number becomes
/// its decimal text.
#[verifier::external_body]
fn convert_value(v: serde_json::Value) -> JsonVal {
    match v {
        serde_json::Value::Null => JsonVal::Null,
        serde_json::Value::Bool(b) => JsonVal::Bool(b),
        serde_json::Value::Number(n) => JsonVal::Num(n.to_string()),
        serde_json::Value::String(s) => JsonVal::Str(s),
        serde_json::Value::Array(a) => JsonVal::Arr(a.into_iter().map(convert_value).collect()),
        serde_json::Value::Object(m) => JsonVal::Obj(
            m.into_iter().map(|(k, w)| (k, convert_value(w))).collect(),
        ),
    }
}

/// `serde_json`'s own JSON value type; values of it live only inside the
/// trusted bridge functions of this module.
#[verifier::external_type_specification]
#[verifier::external_body]
pub struct ExValue(serde_json::Value);

/// Relies on `serde_json::to_string_pretty` applied to a
/// `serde_json::Value::Object` with the two given entries (a
/// `serde_json::Map` keeps them in key order); the result depends on the
/// arguments alone.
#[verifier::external_body]
pub(crate) fn render_obj2(k1: &str, v1: bool, k2: &str, v2: &Option<String>) -> (r: Option<String>)
    ensures
        (match r {
            Some(t) => pretty_obj2(k1@, v1, k2@, opt_text(*v2)) == Some(t@),
            None => pretty_obj2(k1@, v1, k2@, opt_text(*v2)) is None,
        }),
{
    let mut m = serde_json::Map::new();
    m.insert(k1.to_string(), serde_json::Value::Bool(v1));
    m.insert(k2.to_string(), match v2 {
        Some(s) => serde_json::Value::String(s.clone()),
        None => serde_json::Value::Null,
    });
    serde_json::to_string_pretty(&serde_json::Value::Object(m)).ok()
}

/// The value of the first entry of `entries` whose key is `key`, or `None`
/// where no entry has it.
pub open spec fn lookup(entries: Seq<(String, JsonVal)>, key: Seq<char>) -> Option<JsonVal>
    decreases entries.len(),
{
    if entries.len() == 0 {
        None
    } else if entries[0].0@ == key {
        Some(entries[0].1)
    } else {
        lookup(entries.drop_first(), key)
    }
}

/// Finds the first entry of `entries` whose key is `key`.
pub fn find_entry<'a>(entries: &'a Vec<(String, JsonVal)>, key: &str) -> (r: Option<
    &'a JsonVal,
>)
    ensures
        (match r {
            Some(v) => lookup(entries@, key@) == Some(*v),
            None => lookup(entries@, key@) is None,
        }),
{
    let n = entries.len();
    proof {
        assert(entries@.skip(0) =~= entries@);
    }
    for i in 0..n
        invariant
            n == entries@.len(),
            lookup(entries@, key@) == lookup(entries@.skip(i as int), key@),
    {
        proof {
            assert(entries@.skip(i as int).drop_first() =~= entries@.skip(i + 1));
        }
        if str_eq(entries[i].0.as_str(), key) {
            return Some(&entries[i].1);
        }
    }
    proof {
        assert(entries@.skip(n as int) =~= Seq::<(String, JsonVal)>::empty());
    }
    None
}

} // verus!
