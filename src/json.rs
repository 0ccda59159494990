//! JSON values as the library reads them, and the two places where text
//! becomes a value and a value becomes text: both are serde_json's work.
use vstd::prelude::*;

use crate::text::str_eq;

verus! {

#[verifier::external_type_specification]
#[verifier::external_body]
pub struct ExNumber(serde_json::Number);

#[verifier::external_type_specification]
#[verifier::external_body]
pub struct ExValue(serde_json::Value);

/// A JSON value. Numbers are carried through untouched; an object keeps its
/// members in order. Objects read from text hold each key once; where a
/// key repeats, lookups find its first member.
pub enum Json {
    Null,
    Bool(bool),
    Number(serde_json::Number),
    String(String),
    Array(Vec<Json>),
    Object(Vec<(String, Json)>),
}

/// The member of `fields` named `key`: the first one, where keys repeat.
pub open spec fn member(fields: Seq<(String, Json)>, key: Seq<char>) -> Option<Json>
    decreases fields.len(),
{
    if fields.len() == 0 {
        None
    } else if fields[0].0@ == key {
        Some(fields[0].1)
    } else {
        member(fields.drop_first(), key)
    }
}

/// What `value.get(key)` gives: the member of an object, nothing for anything else.
pub open spec fn get(value: Json, key: Seq<char>) -> Option<Json> {
    match value {
        Json::Object(fields) => member(fields@, key),
        _ => None,
    }
}

/// `value` is the string `s`.
pub open spec fn is_string(value: Json, s: Seq<char>) -> bool {
    match value {
        Json::String(t) => t@ == s,
        _ => false,
    }
}

/// The strings of an array whose items are all strings.
pub open spec fn string_items(value: Json) -> Option<Seq<Seq<char>>> {
    match value {
        Json::Array(items) => if forall|i: int| 0 <= i < items@.len() ==> items@[i] is String {
            Some(items@.map_values(|j: Json| j->String_0@))
        } else {
            None
        },
        _ => None,
    }
}

/// What serde_json reads from `text`: the value, where `text` is JSON, else
/// the text of its error, which says what is wrong and where.
pub uninterp spec fn json_parse(text: Seq<char>) -> Result<Json, Seq<char>>;

/// The text that serde_json writes for `value`.
pub uninterp spec fn json_text(value: Json) -> Seq<char>;

/// Relies on `serde_json::from_str::<serde_json::Value>`: it reads `text`
/// as JSON, or fails where `text` is not JSON with an error whose message
/// depends on the text alone.
#[verifier::external_body]
pub(crate) fn parse_json(text: &str) -> (r: Result<Json, String>)
    ensures
        match r {
            Ok(v) => json_parse(text@) == Ok::<Json, Seq<char>>(v),
            Err(e) => json_parse(text@) == Err::<Json, Seq<char>>(e@),
        },
{
    serde_json::from_str::<serde_json::Value>(text).map(from_serde).map_err(|e| e.to_string())
}

/// Relies on `serde_json::to_string` on a `serde_json::Value`, which cannot
/// fail: every key of a `Value` is a string.
#[verifier::external_body]
pub(crate) fn to_json_string(value: &Json) -> (r: String)
    ensures
        r@ == json_text(*value),
{
    serde_json::to_string(&to_serde(value)).unwrap_or_default()
}

/// Relies on serde_json's `Value`: one variant for each of `Json`'s.
#[verifier::external_body]
fn from_serde(value: serde_json::Value) -> Json {
    match value {
        serde_json::Value::Null => Json::Null,
        serde_json::Value::Bool(b) => Json::Bool(b),
        serde_json::Value::Number(n) => Json::Number(n),
        serde_json::Value::String(s) => Json::String(s),
        serde_json::Value::Array(a) => Json::Array(a.into_iter().map(from_serde).collect()),
        serde_json::Value::Object(m) => Json::Object(
            m.into_iter().map(|(k, v)| (k, from_serde(v))).collect(),
        ),
    }
}

/// Relies on serde_json's `Value`: one variant for each of `Json`'s.
#[verifier::external_body]
fn to_serde(value: &Json) -> serde_json::Value {
    match value {
        Json::Null => serde_json::Value::Null,
        Json::Bool(b) => serde_json::Value::Bool(*b),
        Json::Number(n) => serde_json::Value::Number(n.clone()),
        Json::String(s) => serde_json::Value::String(s.clone()),
        Json::Array(a) => serde_json::Value::Array(a.iter().map(to_serde).collect()),
        Json::Object(m) => serde_json::Value::Object(
            m.iter().map(|(k, v)| (k.clone(), to_serde(v))).collect(),
        ),
    }
}

/// Position of the first member of `fields` named `key`.
pub fn find_member(fields: &Vec<(String, Json)>, key: &str) -> (r: Option<usize>)
    ensures
        match r {
            Some(i) => i < fields@.len() && fields@[i as int].0@ == key@ && member(fields@, key@)
                == Some(fields@[i as int].1) && forall|j: int|
                0 <= j < i ==> fields@[j].0@ != key@,
            None => member(fields@, key@) is None && forall|j: int|
                0 <= j < fields@.len() ==> fields@[j].0@ != key@,
        },
{
    let mut i: usize = 0;
    assert(fields@.skip(0) =~= fields@);
    while i < fields.len()
        invariant
            i <= fields@.len(),
            member(fields@, key@) == member(fields@.skip(i as int), key@),
            forall|j: int| 0 <= j < i ==> fields@[j].0@ != key@,
        decreases fields@.len() - i,
    {
        if str_eq(fields[i].0.as_str(), key) {
            return Some(i);
        }
        assert(fields@.skip(i as int).drop_first() =~= fields@.skip(i + 1));
        i = i + 1;
    }
    None
}

/// The member of `value` named `key`, as `serde_json::Value::get` gives it.
pub fn get_member<'a>(value: &'a Json, key: &str) -> (r: Option<&'a Json>)
    ensures
        match r {
            Some(v) => get(*value, key@) == Some(*v),
            None => get(*value, key@) is None,
        },
{
    match value {
        Json::Object(fields) => match find_member(fields, key) {
            Some(i) => Some(&fields[i].1),
            None => None,
        },
        _ => None,
    }
}

/// Whether `value` is the string `s`, as `value == s` compares them.
pub fn json_is_str(value: &Json, s: &str) -> (r: bool)
    ensures
        r == is_string(*value, s@),
{
    match value {
        Json::String(t) => str_eq(t.as_str(), s),
        _ => false,
    }
}

/// The strings of `value`, where it is an array of strings only.
pub fn string_list(value: &Json) -> (r: Option<Vec<String>>)
    ensures
        match r {
            Some(v) => string_items(*value) == Some(v@.map_values(|s: String| s@)),
            None => string_items(*value) is None,
        },
{
    match value {
        Json::Array(items) => {
            let mut out: Vec<String> = Vec::new();
            let mut i: usize = 0;
            while i < items.len()
                invariant
                    *value == Json::Array(*items),
                    i <= items@.len(),
                    out@.len() == i,
                    forall|j: int| 0 <= j < i ==> items@[j] is String,
                    forall|j: int|
                        0 <= j < i ==> #[trigger] out@[j]@ == items@[j]->String_0@,
                decreases items@.len() - i,
            {
                match &items[i] {
                    Json::String(s) => out.push(s.clone()),
                    _ => {
                        assert(!(items@[i as int] is String));
                        assert(!(forall|j: int| 0 <= j < items@.len() ==> items@[j] is String));
                        assert(string_items(*value) is None);
                        return None;
                    },
                }
                i = i + 1;
            }
            assert(out@.map_values(|s: String| s@) =~= items@.map_values(|j: Json| j->String_0@));
            Some(out)
        },
        _ => None,
    }
}

/// An array holding each of `items` as a string.
pub fn string_array(items: &Vec<String>) -> (r: Json)
    ensures
        string_items(r) == Some(items@.map_values(|s: String| s@)),
{
    let mut out: Vec<Json> = Vec::new();
    let mut i: usize = 0;
    while i < items.len()
        invariant
            i <= items@.len(),
            out@.len() == i,
            forall|j: int| 0 <= j < i ==> (#[trigger] out@[j]) is String && out@[j]->String_0@
                == items@[j]@,
        decreases items@.len() - i,
    {
        out.push(Json::String(items[i].clone()));
        i = i + 1;
    }
    assert(out@.map_values(|j: Json| j->String_0@) =~= items@.map_values(|s: String| s@));
    Json::Array(out)
}

} // verus!
