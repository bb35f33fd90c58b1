use serde::Deserialize;
use serde_json::Value as JsonValue;
use vstd::prelude::*;
use vstd::string::StringExecFns;

use crate::interpreter::primitives::str_equal;

verus! {

/// A JSON document as the IR loader reads it. A number is kept as the
/// `u64` it denotes (`None` when it is negative, fractional or too large)
/// together with the text serde_json writes for it. An object keeps its
/// members in order.
#[derive(Debug)]
pub enum Json {
    Null,
    Bool(bool),
    Number(Option<u64>, String),
    String(String),
    Array(Vec<Json>),
    Object(Vec<(String, Json)>),
}

#[verifier::external_type_specification]
#[verifier::external_body]
pub struct ExJsonValue(JsonValue);

/// The document that serde_json reads from a JSON text (with its recursion
/// limit turned off), or serde_json's message for why the text is not JSON.
pub uninterp spec fn spec_parse_json(text: Seq<char>) -> Result<Json, Seq<char>>;

/// A serde_json document as a `Json`, one variant to one variant: a number
/// becomes the `u64` it denotes, if any (`serde_json::Number::as_u64`),
/// beside its `Display` text, and object members keep serde_json's order. Trusted, with no contract of its
/// own: only `parse_json` calls it, whose contract covers the result.
#[verifier::external_body]
fn json_of(v: JsonValue) -> Json {
    match v {
        JsonValue::Null => Json::Null,
        JsonValue::Bool(b) => Json::Bool(b),
        JsonValue::Number(n) => Json::Number(n.as_u64(), n.to_string()),
        JsonValue::String(s) => Json::String(s),
        JsonValue::Array(a) => Json::Array(a.into_iter().map(json_of).collect()),
        JsonValue::Object(m) => Json::Object(m.into_iter().map(|(k, x)| (k, json_of(x))).collect()),
    }
}

/// `serde_json::Deserializer::from_str` with `disable_recursion_limit`, then
/// `JsonValue::deserialize`. Trusted: the result is the document
/// `spec_parse_json` names for the text, or the `Display` text of
/// serde_json's error; what that document is for a given text is left to
/// serde_json and not stated here.
#[verifier::external_body]
fn parse_json(text: &str) -> (r: Result<Json, String>)
    ensures
        match r {
            Ok(j) => spec_parse_json(text@) == Ok::<Json, Seq<char>>(j),
            Err(e) => spec_parse_json(text@) == Err::<Json, Seq<char>>(e@),
        },
{
    let mut de = serde_json::Deserializer::from_str(text);
    de.disable_recursion_limit();
    match JsonValue::deserialize(&mut de) {
        Ok(v) => Ok(json_of(v)),
        Err(e) => Err(e.to_string()),
    }
}

/// Reads a JSON document from its text, however deeply it nests.
pub fn read_json(text: &str) -> (r: Result<Json, String>)
    ensures
        match spec_parse_json(text@) {
            Ok(j) => r == Ok::<Json, String>(j),
            Err(e) => r matches Err(m) && m@ == "Failed to parse JSON: "@ + e,
        },
{
    match parse_json(text) {
        Ok(j) => Ok(j),
        Err(e) => error_with("Failed to parse JSON: ", e.as_str()),
    }
}

/// The `Debug` text of a string: the string in double quotes, each
/// character escaped as `char::escape_debug` does.
pub uninterp spec fn spec_debug_str(s: Seq<char>) -> Seq<char>;

/// `format!("{:?}", s)` on a `str`. Trusted: the result is the text
/// `spec_debug_str` names for `s`; the escaping itself is std's and is not
/// stated here.
#[verifier::external_body]
fn debug_str(s: &str) -> (r: String)
    ensures
        r@ == spec_debug_str(s@),
{
    format!("{:?}", s)
}

/// The `Debug` text serde_json gives a document: `Null`, `Bool(..)`,
/// `Number(..)`, `String(..)`, `Array [..]` and `Object {..}`, items and
/// members separated by `", "` and a member written as its quoted key,
/// `": "` and its value.
pub open spec fn spec_json_debug(j: Json) -> Seq<char>
    decreases j,
{
    match j {
        Json::Null => "Null"@,
        Json::Bool(b) => if b {
            "Bool(true)"@
        } else {
            "Bool(false)"@
        },
        Json::Number(_, t) => "Number("@ + t@ + ")"@,
        Json::String(s) => "String("@ + spec_debug_str(s@) + ")"@,
        Json::Array(a) => "Array ["@ + spec_debug_items(a@) + "]"@,
        Json::Object(ms) => "Object {"@ + spec_debug_members(ms@) + "}"@,
    }
}

/// The items of an array, each as `spec_json_debug` writes it, joined by `", "`.
pub open spec fn spec_debug_items(a: Seq<Json>) -> Seq<char>
    decreases a,
{
    if a.len() == 0 {
        Seq::empty()
    } else if a.len() == 1 {
        spec_json_debug(a[0])
    } else {
        spec_debug_items(a.subrange(0, a.len() - 1)) + ", "@ + spec_json_debug(a[a.len() - 1])
    }
}

/// The members of an object, each as its quoted key, `": "` and its value,
/// joined by `", "`.
pub open spec fn spec_debug_members(ms: Seq<(String, Json)>) -> Seq<char>
    decreases ms,
{
    if ms.len() == 0 {
        Seq::empty()
    } else if ms.len() == 1 {
        spec_debug_str(ms[0].0@) + ": "@ + spec_json_debug(ms[0].1)
    } else {
        spec_debug_members(ms.subrange(0, ms.len() - 1)) + ", "@ + spec_debug_str(
            ms[ms.len() - 1].0@,
        ) + ": "@ + spec_json_debug(ms[ms.len() - 1].1)
    }
}

/// The `Debug` text of a document, as `spec_json_debug` describes it.
pub fn json_debug(j: &Json) -> (r: String)
    ensures
        r@ == spec_json_debug(*j),
    decreases j,
{
    match j {
        Json::Null => "Null".to_owned(),
        Json::Bool(b) => if *b {
            "Bool(true)".to_owned()
        } else {
            "Bool(false)".to_owned()
        },
        Json::Number(_, t) => {
            let mut r = "Number(".to_owned();
            r.append(t.as_str());
            r.append(")");
            r
        },
        Json::String(s) => {
            let mut r = "String(".to_owned();
            let d = debug_str(s.as_str());
            r.append(d.as_str());
            r.append(")");
            r
        },
        Json::Array(a) => {
            let mut r = "Array [".to_owned();
            let ghost start = r@;
            let mut i: usize = 0;
            while i < a.len()
                invariant
                    i <= a@.len(),
                    *j == Json::Array(*a),
                    r@ == start + spec_debug_items(a@.subrange(0, i as int)),
                decreases a@.len() - i,
            {
                proof {
                    vstd::std_specs::vec::axiom_vec_index_decreases(*a, i as int);
                    assert(decreases_to!(*j => (*j)->Array_0));
                    assert(decreases_to!(*j => a[i as int]));
                    assert(a@.subrange(0, i + 1).subrange(0, i as int) =~= a@.subrange(0, i as int));
                }
                if i > 0 {
                    r.append(", ");
                }
                let d = json_debug(&a[i]);
                r.append(d.as_str());
                proof {
                    let s1 = a@.subrange(0, i + 1);
                    assert(s1[s1.len() - 1] == a@[i as int]);
                    if i == 0 {
                        assert(spec_debug_items(a@.subrange(0, 0)) =~= Seq::<char>::empty());
                        assert(s1[0] == a@[0]);
                    }
                }
                i = i + 1;
            }
            assert(a@.subrange(0, a@.len() as int) =~= a@);
            r.append("]");
            r
        },
        Json::Object(ms) => {
            let mut r = "Object {".to_owned();
            let ghost start = r@;
            let mut i: usize = 0;
            while i < ms.len()
                invariant
                    i <= ms@.len(),
                    *j == Json::Object(*ms),
                    r@ == start + spec_debug_members(ms@.subrange(0, i as int)),
                decreases ms@.len() - i,
            {
                proof {
                    vstd::std_specs::vec::axiom_vec_index_decreases(*ms, i as int);
                    assert(decreases_to!(*j => (*j)->Object_0));
                    assert(decreases_to!(*j => ms[i as int].1));
                    assert(ms@.subrange(0, i + 1).subrange(0, i as int) =~= ms@.subrange(0, i as int));
                }
                if i > 0 {
                    r.append(", ");
                }
                let k = debug_str(ms[i].0.as_str());
                r.append(k.as_str());
                r.append(": ");
                let d = json_debug(&ms[i].1);
                r.append(d.as_str());
                proof {
                    let s1 = ms@.subrange(0, i + 1);
                    assert(s1[s1.len() - 1] == ms@[i as int]);
                    if i == 0 {
                        assert(spec_debug_members(ms@.subrange(0, 0)) =~= Seq::<char>::empty());
                        assert(s1[0] == ms@[0]);
                    }
                }
                i = i + 1;
            }
            assert(ms@.subrange(0, ms@.len() as int) =~= ms@);
            r.append("}");
            r
        },
    }
}

/// The first member of `ms[k..]` with the given key.
pub open spec fn spec_find_key(ms: Seq<(String, Json)>, key: Seq<char>, k: int) -> Option<int>
    decreases ms.len() - k,
{
    if k < 0 || k >= ms.len() {
        None
    } else if ms[k].0@ == key {
        Some(k)
    } else {
        spec_find_key(ms, key, k + 1)
    }
}

pub proof fn lemma_find_key_range(ms: Seq<(String, Json)>, key: Seq<char>, k: int)
    ensures
        spec_find_key(ms, key, k) matches Some(i) ==> 0 <= i < ms.len() && ms[i].0@ == key,
    decreases ms.len() - k,
{
    if 0 <= k < ms.len() && ms[k].0@ != key {
        lemma_find_key_range(ms, key, k + 1);
    }
}

/// The index of the first member with the given key.
pub fn find_key(ms: &Vec<(String, Json)>, key: &str) -> (r: Option<usize>)
    ensures
        match r {
            Some(i) => spec_find_key(ms@, key@, 0) == Some(i as int) && i < ms@.len(),
            None => spec_find_key(ms@, key@, 0) is None,
        },
{
    proof {
        lemma_find_key_range(ms@, key@, 0);
    }
    let mut i: usize = 0;
    while i < ms.len()
        invariant
            i <= ms@.len(),
            spec_find_key(ms@, key@, i as int) == spec_find_key(ms@, key@, 0),
        decreases ms@.len() - i,
    {
        if str_equal(ms[i].0.as_str(), key) {
            return Some(i);
        }
        i = i + 1;
    }
    None
}

/// The string member `key` of an object's members, or the loader's error.
pub open spec fn spec_str_at(ms: Seq<(String, Json)>, key: Seq<char>) -> Result<Seq<char>, Seq<char>> {
    match spec_find_key(ms, key, 0) {
        Some(i) => match ms[i].1 {
            Json::String(s) => Ok(s@),
            _ => Err("Missing or non-string field: "@ + key),
        },
        None => Err("Missing or non-string field: "@ + key),
    }
}

/// The number member `key`, cut to 32 bits, or the loader's error.
pub open spec fn spec_u32_at(ms: Seq<(String, Json)>, key: Seq<char>) -> Result<u32, Seq<char>> {
    match spec_find_key(ms, key, 0) {
        Some(i) => match ms[i].1 {
            Json::Number(Some(n), _) => Ok(n as u32),
            _ => Err("Missing or non-number field: "@ + key),
        },
        None => Err("Missing or non-number field: "@ + key),
    }
}

/// The boolean member `key`, `false` when there is none.
pub open spec fn spec_bool_at(ms: Seq<(String, Json)>, key: Seq<char>) -> bool {
    match spec_find_key(ms, key, 0) {
        Some(i) => match ms[i].1 {
            Json::Bool(b) => b,
            _ => false,
        },
        None => false,
    }
}

/// An error message: a fixed text.
pub fn error_text<T>(msg: &str) -> (r: Result<T, String>)
    ensures
        r matches Err(e) && e@ == msg@,
{
    Err(msg.to_owned())
}

/// An error message: a fixed text followed by a detail.
pub fn error_with<T>(msg: &str, detail: &str) -> (r: Result<T, String>)
    ensures
        r matches Err(e) && e@ == msg@ + detail@,
{
    let mut s = msg.to_owned();
    s.append(detail);
    Err(s)
}

pub fn str_at<'a>(ms: &'a Vec<(String, Json)>, key: &str) -> (r: Result<&'a str, String>)
    ensures
        match r {
            Ok(s) => spec_str_at(ms@, key@) == Ok::<Seq<char>, Seq<char>>(s@),
            Err(e) => spec_str_at(ms@, key@) == Err::<Seq<char>, Seq<char>>(e@),
        },
{
    match find_key(ms, key) {
        Some(i) => match &ms[i].1 {
            Json::String(s) => Ok(s.as_str()),
            _ => error_with("Missing or non-string field: ", key),
        },
        None => error_with("Missing or non-string field: ", key),
    }
}

pub fn u32_at(ms: &Vec<(String, Json)>, key: &str) -> (r: Result<u32, String>)
    ensures
        match r {
            Ok(n) => spec_u32_at(ms@, key@) == Ok::<u32, Seq<char>>(n),
            Err(e) => spec_u32_at(ms@, key@) == Err::<u32, Seq<char>>(e@),
        },
{
    match find_key(ms, key) {
        Some(i) => match &ms[i].1 {
            Json::Number(Some(n), _) => Ok(#[verifier::truncate] (*n as u32)),
            _ => error_with("Missing or non-number field: ", key),
        },
        None => error_with("Missing or non-number field: ", key),
    }
}

pub fn bool_at(ms: &Vec<(String, Json)>, key: &str) -> (r: bool)
    ensures
        r == spec_bool_at(ms@, key@),
{
    match find_key(ms, key) {
        Some(i) => match &ms[i].1 {
            Json::Bool(b) => *b,
            _ => false,
        },
        None => false,
    }
}

} // verus!
