//! The crate's own picture of a parsed JSON document, and the trusted
//! bridge to the parser that produces it.

use vstd::prelude::*;

verus! {

broadcast use vstd::string::group_string_axioms;

/// A JSON document as this crate sees it: the tree that the parser of
/// `rustc_serialize` produces, with object fields as a key-sorted list
/// of pairs.  Floating-point numbers are kept opaque (`F64`): no field
/// this crate decodes may hold one, so their value is never read.
#[derive(Debug, PartialEq)]
pub enum JsonValue {
    Null,
    Boolean(bool),
    I64(i64),
    U64(u64),
    F64,
    Str(String),
    Array(Vec<JsonValue>),
    Object(Vec<(String, JsonValue)>),
}

/// The tree that parsing a given text yields, or `None` where the text
/// is not valid JSON.  Left uninterpreted: the JSON grammar belongs to
/// the parser crate, not to this one.
pub uninterp spec fn json_of(s: Seq<char>) -> Option<JsonValue>;

#[verifier::external_type_specification]
#[verifier::external_body]
pub struct ExJson(rustc_serialize::json::Json);

/// Moves a parsed `rustc_serialize` tree into this crate's own tree,
/// variant for variant; object fields come out in the parser's
/// key-sorted order, numbers too wide or too fine for an integer
/// variant become the opaque `F64`.
#[verifier::external_body]
fn json_tree(j: rustc_serialize::json::Json) -> JsonValue {
    match j {
        rustc_serialize::json::Json::Null => JsonValue::Null,
        rustc_serialize::json::Json::Boolean(b) => JsonValue::Boolean(b),
        rustc_serialize::json::Json::I64(i) => JsonValue::I64(i),
        rustc_serialize::json::Json::U64(u) => JsonValue::U64(u),
        rustc_serialize::json::Json::F64(_) => JsonValue::F64,
        rustc_serialize::json::Json::String(s) => JsonValue::Str(s),
        rustc_serialize::json::Json::Array(a) => JsonValue::Array(a.into_iter().map(json_tree).collect()),
        rustc_serialize::json::Json::Object(o) => JsonValue::Object(
            o.into_iter().map(|(k, v)| (k, json_tree(v))).collect(),
        ),
    }
}

/// Relies on `rustc_serialize::json::Json::from_str`: what a text
/// parses to is a function of the text alone; on failure the parser's
/// own message is handed back.
#[verifier::external_body]
pub(crate) fn json_from_str(s: &str) -> (r: Result<JsonValue, String>)
    ensures
        match r {
            Ok(v) => json_of(s@) == Some(v),
            Err(_) => json_of(s@) is None,
        },
{
    match rustc_serialize::json::Json::from_str(s) {
        Ok(j) => Ok(json_tree(j)),
        Err(e) => Err(format!("{}", e)),
    }
}

/// The value under `key` in a key/value list, scanning from the front.
pub open spec fn obj_lookup(pairs: Seq<(String, JsonValue)>, key: Seq<char>) -> Option<JsonValue>
    decreases pairs.len(),
{
    if pairs.len() == 0 {
        None
    } else if pairs[0].0@ == key {
        Some(pairs[0].1)
    } else {
        obj_lookup(pairs.drop_first(), key)
    }
}

/// The value of the named field, where `v` is an object that has one.
pub open spec fn field_of(v: JsonValue, key: Seq<char>) -> Option<JsonValue> {
    match v {
        JsonValue::Object(pairs) => obj_lookup(pairs@, key),
        _ => None,
    }
}

/// Looks a field up in a JSON value, returning `None` both when the
/// value is not an object and when the object lacks the field.
pub fn get_field<'a>(v: &'a JsonValue, key: &str) -> (r: Option<&'a JsonValue>)
    ensures
        match r {
            Some(x) => field_of(*v, key@) == Some(*x),
            None => field_of(*v, key@) is None,
        },
{
    match v {
        JsonValue::Object(pairs) => {
            assert(field_of(*v, key@) == obj_lookup(pairs@, key@));
            let k: String = key.to_string();
            let n = pairs.len();
            let mut i: usize = 0;
            assert(pairs@.subrange(0, n as int) =~= pairs@);
            while i < n
                invariant
                    n == pairs@.len(),
                    i <= n,
                    k@ == key@,
                    field_of(*v, key@) == obj_lookup(pairs@, key@),
                    obj_lookup(pairs@, key@) == obj_lookup(
                        pairs@.subrange(i as int, n as int),
                        key@,
                    ),
                decreases n - i,
            {
                let p = &pairs[i];
                if p.0 == k {
                    proof {
                        let sub = pairs@.subrange(i as int, n as int);
                        assert(sub[0] == pairs@[i as int]);
                        assert(sub[0].0@ == key@);
                        assert(obj_lookup(sub, key@) == Some(sub[0].1));
                    }
                    return Some(&p.1);
                }
                proof {
                    let sub = pairs@.subrange(i as int, n as int);
                    assert(sub[0] == pairs@[i as int]);
                    assert(sub[0].0@ != key@);
                    assert(sub.drop_first() =~= pairs@.subrange(i as int + 1, n as int));
                    assert(obj_lookup(sub, key@) == obj_lookup(sub.drop_first(), key@));
                }
                i = i + 1;
            }
            assert(pairs@.subrange(n as int, n as int).len() == 0);
            None
        },
        _ => None,
    }
}

} // verus!
