//! A JSON document as plain values, read by serde_json, with field lookup.
use vstd::prelude::*;
use crate::text::same_text;

verus! {

/// A JSON value. Numbers that are 64-bit integers keep their value; other
/// numbers only keep that they are numbers.
#[derive(Debug)]
pub enum Json {
    Null,
    Bool(bool),
    Int(i64),
    OtherNumber,
    Str(String),
    Array(Vec<Json>),
    /// Members in the order serde_json keeps them, one per key.
    Object(Vec<(String, Json)>),
}

#[verifier::external_type_specification]
#[verifier::external_body]
pub struct ExValue(serde_json::Value);

/// What serde_json reads from a text, as a plain tree; `None` where the
/// text is not JSON.
pub uninterp spec fn parsed_json(text: Seq<char>) -> Option<Json>;

/// Relies on serde_json::from_str into serde_json::Value: the tree depends on
/// the text alone, and the call fails where the text is not JSON.
#[verifier::external_body]
pub fn parse_json(text: &str) -> (r: Option<Json>)
    ensures
        r == parsed_json(text@),
{
    let value: serde_json::Value = serde_json::from_str(text).ok()?;
    Some(tree_of(value))
}

/// Relies on serde_json::Value's variants and Number::as_i64: moves a
/// parsed value into the plain tree, one node for one node.
#[verifier::external_body]
fn tree_of(v: serde_json::Value) -> Json {
    match v {
        serde_json::Value::Null => Json::Null,
        serde_json::Value::Bool(b) => Json::Bool(b),
        serde_json::Value::Number(n) => n.as_i64().map_or(Json::OtherNumber, Json::Int),
        serde_json::Value::String(s) => Json::Str(s),
        serde_json::Value::Array(a) => Json::Array(a.into_iter().map(tree_of).collect()),
        serde_json::Value::Object(m) => Json::Object(m.into_iter().map(|(k, x)| (k, tree_of(x))).collect()),
    }
}

/// The value of the first member named `key`.
pub open spec fn member(m: Seq<(String, Json)>, key: Seq<char>) -> Option<Json>
    decreases m.len(),
{
    if m.len() == 0 {
        None
    } else if m[0].0@ == key {
        Some(m[0].1)
    } else {
        member(m.drop_first(), key)
    }
}

/// The member `key` of an object; `None` for a missing member or a value
/// that is no object.
pub open spec fn field(j: Json, key: Seq<char>) -> Option<Json> {
    match j {
        Json::Object(m) => member(m@, key),
        _ => None,
    }
}

pub open spec fn opt_ref(r: Option<&Json>) -> Option<Json> {
    match r {
        Some(x) => Some(*x),
        None => None,
    }
}

/// Looks up the member `key` of an object.
pub fn get_field<'a>(j: &'a Json, key: &str) -> (r: Option<&'a Json>)
    ensures
        opt_ref(r) == field(*j, key@),
{
    match j {
        Json::Object(m) => {
            let mut i: usize = 0;
            assert(m@.subrange(0, m@.len() as int) =~= m@);
            while i < m.len()
                invariant
                    i <= m@.len(),
                    field(*j, key@) == member(m@, key@),
                    member(m@, key@) == member(m@.subrange(i as int, m@.len() as int), key@),
                decreases m@.len() - i,
            {
                assert(m@.subrange(i as int, m@.len() as int).drop_first() =~= m@.subrange(
                    i + 1,
                    m@.len() as int,
                ));
                assert(m@.subrange(i as int, m@.len() as int)[0] == m@[i as int]);
                if same_text(m[i].0.as_str(), key) {
                    let found = &m[i].1;
                    assert(member(m@.subrange(i as int, m@.len() as int), key@) == Some(*found));
                    return Some(found);
                }
                i = i + 1;
            }
            None
        },
        _ => None,
    }
}

} // verus!
