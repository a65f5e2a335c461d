//! JSON documents: their mathematical value, and the calls into serde_json that build them.

use serde_json::Value;
use vstd::prelude::*;

verus! {

/// A JSON document as a mathematical value.  Numbers are natural: no other occur here.
pub enum Json {
    Null,
    Bool(bool),
    Num(nat),
    Str(Seq<char>),
    Arr(Seq<Json>),
    Obj(Map<Seq<char>, Json>),
}

/// An object of serde_json, by its entries.
pub type Object = serde_json::Map<String, Value>;

/// `serde_json::Value`, a JSON document.
#[verifier::external_type_specification]
#[verifier::external_body]
pub struct ExValue(Value);

/// `serde_json::Map`, the entries of a JSON object.
#[verifier::external_type_specification]
#[verifier::external_body]
#[verifier::reject_recursive_types(K)]
#[verifier::reject_recursive_types(V)]
pub struct ExMap<K, V>(serde_json::Map<K, V>);

/// The document that a `serde_json::Value` holds.
pub uninterp spec fn json_of(v: Value) -> Json;

/// The entries that a `serde_json::Map` holds: the value of each key.
pub uninterp spec fn entries_of(m: serde_json::Map<String, Value>) -> Map<Seq<char>, Json>;

/// No entries.
pub open spec fn no_entries() -> Map<Seq<char>, Json> {
    Map::empty()
}

/// `Value::default`: the value `null`.
#[verifier::external_body]
pub(crate) fn null_value() -> (v: Value)
    ensures
        json_of(v) == Json::Null,
{
    Value::default()
}

/// `Value::from(bool)`: the truth value.
#[verifier::external_body]
pub(crate) fn bool_value(b: bool) -> (v: Value)
    ensures
        json_of(v) == Json::Bool(b),
{
    Value::from(b)
}

/// `Value::from(u64)`: the number.
#[verifier::external_body]
pub(crate) fn number_value(n: u64) -> (v: Value)
    ensures
        json_of(v) == Json::Num(n as nat),
{
    Value::from(n)
}

/// `Value::from(String)`: the string.
#[verifier::external_body]
pub(crate) fn string_value(s: String) -> (v: Value)
    ensures
        json_of(v) == Json::Str(s@),
{
    Value::from(s)
}

/// `Value::from(Vec<Value>)`: the array of the documents, in their order.
#[verifier::external_body]
pub(crate) fn array_value(items: Vec<Value>) -> (v: Value)
    ensures
        json_of(v) == Json::Arr(items@.map_values(|x: Value| json_of(x))),
{
    Value::from(items)
}

/// `Value::from(Map)`: the object with these entries.
#[verifier::external_body]
pub(crate) fn object_value(entries: serde_json::Map<String, Value>) -> (v: Value)
    ensures
        json_of(v) == Json::Obj(entries_of(entries)),
{
    Value::from(entries)
}

/// `Value::clone`: the same document.
#[verifier::external_body]
pub(crate) fn clone_value(v: &Value) -> (c: Value)
    ensures
        json_of(c) == json_of(*v),
{
    v.clone()
}

/// `Map::new`: no entries.
#[verifier::external_body]
pub(crate) fn new_object() -> (m: serde_json::Map<String, Value>)
    ensures
        entries_of(m) == no_entries(),
{
    serde_json::Map::new()
}

/// `Map::insert`: the key has the given value afterwards, and all others keep theirs.
#[verifier::external_body]
pub(crate) fn insert_entry(m: &mut serde_json::Map<String, Value>, key: String, v: Value)
    ensures
        entries_of(*final(m)) == entries_of(*old(m)).insert(key@, json_of(v)),
{
    m.insert(key, v);
}

/// Sets the value of a key.
pub(crate) fn put(m: &mut Object, key: &str, v: Value)
    ensures
        entries_of(*final(m)) == entries_of(*old(m)).insert(key@, json_of(v)),
{
    insert_entry(m, key.to_owned(), v);
}

/// A string.
pub(crate) fn text_value(s: &str) -> (v: Value)
    ensures
        json_of(v) == Json::Str(s@),
{
    string_value(s.to_owned())
}

/// An object with the entry `kind`.
pub(crate) fn tagged(kind: &str) -> (m: Object)
    ensures
        entries_of(m) == map!["kind"@ => Json::Str(kind@)],
{
    let mut m = new_object();
    put(&mut m, "kind", text_value(kind));
    m
}

/// The document, or `null` where there is none.
pub(crate) fn option_value(v: Option<Value>) -> (r: Value)
    ensures
        json_of(r) == match v {
            Some(v) => json_of(v),
            None => Json::Null,
        },
{
    match v {
        Some(v) => v,
        None => null_value(),
    }
}

} // verus!
