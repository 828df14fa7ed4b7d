//! The JSON document behind the store, as `serde_json` holds it.
//!
//! A `serde_json::Value` is opaque to the verifier. What the store needs to know
//! of one is given by two names: the entries it holds, and whether it is an
//! object whose members are all strings. Every function in this file is a thin
//! call into `serde_json`; its contract is taken on trust from that crate's
//! source and documentation.

use vstd::prelude::*;
use crate::text::{ascending, texts};

verus! {

#[verifier::external_type_specification]
#[verifier::external_body]
pub struct ExValue(serde_json::Value);

#[verifier::external_type_specification]
#[verifier::external_body]
pub struct ExJsonError(serde_json::Error);

/// The entries of a JSON value read as a store: each key under which
/// `Value::get` finds a member, mapped to that member's text. The text of a JSON
/// string is the string itself; the text of any other member is its compact JSON
/// rendering. A value that is not an object holds no entries.
pub uninterp spec fn json_entries(v: serde_json::Value) -> Map<Seq<char>, Seq<char>>;

/// Whether a JSON value is an object all of whose members are JSON strings.
pub uninterp spec fn json_all_text(v: serde_json::Value) -> bool;

/// What parsing a text as JSON gives: `None` where the parser rejects the
/// text, else the entries of the parsed value.
pub uninterp spec fn json_document(content: Seq<char>) -> Option<Map<Seq<char>, Seq<char>>>;

/// What pretty-printing gives for the object that holds exactly the given
/// entries, each as a JSON string: the text, or `None` where the printer fails.
pub uninterp spec fn json_pretty(entries: Map<Seq<char>, Seq<char>>) -> Option<Seq<char>>;

/// The store without entries.
pub open spec fn no_entries() -> Map<Seq<char>, Seq<char>> {
    Map::empty()
}

/// Calls `serde_json::from_str` for a `Value`. Whether the parser accepts the
/// text, and with which entries, depends on the text alone: it is what
/// `json_document` names for the text.
#[verifier::external_body]
pub(crate) fn parse_json(content: &str) -> (r: Result<serde_json::Value, serde_json::Error>)
    ensures
        r is Ok <==> json_document(content@) is Some,
        r is Ok ==> json_entries(r->Ok_0) == json_document(content@)->Some_0,
{
    serde_json::from_str::<serde_json::Value>(content)
}

/// Renders a `serde_json::Error` through its `Display` impl. Nothing is claimed
/// of the text.
#[verifier::external_body]
pub(crate) fn json_error_text(e: &serde_json::Error) -> (r: String)
{
    e.to_string()
}

/// Builds `Value::Object` over `serde_json::Map::new()`: an object without
/// members.
#[verifier::external_body]
pub(crate) fn empty_object() -> (r: serde_json::Value)
    ensures
        json_all_text(r),
        json_entries(r) == no_entries(),
{
    serde_json::Value::Object(serde_json::Map::new())
}

/// Calls `serde_json::Map::insert` on an object, with the value as a JSON
/// string: the key then maps to the value, whatever it mapped to before, and
/// every other entry stays.
#[verifier::external_body]
pub(crate) fn object_insert(v: &mut serde_json::Value, key: &str, value: String)
    requires
        json_all_text(*old(v)),
    ensures
        json_all_text(*final(v)),
        json_entries(*final(v)) == json_entries(*old(v)).insert(key@, value@),
{
    if let serde_json::Value::Object(members) = v {
        members.insert(key.to_owned(), serde_json::Value::String(value));
    }
}

/// Calls `serde_json::Map::remove` on an object: the key's entry leaves, every
/// other entry stays, and the result says whether the key had an entry.
#[verifier::external_body]
pub(crate) fn object_remove(v: &mut serde_json::Value, key: &str) -> (r: bool)
    requires
        json_all_text(*old(v)),
    ensures
        json_all_text(*final(v)),
        json_entries(*final(v)) == json_entries(*old(v)).remove(key@),
        r == json_entries(*old(v)).contains_key(key@),
{
    match v {
        serde_json::Value::Object(members) => members.remove(key).is_some(),
        _ => false,
    }
}

/// Calls `serde_json::Value::get` with a string key and hands out the member's
/// text: the string itself for a JSON string, the `Display` rendering of any
/// other member. The result is `Some` exactly for the keys that have an entry.
#[verifier::external_body]
pub(crate) fn member_text(v: &serde_json::Value, key: &str) -> (r: Option<String>)
    ensures
        r is Some <==> json_entries(*v).contains_key(key@),
        r is Some ==> r->Some_0@ == json_entries(*v)[key@],
{
    match v.get(key) {
        Some(serde_json::Value::String(s)) => Some(s.clone()),
        Some(other) => Some(other.to_string()),
        None => None,
    }
}

/// Calls `serde_json::Map::keys` on an object and collects the keys. The map is
/// a `BTreeMap` keyed by `String`, so the keys come in ascending order, each
/// once; they are exactly the keys that have an entry. A value that is not an
/// object gives no keys.
#[verifier::external_body]
pub(crate) fn object_keys(v: &serde_json::Value) -> (r: Vec<String>)
    ensures
        ascending(texts(r@)),
        forall|k: Seq<char>| json_entries(*v).contains_key(k) <==> texts(r@).contains(k),
{
    match v.as_object() {
        Some(members) => members.keys().cloned().collect(),
        None => Vec::new(),
    }
}

/// Calls `serde_json::to_string_pretty` on an object of strings. The members of
/// such an object are its entries and nothing else, so whether the call
/// succeeds, and with which text, is what `json_pretty` names for the entries.
#[verifier::external_body]
pub(crate) fn pretty_text(v: &serde_json::Value) -> (r: Result<String, serde_json::Error>)
    requires
        json_all_text(*v),
    ensures
        r is Ok <==> json_pretty(json_entries(*v)) is Some,
        r is Ok ==> r->Ok_0@ == json_pretty(json_entries(*v))->Some_0,
{
    serde_json::to_string_pretty(v)
}

} // verus!
