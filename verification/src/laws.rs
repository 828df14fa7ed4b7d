//! What holds of the store's operations taken together.

use vstd::prelude::*;
use crate::error::YankError;
use crate::handler::{delete_spec, get_spec, is_listing, is_persisted, put_spec};
use crate::json::{json_pretty, no_entries};
use crate::text::{lemma_ascending_distinct, lemma_ascending_unique};

verus! {

/// A value that was put under a key is the value found under it.
pub proof fn lemma_put_then_get(entries: Map<Seq<char>, Seq<char>>, key: Seq<char>, value: Seq<char>)
    ensures
        get_spec(put_spec(entries, key, value), key) == Some(value),
{
}

/// Putting under one key leaves what is found under every other key.
pub proof fn lemma_put_keeps_others(
    entries: Map<Seq<char>, Seq<char>>,
    key: Seq<char>,
    value: Seq<char>,
    other: Seq<char>,
)
    requires
        other != key,
    ensures
        get_spec(put_spec(entries, key, value), other) == get_spec(entries, other),
{
}

/// Putting the same value under the same key a second time changes neither the
/// mapping nor the document that is persisted for it.
pub proof fn lemma_put_again_same_document(
    entries: Map<Seq<char>, Seq<char>>,
    key: Seq<char>,
    value: Seq<char>,
)
    ensures
        put_spec(put_spec(entries, key, value), key, value) == put_spec(entries, key, value),
        json_pretty(put_spec(put_spec(entries, key, value), key, value)) == json_pretty(
            put_spec(entries, key, value),
        ),
{
    assert(put_spec(put_spec(entries, key, value), key, value) =~= put_spec(entries, key, value));
}

/// Where the same value is put under the same key twice and the first put gave
/// a document to persist, the second gives the same document, character for
/// character.
pub proof fn lemma_put_again_same_file(
    entries: Map<Seq<char>, Seq<char>>,
    key: Seq<char>,
    value: Seq<char>,
    first: Result<String, YankError>,
    second: Result<String, YankError>,
)
    requires
        is_persisted(put_spec(entries, key, value), first),
        is_persisted(put_spec(put_spec(entries, key, value), key, value), second),
        first is Ok,
    ensures
        second is Ok,
        second->Ok_0@ == first->Ok_0@,
{
    lemma_put_again_same_document(entries, key, value);
}

/// Of two values put under one key, the later one is found.
pub proof fn lemma_put_overwrites(
    entries: Map<Seq<char>, Seq<char>>,
    key: Seq<char>,
    first: Seq<char>,
    second: Seq<char>,
)
    ensures
        get_spec(put_spec(put_spec(entries, key, first), key, second), key) == Some(second),
        put_spec(put_spec(entries, key, first), key, second) == put_spec(entries, key, second),
{
    assert(put_spec(put_spec(entries, key, first), key, second) =~= put_spec(entries, key, second));
}

/// A key that was put and then deleted is not found.
pub proof fn lemma_put_delete_get(entries: Map<Seq<char>, Seq<char>>, key: Seq<char>, value: Seq<char>)
    ensures
        get_spec(delete_spec(put_spec(entries, key, value), key), key) is None,
{
}

/// Deleting a key that the store does not hold leaves the mapping, and so the
/// document persisted for it, as it was.
pub proof fn lemma_delete_absent(entries: Map<Seq<char>, Seq<char>>, key: Seq<char>)
    requires
        !entries.contains_key(key),
    ensures
        delete_spec(entries, key) == entries,
        json_pretty(delete_spec(entries, key)) == json_pretty(entries),
{
    assert(delete_spec(entries, key) =~= entries);
}

/// The empty store holds no value and lists no key.
pub proof fn lemma_empty_store(key: Seq<char>, keys: Seq<Seq<char>>)
    requires
        is_listing(no_entries(), keys),
    ensures
        get_spec(no_entries(), key) is None,
        keys.len() == 0,
{
    if keys.len() > 0 {
        assert(keys.contains(keys[0]));
    }
}

/// A listing holds as many keys as the store, none of them twice.
pub proof fn lemma_listing_distinct(entries: Map<Seq<char>, Seq<char>>, keys: Seq<Seq<char>>, i: int, j: int)
    requires
        is_listing(entries, keys),
        0 <= i < keys.len(),
        0 <= j < keys.len(),
        i != j,
    ensures
        keys[i] != keys[j],
        entries.contains_key(keys[i]),
{
    lemma_ascending_distinct(keys, i, j);
    assert(keys.contains(keys[i]));
}

/// A store has one listing only: what `is_listing` asks of the keys decides
/// every one of them and its place.
pub proof fn lemma_listing_unique(
    entries: Map<Seq<char>, Seq<char>>,
    first: Seq<Seq<char>>,
    second: Seq<Seq<char>>,
)
    requires
        is_listing(entries, first),
        is_listing(entries, second),
    ensures
        first == second,
{
    lemma_ascending_unique(first, second);
}

} // verus!
