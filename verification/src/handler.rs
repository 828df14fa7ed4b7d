//! The store: a mapping from key to value, mirrored in one JSON document.
//!
//! A `Handler` holds the mapping in memory. It neither reads nor writes files:
//! `load_data` takes what reading the data file gave, and every operation that
//! changes the mapping hands back the text that the data file is to hold.
//!
//! A data file that holds valid JSON is read leniently. A member that is not a
//! string is taken as its JSON text, and a document that is not an object is
//! taken as an empty store.

use vstd::prelude::*;
use vstd::string::StringExecFns;
use crate::clipboard::{plan_of, Action, ClipboardWriter, Environment};
pub use crate::error::YankError;
use crate::json::{
    empty_object, json_all_text, json_document, json_entries, json_error_text, json_pretty,
    member_text, no_entries, object_insert, object_keys, object_remove, parse_json, pretty_text,
};
use crate::text::{ascending, texts};

verus! {

/// What reading the data file gave.
#[derive(Debug, PartialEq, Eq)]
pub enum FileRead {
    /// The file's content.
    Content(String),
    /// There is no such file.
    Missing,
    /// Reading failed for another reason, described by the text.
    Failed(String),
}

/// How a deletion went.
#[derive(Debug, PartialEq, Eq)]
pub enum Deletion {
    /// The key was removed; the text is what the data file is to hold now.
    Deleted(String),
    /// The store held no such key; the data file is to be left alone.
    NotPresent,
}

/// The store of one user.
#[derive(Debug)]
pub struct Handler {
    file_path: String,
    data: serde_json::Value,
}

/// Calls `dirs::home_dir` and hands the path out as text, characters that are
/// not Unicode replaced as `to_string_lossy` does. The result depends on the
/// environment of the process, so nothing is claimed of it.
#[verifier::external_body]
pub(crate) fn home_directory() -> (r: Option<String>)
{
    match dirs::home_dir() {
        Some(home) => Some(home.to_string_lossy().into_owned()),
        None => None,
    }
}

/// The place of the data file below the home directory.
pub open spec fn data_file_suffix() -> Seq<char> {
    "/.yank/data.json"@
}

/// The mapping after `value` was put under `key`.
pub open spec fn put_spec(entries: Map<Seq<char>, Seq<char>>, key: Seq<char>, value: Seq<char>) -> Map<
    Seq<char>,
    Seq<char>,
> {
    entries.insert(key, value)
}

/// The mapping after `key` was deleted.
pub open spec fn delete_spec(entries: Map<Seq<char>, Seq<char>>, key: Seq<char>) -> Map<
    Seq<char>,
    Seq<char>,
> {
    entries.remove(key)
}

/// The value under `key`, if there is one.
pub open spec fn get_spec(entries: Map<Seq<char>, Seq<char>>, key: Seq<char>) -> Option<Seq<char>> {
    if entries.contains_key(key) {
        Some(entries[key])
    } else {
        None
    }
}

/// Whether `keys` lists the keys of `entries`: every key, nothing else, in
/// strictly ascending order.
pub open spec fn is_listing(entries: Map<Seq<char>, Seq<char>>, keys: Seq<Seq<char>>) -> bool {
    &&& ascending(keys)
    &&& forall|k: Seq<char>| entries.contains_key(k) <==> keys.contains(k)
}

/// Whether `r` is what persisting `entries` gives: the pretty-printed document,
/// or the printer's failure as a `Json` error.
pub open spec fn is_persisted(entries: Map<Seq<char>, Seq<char>>, r: Result<String, YankError>) -> bool {
    match json_pretty(entries) {
        Some(document) => r is Ok && r->Ok_0@ == document,
        None => r is Err && r->Err_0 is Json,
    }
}

/// Copies a parsed document into an object of strings: each member under its
/// key, as its text.
fn as_text_object(parsed: &serde_json::Value) -> (r: serde_json::Value)
    ensures
        json_all_text(r),
        json_entries(r) == json_entries(*parsed),
{
    let keys = object_keys(parsed);
    let mut data = empty_object();
    let mut i: usize = 0;
    while i < keys.len()
        invariant
            0 <= i <= keys@.len(),
            json_all_text(data),
            forall|k: Seq<char>| json_entries(*parsed).contains_key(k) <==> texts(keys@).contains(k),
            forall|k: Seq<char>|
                json_entries(data).contains_key(k) <==> texts(keys@).subrange(0, i as int).contains(k),
            forall|k: Seq<char>|
                json_entries(data).contains_key(k) ==> json_entries(data)[k] == json_entries(
                    *parsed,
                )[k],
        decreases keys@.len() - i,
    {
        let key = keys[i].as_str();
        proof {
            assert(texts(keys@)[i as int] == key@);
        }
        match member_text(parsed, key) {
            Some(text) => {
                object_insert(&mut data, key, text);
            },
            None => {
                assert(false);
            },
        }
        proof {
            let earlier = texts(keys@).subrange(0, i as int);
            let reached = texts(keys@).subrange(0, i + 1);
            assert forall|k: Seq<char>|
                json_entries(data).contains_key(k) <==> reached.contains(k) by {
                if earlier.contains(k) {
                    let j = choose|j: int| 0 <= j < earlier.len() && earlier[j] == k;
                    assert(reached[j] == k);
                }
                if k == key@ {
                    assert(reached[i as int] == k);
                }
                if reached.contains(k) {
                    let j = choose|j: int| 0 <= j < reached.len() && reached[j] == k;
                    if j < i {
                        assert(earlier[j] == k);
                    }
                }
            }
        }
        i = i + 1;
    }
    proof {
        assert(texts(keys@).subrange(0, i as int) =~= texts(keys@));
        assert(json_entries(data) =~= json_entries(*parsed));
    }
    data
}

impl View for Handler {
    type V = Map<Seq<char>, Seq<char>>;

    /// The mapping that the store holds.
    closed spec fn view(&self) -> Map<Seq<char>, Seq<char>> {
        json_entries(self.data)
    }
}

impl Handler {
    /// The document in memory is an object of strings.
    pub closed spec fn wf(&self) -> bool {
        json_all_text(self.data)
    }

    /// The path of the data file.
    pub closed spec fn path(&self) -> Seq<char> {
        self.file_path@
    }

    /// Opens the store of the user who runs the process: an empty mapping, with
    /// the data file at `.yank/data.json` below the home directory. Where no
    /// home directory can be determined there is no store. Which of the two
    /// happens is for the environment to decide; `with_home` says what follows
    /// from either.
    pub fn new() -> (r: Result<Handler, YankError>)
        ensures
            match r {
                Ok(store) => store.wf() && store@ == no_entries() && exists|home: Seq<char>|
                    store.path() == home + data_file_suffix(),
                Err(e) => e is HomeDirNotFound,
            },
    {
        Handler::with_home(home_directory())
    }

    /// Opens the store of the user whose home directory is `home`: an empty
    /// mapping, with the data file at `.yank/data.json` below that directory.
    /// Without a home directory there is no store.
    pub fn with_home(home: Option<String>) -> (r: Result<Handler, YankError>)
        ensures
            match r {
                Ok(store) => home is Some && store.wf() && store@ == no_entries() && store.path()
                    == home->Some_0@ + data_file_suffix(),
                Err(e) => home is None && e is HomeDirNotFound,
            },
    {
        match home {
            Some(dir) => Ok(
                Handler { file_path: dir.concat("/.yank/data.json"), data: empty_object() },
            ),
            None => Err(YankError::HomeDirNotFound),
        }
    }

    /// The path of the data file.
    pub fn file_path(&self) -> (r: &str)
        ensures
            r@ == self.path(),
    {
        self.file_path.as_str()
    }

    /// Takes over what reading the data file gave. A missing file is an empty
    /// store. A file with valid JSON replaces the mapping by the document's
    /// entries. A file that is not valid JSON is a `Json` error, and a failed
    /// read an `Io` error with the read's own description; either leaves the
    /// mapping as it was.
    pub fn load_data(&mut self, file: FileRead) -> (r: Result<(), YankError>)
        requires
            old(self).wf(),
        ensures
            final(self).wf(),
            final(self).path() == old(self).path(),
            match file {
                FileRead::Missing => r is Ok && final(self)@ == no_entries(),
                FileRead::Failed(detail) => r is Err && r->Err_0 is Io && r->Err_0->Io_0@ == detail@
                    && final(self)@ == old(self)@,
                FileRead::Content(content) => match json_document(content@) {
                    Some(entries) => r is Ok && final(self)@ == entries,
                    None => r is Err && r->Err_0 is Json && final(self)@ == old(self)@,
                },
            },
    {
        match file {
            FileRead::Content(content) => {
                match parse_json(content.as_str()) {
                    Ok(parsed) => {
                        self.data = as_text_object(&parsed);
                        Ok(())
                    },
                    Err(e) => Err(YankError::Json(json_error_text(&e))),
                }
            },
            FileRead::Missing => {
                self.data = empty_object();
                Ok(())
            },
            FileRead::Failed(detail) => Err(YankError::Io(detail)),
        }
    }

    /// The text that the data file is to hold for the mapping as it is: the
    /// whole mapping as one pretty-printed JSON object.
    pub fn save_data(&self) -> (r: Result<String, YankError>)
        requires
            self.wf(),
        ensures
            is_persisted(self@, r),
    {
        match pretty_text(&self.data) {
            Ok(document) => Ok(document),
            Err(e) => Err(YankError::Json(json_error_text(&e))),
        }
    }

    /// The keys of the store, each once, in ascending order.
    pub fn list_keys(&self) -> (r: Vec<String>)
        ensures
            is_listing(self@, texts(r@)),
    {
        object_keys(&self.data)
    }

    /// The value under `key`, or `KeyNotFound` with the key where the store
    /// holds none.
    pub fn get_value(&self, key: &str) -> (r: Result<String, YankError>)
        ensures
            match r {
                Ok(value) => get_spec(self@, key@) == Some(value@),
                Err(e) => get_spec(self@, key@) is None && e is KeyNotFound && e->KeyNotFound_0@
                    == key@,
            },
    {
        match member_text(&self.data, key) {
            Some(value) => Ok(value),
            None => Err(YankError::KeyNotFound(String::from_str(key))),
        }
    }

    /// Puts `value` under `key`, in place of what was there, and hands back the
    /// text that the data file is to hold now. The mapping changes whether or not
    /// that text could be made.
    pub fn set_value(&mut self, key: &str, value: String) -> (r: Result<String, YankError>)
        requires
            old(self).wf(),
        ensures
            final(self).wf(),
            final(self).path() == old(self).path(),
            final(self)@ == put_spec(old(self)@, key@, value@),
            is_persisted(final(self)@, r),
    {
        object_insert(&mut self.data, key, value);
        self.save_data()
    }

    /// Deletes `key`. Where the store holds it, the entry leaves and the result
    /// carries the text that the data file is to hold now. Where it does not, the
    /// result is `NotPresent`, the mapping stays as it was and nothing is to be
    /// written.
    pub fn delete_value(&mut self, key: &str) -> (r: Result<Deletion, YankError>)
        requires
            old(self).wf(),
        ensures
            final(self).wf(),
            final(self).path() == old(self).path(),
            final(self)@ == delete_spec(old(self)@, key@),
            !old(self)@.contains_key(key@) ==> r is Ok && r->Ok_0 is NotPresent && final(self)@
                == old(self)@,
            old(self)@.contains_key(key@) ==> match json_pretty(final(self)@) {
                Some(document) => r is Ok && r->Ok_0 is Deleted && r->Ok_0->Deleted_0@ == document,
                None => r is Err && r->Err_0 is Json,
            },
    {
        if object_remove(&mut self.data, key) {
            match self.save_data() {
                Ok(document) => Ok(Deletion::Deleted(document)),
                Err(e) => Err(e),
            }
        } else {
            assert(self@ =~= old(self)@);
            Ok(Deletion::NotPresent)
        }
    }

    /// Looks up the value to copy and prepares its delivery on the desktop
    /// `env`: the value under `key` and a writer with nothing attempted yet, or
    /// `KeyNotFound` with the key where the store holds none.
    pub fn yank_value(&self, key: &str, env: &Environment) -> (r: Result<
        (String, ClipboardWriter),
        YankError,
    >)
        ensures
            match r {
                Ok(found) => get_spec(self@, key@) == Some(found.0@)
                    && found.1.order() == plan_of(*env) && found.1.failed() == 0
                    && !found.1.succeeded() && found.1.pending() == Action::Attempt(
                    plan_of(*env)[0],
                ),
                Err(e) => get_spec(self@, key@) is None && e is KeyNotFound && e->KeyNotFound_0@
                    == key@,
            },
    {
        match self.get_value(key) {
            Ok(value) => Ok((value, ClipboardWriter::new(env))),
            Err(e) => Err(e),
        }
    }
}

} // verus!
