//! The command line as parsed, and what it asks of the store.

use vstd::prelude::*;
use vstd::string::StringExecFns;
use crate::clipboard::{plan_of, Action, ClipboardWriter, Environment};
use crate::error::YankError;
use crate::handler::{get_spec, is_listing, put_spec, delete_spec, Deletion, Handler};
use crate::json::json_pretty;
use crate::text::texts;

verus! {

/// The arguments of one invocation.
#[derive(Debug, PartialEq, Eq)]
pub struct Cli {
    /// Key to yank (default action)
    pub key: Option<String>,
    /// The command, where one was given.
    pub command: Option<Commands>,
}

/// The commands besides the default action.
#[derive(Debug, PartialEq, Eq)]
pub enum Commands {
    /// Store a value under a key
    Put {
        /// The key to store the value under
        key: String,
        /// The value to store
        value: String,
    },
    /// Delete a stored key
    Delete {
        /// The key to delete
        key: String,
    },
    /// List all stored keys
    Ls,
}

/// The one operation that an invocation asks for.
#[derive(Debug, PartialEq, Eq)]
pub enum Request {
    /// List the keys.
    List,
    /// Put the value under the key.
    Put { key: String, value: String },
    /// Delete the key.
    Delete { key: String },
    /// Look the key up and copy its value.
    Yank { key: String },
}

/// What an operation gave, for the caller to write, print or copy.
#[derive(Debug)]
pub enum Outcome {
    /// The keys, in ascending order.
    Keys(Vec<String>),
    /// The value was stored; the text is what the data file is to hold now.
    Stored(String),
    /// How the deletion of the key went.
    Removed { key: String, deletion: Deletion },
    /// The value to copy, and the writer that delivers it.
    Found(String, ClipboardWriter),
}

/// The operation that the arguments ask for. A command comes before a bare
/// key; with neither there is nothing to do, which is `NoKeyProvided`.
pub open spec fn request_of(cli: Cli) -> Option<Request> {
    match cli.command {
        Some(Commands::Ls) => Some(Request::List),
        Some(Commands::Put { key, value }) => Some(Request::Put { key, value }),
        Some(Commands::Delete { key }) => Some(Request::Delete { key }),
        None => match cli.key {
            Some(key) => Some(Request::Yank { key }),
            None => None,
        },
    }
}

/// The operation that the arguments ask for, or `NoKeyProvided` where they name
/// neither a command nor a key.
pub fn dispatch(cli: Cli) -> (r: Result<Request, YankError>)
    ensures
        match request_of(cli) {
            Some(request) => r == Ok::<Request, YankError>(request),
            None => r is Err && r->Err_0 is NoKeyProvided,
        },
{
    match cli.command {
        Some(Commands::Ls) => Ok(Request::List),
        Some(Commands::Put { key, value }) => Ok(Request::Put { key, value }),
        Some(Commands::Delete { key }) => Ok(Request::Delete { key }),
        None => match cli.key {
            Some(key) => Ok(Request::Yank { key }),
            None => Err(YankError::NoKeyProvided),
        },
    }
}

/// Performs one operation on a loaded store, for the desktop `env`. Listing
/// and looking up leave the mapping as it is; putting and deleting change it as
/// `Handler::set_value` and `Handler::delete_value` do.
pub fn perform(store: &mut Handler, request: Request, env: &Environment) -> (r: Result<
    Outcome,
    YankError,
>)
    requires
        old(store).wf(),
    ensures
        final(store).wf(),
        final(store).path() == old(store).path(),
        match request {
            Request::List => final(store)@ == old(store)@ && r is Ok && r->Ok_0 is Keys
                && is_listing(old(store)@, texts(r->Ok_0->Keys_0@)),
            Request::Put { key, value } => final(store)@ == put_spec(old(store)@, key@, value@)
                && match json_pretty(final(store)@) {
                Some(document) => r is Ok && r->Ok_0 is Stored && r->Ok_0->Stored_0@ == document,
                None => r is Err && r->Err_0 is Json,
            },
            Request::Delete { key } => final(store)@ == delete_spec(old(store)@, key@) && (
            !old(store)@.contains_key(key@) ==> r is Ok && r->Ok_0 is Removed
                && r->Ok_0->Removed_key@ == key@ && r->Ok_0->Removed_deletion is NotPresent) && (
            old(store)@.contains_key(key@) ==> match json_pretty(final(store)@) {
                Some(document) => r is Ok && r->Ok_0 is Removed && r->Ok_0->Removed_key@ == key@
                    && r->Ok_0->Removed_deletion is Deleted
                    && r->Ok_0->Removed_deletion->Deleted_0@ == document,
                None => r is Err && r->Err_0 is Json,
            }),
            Request::Yank { key } => final(store)@ == old(store)@ && match get_spec(
                old(store)@,
                key@,
            ) {
                Some(value) => r is Ok && r->Ok_0 is Found && r->Ok_0->Found_0@ == value
                    && r->Ok_0->Found_1.order() == plan_of(*env)
                    && r->Ok_0->Found_1.pending() == Action::Attempt(plan_of(*env)[0]),
                None => r is Err && r->Err_0 is KeyNotFound && r->Err_0->KeyNotFound_0@ == key@,
            },
        },
{
    match request {
        Request::List => Ok(Outcome::Keys(store.list_keys())),
        Request::Put { key, value } => match store.set_value(key.as_str(), value) {
            Ok(document) => Ok(Outcome::Stored(document)),
            Err(e) => Err(e),
        },
        Request::Delete { key } => match store.delete_value(key.as_str()) {
            Ok(deletion) => Ok(Outcome::Removed { key, deletion }),
            Err(e) => Err(e),
        },
        Request::Yank { key } => match store.yank_value(key.as_str(), env) {
            Ok(found) => Ok(Outcome::Found(found.0, found.1)),
            Err(e) => Err(e),
        },
    }
}

impl Outcome {
    /// The lines that tell the user of an outcome: the keys, one to a line, or
    /// that there are none; that the value was set; that the key was deleted,
    /// or that it was not there; the value that was copied, and that it was.
    pub open spec fn lines_of(self) -> Seq<Seq<char>> {
        match self {
            Outcome::Keys(keys) => if keys@.len() == 0 {
                seq!["No keys stored."@]
            } else {
                texts(keys@)
            },
            Outcome::Stored(_) => seq!["Value set successfully!"@],
            Outcome::Removed { key, deletion } => match deletion {
                Deletion::Deleted(_) => seq!["Value deleted successfully!"@],
                Deletion::NotPresent => seq!["Key '"@ + key@ + "' not found"@],
            },
            Outcome::Found(value, _) => seq![value@, "Copied to clipboard!"@],
        }
    }

    /// The lines to print for this outcome, once what it carries has been
    /// written or copied.
    pub fn lines(&self) -> (r: Vec<String>)
        ensures
            texts(r@) == self.lines_of(),
    {
        let mut out: Vec<String> = Vec::new();
        match self {
            Outcome::Keys(keys) => {
                if keys.len() == 0 {
                    out.push(String::from_str("No keys stored."));
                } else {
                    let mut i: usize = 0;
                    while i < keys.len()
                        invariant
                            0 <= i <= keys@.len(),
                            texts(out@) == texts(keys@).subrange(0, i as int),
                        decreases keys@.len() - i,
                    {
                        let ghost before = out@;
                        let key = keys[i].clone();
                        out.push(key);
                        proof {
                            assert(texts(out@) =~= texts(before).push(key@));
                            assert(texts(keys@).subrange(0, i + 1) =~= texts(keys@).subrange(
                                0,
                                i as int,
                            ).push(key@));
                        }
                        i = i + 1;
                    }
                    assert(texts(keys@).subrange(0, i as int) =~= texts(keys@));
                }
            },
            Outcome::Stored(_) => {
                out.push(String::from_str("Value set successfully!"));
            },
            Outcome::Removed { key, deletion } => match deletion {
                Deletion::Deleted(_) => {
                    out.push(String::from_str("Value deleted successfully!"));
                },
                Deletion::NotPresent => {
                    out.push(String::from_str("Key '").concat(key.as_str()).concat("' not found"));
                },
            },
            Outcome::Found(value, _) => {
                out.push(value.clone());
                out.push(String::from_str("Copied to clipboard!"));
            },
        }
        assert(texts(out@) =~= self.lines_of());
        out
    }
}

} // verus!
