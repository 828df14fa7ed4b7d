//! What can go wrong, and how it is told to the user.

use vstd::prelude::*;
use vstd::string::StringExecFns;

verus! {

/// The failures of the store and of the clipboard.
#[derive(Debug, PartialEq, Eq)]
pub enum YankError {
    /// Neither a key nor a command was given.
    NoKeyProvided,
    /// The user's home directory could not be determined.
    HomeDirNotFound,
    /// Reading, writing or creating a file failed; the text describes how.
    Io(String),
    /// The data file does not hold valid JSON; the text describes where.
    Json(String),
    /// The clipboard could not be set; the text says what to do about it.
    Clipboard(String),
    /// The store holds no value under this key.
    KeyNotFound(String),
}

impl YankError {
    /// The message of an error, as the user reads it.
    pub open spec fn message_of(self) -> Seq<char> {
        match self {
            YankError::NoKeyProvided => "No key provided"@,
            YankError::HomeDirNotFound => "Could not find home directory"@,
            YankError::Io(detail) => "I/O error: "@ + detail@,
            YankError::Json(detail) => "Failed to parse data file: "@ + detail@,
            YankError::Clipboard(detail) => "Clipboard error: "@ + detail@,
            YankError::KeyNotFound(key) => "No value found for '"@ + key@ + "'"@,
        }
    }

    /// The message of this error, as the user reads it.
    pub fn message(&self) -> (r: String)
        ensures
            r@ == self.message_of(),
    {
        match self {
            YankError::NoKeyProvided => String::from_str("No key provided"),
            YankError::HomeDirNotFound => String::from_str("Could not find home directory"),
            YankError::Io(detail) => String::from_str("I/O error: ").concat(detail.as_str()),
            YankError::Json(detail) => String::from_str("Failed to parse data file: ").concat(
                detail.as_str(),
            ),
            YankError::Clipboard(detail) => String::from_str("Clipboard error: ").concat(
                detail.as_str(),
            ),
            YankError::KeyNotFound(key) => String::from_str("No value found for '").concat(
                key.as_str(),
            ).concat("'"),
        }
    }
}

} // verus!
