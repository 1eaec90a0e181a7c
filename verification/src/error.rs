//! How a load can fail, and how a session can end.

use vstd::prelude::*;

verus! {

/// The ways in which loading a configuration can fail. Each variant but the
/// first carries the diagnostic of the collaborator that failed.
#[derive(Debug, PartialEq, Eq)]
pub enum LoadError {
    /// The extension token names no format; the token is carried as given.
    InvalidExtension(String),
    /// The file could not be read.
    Io(String),
    /// The file's text is not valid in the format that the extension names.
    Decode(String),
    /// The interactive construction of a value failed or was aborted.
    Prompt(String),
    /// A value built by the prompt could not be encoded or written.
    Persist(String),
}

/// How a session ended.
#[derive(Debug, PartialEq, Eq)]
pub enum Outcome<T> {
    /// A value, decoded from the file or built by the prompt. Nothing went
    /// wrong; a prompted value was saved unless the user declined.
    Ready(T),
    /// A value built by the prompt that was meant to be saved, with the
    /// diagnostic of the encoder or of the write that failed. The value is
    /// usable, but the file does not hold it.
    Unsaved { value: T, diagnostic: String },
    /// No value.
    Failed(LoadError),
}

impl<T> Outcome<T> {
    /// The outcome as a `Result`: a value that could not be saved counts as
    /// the failure to save it.
    pub open spec fn as_result(self) -> Result<T, LoadError> {
        match self {
            Outcome::Ready(value) => Ok(value),
            Outcome::Unsaved { value, diagnostic } => Err(LoadError::Persist(diagnostic)),
            Outcome::Failed(error) => Err(error),
        }
    }

    /// The value that the session produced, saved or not.
    pub open spec fn as_value(self) -> Option<T> {
        match self {
            Outcome::Ready(value) => Some(value),
            Outcome::Unsaved { value, diagnostic } => Some(value),
            Outcome::Failed(error) => None,
        }
    }

    /// The failure that the session met, if any.
    pub open spec fn as_error(self) -> Option<LoadError> {
        match self.as_result() {
            Ok(value) => None,
            Err(error) => Some(error),
        }
    }

    /// Turns the outcome into a `Result`, giving up a value that could not
    /// be saved in favour of the `Persist` error.
    pub fn into_result(self) -> (result: Result<T, LoadError>)
        ensures
            result == self.as_result(),
    {
        match self {
            Outcome::Ready(value) => Ok(value),
            Outcome::Unsaved { value, diagnostic } => Err(LoadError::Persist(diagnostic)),
            Outcome::Failed(error) => Err(error),
        }
    }

    /// Splits the outcome into the value, if there is one, and the error, if
    /// there is one. Both are present exactly when a value could not be saved.
    pub fn into_parts(self) -> (parts: (Option<T>, Option<LoadError>))
        ensures
            parts.0 == self.as_value(),
            parts.1 == self.as_error(),
    {
        match self {
            Outcome::Ready(value) => (Some(value), None),
            Outcome::Unsaved { value, diagnostic } => (
                Some(value),
                Some(LoadError::Persist(diagnostic)),
            ),
            Outcome::Failed(error) => (None, Some(error)),
        }
    }
}

} // verus!
