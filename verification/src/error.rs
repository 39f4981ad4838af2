//! What can go wrong.

use vstd::prelude::*;

verus! {

/// Why a request cannot be served.
#[derive(Debug)]
pub enum ExecutorError {
    /// The request asks for something that is not offered.
    InvalidRequest(String),
    /// The request names a stored turn that does not exist.
    NotFound(String),
    /// A body is JSON, but not of the expected shape.
    ParseError(String),
    /// A text is not JSON.
    JsonError(serde_json::Error),
    /// Storage failed.
    Storage(StorageError),
}

pub type ExecutorResult<T> = Result<T, ExecutorError>;

/// Why a stored value cannot be read or written.
#[derive(Debug)]
pub enum StorageError {
    /// The store was built without a database.
    NotConfigured,
    /// A stored text is not the JSON that belongs there, or a value could not be written as JSON.
    Json(serde_json::Error),
    /// The database reported a failure.
    Database(String),
}

pub type StoreResult<T> = Result<T, StorageError>;

/// Why the configuration is refused.
#[derive(Debug)]
pub enum ConfigError {
    Config(String),
}

/// The explanation that comes with an error, where this library wrote one.
pub open spec fn explanation(error: ExecutorError) -> Option<Seq<char>> {
    match error {
        ExecutorError::InvalidRequest(m) => Some(m@),
        ExecutorError::NotFound(m) => Some(m@),
        ExecutorError::ParseError(m) => Some(m@),
        ExecutorError::JsonError(_) => None,
        ExecutorError::Storage(_) => None,
    }
}

/// The HTTP status that tells a caller of an error: the caller's fault, a missing turn, or ours.
pub open spec fn status_of(error: ExecutorError) -> int {
    match error {
        ExecutorError::NotFound(_) => 404,
        ExecutorError::Storage(_) => 500,
        _ => 400,
    }
}

impl ExecutorError {
    /// The explanation that comes with the error, where this library wrote one.
    pub fn detail(&self) -> (r: Option<&str>)
        ensures
            match r {
                Some(text) => explanation(*self) == Some(text@),
                None => explanation(*self) is None,
            },
    {
        match self {
            ExecutorError::InvalidRequest(m) => Some(m.as_str()),
            ExecutorError::NotFound(m) => Some(m.as_str()),
            ExecutorError::ParseError(m) => Some(m.as_str()),
            ExecutorError::JsonError(_) => None,
            ExecutorError::Storage(_) => None,
        }
    }

    /// The HTTP status that tells a caller of the error.
    pub fn http_status(&self) -> (r: u16)
        ensures
            r == status_of(*self),
    {
        match self {
            ExecutorError::NotFound(_) => 404,
            ExecutorError::Storage(_) => 500,
            _ => 400,
        }
    }
}

} // verus!
