//! What the file system reports, as plain values.

use crate::timestamp::Timestamp;
use vstd::prelude::*;

verus! {

/// The kinds of failure that the cache tells apart.
#[derive(Clone, Copy, Debug, PartialEq, Eq, Structural)]
pub enum IoErrorKind {
    /// The path does not exist.
    NotFound,
    /// The path exists already.
    AlreadyExists,
    /// Any other failure: no permission, a full disk, a path too long.
    Other,
}

/// A failed file-system operation.
#[derive(Clone, Debug)]
pub struct IoError {
    pub kind: IoErrorKind,
    /// The operation, the path and the system's words, for the user.
    pub message: String,
}

impl IoError {
    /// A failure of the given kind, with the words that describe it.
    pub fn new(kind: IoErrorKind, message: String) -> (error: IoError)
        ensures
            error.kind == kind,
            error.message@ == message@,
    {
        IoError { kind, message }
    }

    /// Whether the failure says that the path does not exist.
    pub fn is_not_found(&self) -> (yes: bool)
        ensures
            yes == (self.kind is NotFound),
    {
        match self.kind {
            IoErrorKind::NotFound => true,
            _ => false,
        }
    }

    /// Whether the failure says that the path exists already.
    pub fn is_already_exists(&self) -> (yes: bool)
        ensures
            yes == (self.kind is AlreadyExists),
    {
        match self.kind {
            IoErrorKind::AlreadyExists => true,
            _ => false,
        }
    }
}

/// What a look at a path found there.
#[derive(Clone, Copy, Debug)]
pub struct FileStat {
    /// Whether the path is a regular file.
    pub is_file: bool,
    /// When the path was last modified.
    pub modified: Timestamp,
}

} // verus!
