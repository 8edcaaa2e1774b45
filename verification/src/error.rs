//! The error taxonomy of the synchronization protocol.
//!
//! Every failure is classified by an `ErrorKind` and carries one diagnostic
//! line; no error is recovered from, each aborts the enclosing operation.

use vstd::prelude::*;

verus! {

/// The failure classes a synchronization run can end with.
#[derive(Clone, Copy, PartialEq, Eq, Structural, Debug)]
pub enum ErrorKind {
    /// The working tree or index differs from HEAD before a run.
    RepositoryDirty,
    /// The current branch is a backup branch.
    OnBackupBranch,
    /// No local or remote branch matches a requested name.
    BranchNotFound,
    /// Local history has diverged from upstream.
    NotFastForward,
    /// Fetching from a remote failed.
    FetchFailed,
    /// Creating a commit failed.
    CommitFailed,
    /// Pushing a branch failed.
    PushFailed,
    /// Deleting a branch failed.
    DeleteBranchFailed,
    /// Mirroring files between host and repository failed.
    CopyFailed,
    /// The mirrored-file configuration could not be loaded.
    ConfigLoadFailed,
}

/// The mathematical content of an `Error`: its class and diagnostic line.
pub struct ErrorV {
    pub kind: ErrorKind,
    pub message: Seq<char>,
}

/// A classified failure with one diagnostic line.
#[derive(Debug)]
pub struct Error {
    kind: ErrorKind,
    message: String,
}

impl View for Error {
    type V = ErrorV;

    closed spec fn view(&self) -> ErrorV {
        ErrorV { kind: self.kind, message: self.message@ }
    }
}

impl Error {
    /// Packs a failure class with its diagnostic line.
    pub fn new(kind: ErrorKind, message: String) -> (r: Error)
        ensures
            r@ == (ErrorV { kind, message: message@ }),
    {
        Error { kind, message }
    }

    /// The diagnostic line, surfaced verbatim to the caller.
    pub fn error(&self) -> (r: &str)
        ensures
            r@ == self@.message,
    {
        self.message.as_str()
    }

    /// The failure class.
    pub fn kind(&self) -> (r: ErrorKind)
        ensures
            r == self@.kind,
    {
        self.kind
    }
}

} // verus!
