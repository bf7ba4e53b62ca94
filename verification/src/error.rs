//! The ways in which a staged write can fail.

use vstd::prelude::*;

verus! {

/// Why an operation on a writer failed.
#[derive(Debug, PartialEq, Eq)]
pub enum WriterError {
    /// A file-system operation failed; holds the system's message.
    Io(String),
    /// The destination exists and the writer may not overwrite it; holds the
    /// destination path.
    AlreadyExists(String),
    /// The writer's temporary file has already been handed over to a commit.
    InvalidState,
    /// The sync after the rename failed and the destination could not be
    /// removed again: the destination is left in an indeterminate state.
    RollbackFailed { sync: String, removal: String },
}

/// The mathematical value of a [`WriterError`].
pub enum ErrorView {
    Io(Seq<char>),
    AlreadyExists(Seq<char>),
    InvalidState,
    RollbackFailed { sync: Seq<char>, removal: Seq<char> },
}

impl View for WriterError {
    type V = ErrorView;

    open spec fn view(&self) -> ErrorView {
        match *self {
            WriterError::Io(message) => ErrorView::Io(message@),
            WriterError::AlreadyExists(path) => ErrorView::AlreadyExists(path@),
            WriterError::InvalidState => ErrorView::InvalidState,
            WriterError::RollbackFailed { sync, removal } => ErrorView::RollbackFailed {
                sync: sync@,
                removal: removal@,
            },
        }
    }
}

/// What is reported for an operation on a writer whose temporary file is gone.
pub open spec fn closed_file_message() -> Seq<char> {
    "I/O operation on closed file."@
}

impl ErrorView {
    /// The text that describes the error: the system's message for an I/O
    /// failure, the destination path where it already exists, and the message
    /// of the failed removal where a rollback failed.
    pub open spec fn message(self) -> Seq<char> {
        match self {
            ErrorView::Io(message) => message,
            ErrorView::AlreadyExists(path) => path,
            ErrorView::InvalidState => closed_file_message(),
            ErrorView::RollbackFailed { sync, removal } => removal,
        }
    }
}

impl WriterError {
    /// The text that describes this error.
    pub fn message(&self) -> (text: String)
        ensures
            text@ == self@.message(),
    {
        match self {
            WriterError::Io(message) => message.clone(),
            WriterError::AlreadyExists(path) => path.clone(),
            WriterError::InvalidState => "I/O operation on closed file.".to_owned(),
            WriterError::RollbackFailed { sync: _, removal } => removal.clone(),
        }
    }
}

} // verus!
