//! Outcomes of chooser interactions and file operations, and the exact
//! user-facing text for each failure.

use vstd::prelude::*;

verus! {

/// Why a chooser interaction or a file operation failed.
#[derive(Clone, Copy, Debug, PartialEq, Eq, Structural)]
pub enum FailureReason {
    /// The native file chooser could not be constructed.
    DialogConstruction,
    /// The user confirmed a selection but the chosen path could not be
    /// retrieved.
    PathRetrieval,
    /// The path could not be opened for reading.
    FileOpen,
    /// The bytes read could not be interpreted as text.
    FileDecode,
    /// The path could not be created or truncated for writing.
    FileCreate,
    /// Not all bytes could be written.
    FileWrite,
}

impl FailureReason {
    /// The user-facing description of this failure.
    pub open spec fn message_spec(self) -> Seq<char> {
        match self {
            FailureReason::DialogConstruction => "dialog construction error"@,
            FailureReason::PathRetrieval => "path retrieval error"@,
            FailureReason::FileOpen => "open error"@,
            FailureReason::FileDecode => "decode error"@,
            FailureReason::FileCreate => "create error"@,
            FailureReason::FileWrite => "write error"@,
        }
    }

    /// Renders the reason as the exact text shown to the user.
    pub fn message(&self) -> (r: String)
        ensures
            r@ == self.message_spec(),
    {
        match self {
            FailureReason::DialogConstruction => "dialog construction error".to_owned(),
            FailureReason::PathRetrieval => "path retrieval error".to_owned(),
            FailureReason::FileOpen => "open error".to_owned(),
            FailureReason::FileDecode => "decode error".to_owned(),
            FailureReason::FileCreate => "create error".to_owned(),
            FailureReason::FileWrite => "write error".to_owned(),
        }
    }
}

/// The outcome of one whole-file operation.
#[derive(Clone, Copy, Debug, PartialEq, Eq, Structural)]
pub enum FileOpOutcome {
    /// The operation completed.
    Success,
    /// The operation failed for this reason.
    Failure(FailureReason),
}

/// The outcome of one modal file-chooser interaction, consumed immediately
/// by the shell.
#[derive(Clone, Debug, PartialEq, Eq)]
pub enum PickerResult {
    /// The user confirmed this path.
    Chosen(String),
    /// The user dismissed the chooser; a normal outcome, not an error.
    Cancelled,
    /// The chooser could not be built or the selection could not be read.
    Failed(FailureReason),
}

} // verus!
