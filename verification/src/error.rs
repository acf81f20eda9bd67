//! How a file command fails, and the text that the user is shown for it.

use vstd::prelude::*;
use vstd::string::*;

verus! {

/// Which of the two file commands an outcome belongs to.
#[derive(Clone, Copy, Debug, PartialEq, Eq, Structural)]
pub enum Operation {
    Save,
    Open,
}

/// Why a file command ended without a result.
#[derive(Debug, PartialEq, Eq)]
pub enum FileError {
    /// The user closed the dialog without choosing a file.
    Cancelled { operation: Operation },
    /// The file could not be written or read; `detail` is the system's own
    /// description of what went wrong.
    Io { operation: Operation, detail: String },
}

/// A `FileError` with its text as a sequence of characters.
pub enum FileErrorView {
    Cancelled { operation: Operation },
    Io { operation: Operation, detail: Seq<char> },
}

impl View for FileError {
    type V = FileErrorView;

    open spec fn view(&self) -> FileErrorView {
        match self {
            FileError::Cancelled { operation } => FileErrorView::Cancelled {
                operation: *operation,
            },
            FileError::Io { operation, detail } => FileErrorView::Io {
                operation: *operation,
                detail: detail@,
            },
        }
    }
}

/// The whole message for a dialog that was dismissed.
pub open spec fn cancelled_text(operation: Operation) -> Seq<char> {
    match operation {
        Operation::Save => "Save cancelled"@,
        Operation::Open => "Open cancelled"@,
    }
}

/// What stands before the system's description in the message for a failed
/// write or read.
pub open spec fn failure_prefix(operation: Operation) -> Seq<char> {
    match operation {
        Operation::Save => "Failed to write file: "@,
        Operation::Open => "Failed to read file: "@,
    }
}

/// The message shown to the user for an error.
pub open spec fn message_text(error: FileErrorView) -> Seq<char> {
    match error {
        FileErrorView::Cancelled { operation } => cancelled_text(operation),
        FileErrorView::Io { operation, detail } => failure_prefix(operation) + detail,
    }
}

/// The view of what a command hands to the user interface: a text on success,
/// a message on failure.
pub open spec fn answer_view(answer: Result<String, String>) -> Result<Seq<char>, Seq<char>> {
    match answer {
        Ok(text) => Ok(text@),
        Err(message) => Err(message@),
    }
}

impl FileError {
    /// Whether the user dismissed the dialog.
    pub fn is_cancelled(&self) -> (cancelled: bool)
        ensures
            cancelled == (self@ is Cancelled),
    {
        match self {
            FileError::Cancelled { .. } => true,
            FileError::Io { .. } => false,
        }
    }

    /// The command that failed.
    pub fn operation(&self) -> (operation: Operation)
        ensures
            operation == match self@ {
                FileErrorView::Cancelled { operation } => operation,
                FileErrorView::Io { operation, .. } => operation,
            },
    {
        match self {
            FileError::Cancelled { operation } => *operation,
            FileError::Io { operation, .. } => *operation,
        }
    }

    /// The message shown to the user: a fixed sentence for a dismissed dialog,
    /// a fixed prefix followed by the system's description for a failed write
    /// or read.
    pub fn message(&self) -> (text: String)
        ensures
            text@ == message_text(self@),
    {
        match self {
            FileError::Cancelled { operation } => match operation {
                Operation::Save => "Save cancelled".to_owned(),
                Operation::Open => "Open cancelled".to_owned(),
            },
            FileError::Io { operation, detail } => {
                let mut text = match operation {
                    Operation::Save => "Failed to write file: ".to_owned(),
                    Operation::Open => "Failed to read file: ".to_owned(),
                };
                text.append(detail.as_str());
                text
            },
        }
    }
}

} // verus!
