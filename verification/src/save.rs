//! Saving a drawing: where it goes, what is written, and what the command
//! answers.
//!
//! The application's `save_excalidraw_file` command begins with `begin_save`,
//! does what each step asks for, hands every answer to `save_step`, and gives
//! the user interface what `save_command_result` makes of the outcome.

use vstd::prelude::*;
use crate::dialog::{save_dialog, save_dialog_view, FileDialog, FileDialogView};
use crate::error::{answer_view, message_text, FileError, FileErrorView, Operation};
use crate::location::{PickedLocation, PickedLocationView};

verus! {

/// Where the path of the file to write comes from.
#[derive(Debug, PartialEq, Eq)]
pub enum PathSource {
    /// The caller supplied the path. It is used as it is: nothing checks that
    /// it exists, and no directory is created for it.
    Explicit(String),
    /// The user is asked for it in a save dialog.
    Interactive,
}

/// A `PathSource` with its path as a sequence of characters.
pub enum PathSourceView {
    Explicit(Seq<char>),
    Interactive,
}

impl View for PathSource {
    type V = PathSourceView;

    open spec fn view(&self) -> PathSourceView {
        match self {
            PathSource::Explicit(path) => PathSourceView::Explicit(path@),
            PathSource::Interactive => PathSourceView::Interactive,
        }
    }
}

/// The view of a path that may be missing.
pub open spec fn optional_path_view(path: Option<String>) -> Option<Seq<char>> {
    match path {
        Some(path) => Some(path@),
        None => None,
    }
}

/// The source that an optional path stands for: the path itself where there
/// is one, the dialog where there is none.
pub open spec fn path_source_of(path: Option<Seq<char>>) -> PathSourceView {
    match path {
        Some(path) => PathSourceView::Explicit(path),
        None => PathSourceView::Interactive,
    }
}

/// One request to save: the document's text, which is never looked into, and
/// where to put it.
#[derive(Debug, PartialEq, Eq)]
pub struct SaveRequest {
    pub serialized_content: String,
    pub destination: PathSource,
}

/// A `SaveRequest` with its texts as sequences of characters.
pub struct SaveRequestView {
    pub serialized_content: Seq<char>,
    pub destination: PathSourceView,
}

impl View for SaveRequest {
    type V = SaveRequestView;

    open spec fn view(&self) -> SaveRequestView {
        SaveRequestView {
            serialized_content: self.serialized_content@,
            destination: self.destination@,
        }
    }
}

impl SaveRequest {
    /// The request for a document and a path that the caller may have left
    /// out.
    pub fn new(serialized_content: String, destination_path: Option<String>) -> (request:
        SaveRequest)
        ensures
            request@ == (SaveRequestView {
                serialized_content: serialized_content@,
                destination: path_source_of(optional_path_view(destination_path)),
            }),
    {
        let destination = match destination_path {
            Some(path) => PathSource::Explicit(path),
            None => PathSource::Interactive,
        };
        SaveRequest { serialized_content, destination }
    }
}

/// How a save ends: with the path that was written to, or with an error.
pub open spec fn save_outcome_view(outcome: Result<String, FileError>) -> Result<
    Seq<char>,
    FileErrorView,
> {
    match outcome {
        Ok(path) => Ok(path@),
        Err(error) => Err(error@),
    }
}

/// Where a save stands: what the caller has to do next, or how it ended.
#[derive(Debug, PartialEq, Eq)]
pub enum SaveStep {
    /// Show the save dialog set up as `dialog` and wait for the user.
    /// `content` is kept for the write that follows a choice.
    AskLocation { dialog: FileDialog, content: String },
    /// Write `content` as the whole text of the file at `path`, replacing
    /// whatever the file held.
    WriteText { path: String, content: String },
    /// Nothing is left to do.
    Finished(Result<String, FileError>),
}

/// A `SaveStep` with its texts as sequences of characters.
pub enum SaveStepView {
    AskLocation { dialog: FileDialogView, content: Seq<char> },
    WriteText { path: Seq<char>, content: Seq<char> },
    Finished(Result<Seq<char>, FileErrorView>),
}

impl View for SaveStep {
    type V = SaveStepView;

    open spec fn view(&self) -> SaveStepView {
        match self {
            SaveStep::AskLocation { dialog, content } => SaveStepView::AskLocation {
                dialog: dialog@,
                content: content@,
            },
            SaveStep::WriteText { path, content } => SaveStepView::WriteText {
                path: path@,
                content: content@,
            },
            SaveStep::Finished(outcome) => SaveStepView::Finished(save_outcome_view(*outcome)),
        }
    }
}

/// How a write ended: well, or with the system's description of the failure.
pub open spec fn written_view(outcome: Result<(), String>) -> Result<(), Seq<char>> {
    match outcome {
        Ok(()) => Ok(()),
        Err(detail) => Err(detail@),
    }
}

/// What the caller hands back after it has done what a step asked for.
#[derive(Debug, PartialEq, Eq)]
pub enum SaveReply {
    /// The save dialog was closed, with a file or without.
    Located(PickedLocation),
    /// The write was attempted.
    Written(Result<(), String>),
}

/// A `SaveReply` with its texts as sequences of characters.
pub enum SaveReplyView {
    Located(PickedLocationView),
    Written(Result<(), Seq<char>>),
}

impl View for SaveReply {
    type V = SaveReplyView;

    open spec fn view(&self) -> SaveReplyView {
        match self {
            SaveReply::Located(picked) => SaveReplyView::Located(picked@),
            SaveReply::Written(outcome) => SaveReplyView::Written(written_view(*outcome)),
        }
    }
}

/// The first step of a save. With a path at hand the write is ordered at
/// once, at that very path; without one the user is asked first.
pub open spec fn save_start(request: SaveRequestView) -> SaveStepView {
    match request.destination {
        PathSourceView::Explicit(path) => SaveStepView::WriteText {
            path,
            content: request.serialized_content,
        },
        PathSourceView::Interactive => SaveStepView::AskLocation {
            dialog: save_dialog_view(),
            content: request.serialized_content,
        },
    }
}

/// The step that follows `step` once `reply` has come in.
///
/// A chosen file is written to; a dismissed dialog ends the save with the
/// cancellation, before anything is written. A write that went well ends the
/// save with the path; one that failed ends it with the failure, carrying the
/// system's description. A reply that does not answer the step leaves it as it
/// is, and a finished save stays finished.
pub open spec fn save_next(step: SaveStepView, reply: SaveReplyView) -> SaveStepView {
    match (step, reply) {
        (
            SaveStepView::AskLocation { dialog, content },
            SaveReplyView::Located(PickedLocationView::Chosen(path)),
        ) => SaveStepView::WriteText { path, content },
        (
            SaveStepView::AskLocation { dialog, content },
            SaveReplyView::Located(PickedLocationView::Cancelled),
        ) => SaveStepView::Finished(Err(FileErrorView::Cancelled { operation: Operation::Save })),
        (SaveStepView::WriteText { path, content }, SaveReplyView::Written(Ok(()))) => {
            SaveStepView::Finished(Ok(path))
        },
        (SaveStepView::WriteText { path, content }, SaveReplyView::Written(Err(detail))) => {
            SaveStepView::Finished(
                Err(FileErrorView::Io { operation: Operation::Save, detail }),
            )
        },
        _ => step,
    }
}

/// What the command answers for an outcome: the path, or the error's message.
pub open spec fn save_answer(outcome: Result<Seq<char>, FileErrorView>) -> Result<
    Seq<char>,
    Seq<char>,
> {
    match outcome {
        Ok(path) => Ok(path),
        Err(error) => Err(message_text(error)),
    }
}

/// Begins a save: decides whether the user has to be asked for the path.
pub fn begin_save(request: SaveRequest) -> (step: SaveStep)
    ensures
        step@ == save_start(request@),
{
    match request.destination {
        PathSource::Explicit(path) => SaveStep::WriteText {
            path,
            content: request.serialized_content,
        },
        PathSource::Interactive => SaveStep::AskLocation {
            dialog: save_dialog(),
            content: request.serialized_content,
        },
    }
}

/// Takes the save one step further with the answer to what `step` asked for.
pub fn save_step(step: SaveStep, reply: SaveReply) -> (next: SaveStep)
    ensures
        next@ == save_next(step@, reply@),
{
    match step {
        SaveStep::AskLocation { dialog, content } => match reply {
            SaveReply::Located(PickedLocation::Chosen(path)) => SaveStep::WriteText {
                path,
                content,
            },
            SaveReply::Located(PickedLocation::Cancelled) => SaveStep::Finished(
                Err(FileError::Cancelled { operation: Operation::Save }),
            ),
            SaveReply::Written(_) => SaveStep::AskLocation { dialog, content },
        },
        SaveStep::WriteText { path, content } => match reply {
            SaveReply::Written(Ok(())) => SaveStep::Finished(Ok(path)),
            SaveReply::Written(Err(detail)) => SaveStep::Finished(
                Err(FileError::Io { operation: Operation::Save, detail }),
            ),
            SaveReply::Located(_) => SaveStep::WriteText { path, content },
        },
        SaveStep::Finished(outcome) => SaveStep::Finished(outcome),
    }
}

/// Turns the outcome of a save into what the command hands to the user
/// interface: the path that was written to, for later saves, or the message
/// to show.
pub fn save_command_result(outcome: Result<String, FileError>) -> (answer: Result<String, String>)
    ensures
        answer_view(answer) == save_answer(save_outcome_view(outcome)),
{
    match outcome {
        Ok(path) => Ok(path),
        Err(error) => Err(error.message()),
    }
}

} // verus!
