//! Opening a file: which one, what is read, and what the command answers.
//!
//! The application's `open_excalidraw_file` command begins with `begin_open`,
//! does what each step asks for, hands every answer to `open_step`, and gives
//! the user interface what `open_command_result` makes of the outcome.

use vstd::prelude::*;
use crate::dialog::{open_dialog, open_dialog_view, FileDialog, FileDialogView};
use crate::error::{answer_view, message_text, FileError, FileErrorView, Operation};
use crate::location::{PickedLocation, PickedLocationView};

verus! {

/// A file that was picked and read. There is no such value for a file that
/// was only picked, or only partly read.
#[derive(Debug, PartialEq, Eq)]
pub struct OpenResult {
    pub file_path: String,
    pub contents: String,
}

/// An `OpenResult` with its texts as sequences of characters.
pub struct OpenResultView {
    pub file_path: Seq<char>,
    pub contents: Seq<char>,
}

impl View for OpenResult {
    type V = OpenResultView;

    open spec fn view(&self) -> OpenResultView {
        OpenResultView { file_path: self.file_path@, contents: self.contents@ }
    }
}

/// How an open ends: with the file and its text, or with an error.
pub open spec fn open_outcome_view(outcome: Result<OpenResult, FileError>) -> Result<
    OpenResultView,
    FileErrorView,
> {
    match outcome {
        Ok(opened) => Ok(opened@),
        Err(error) => Err(error@),
    }
}

/// Where an open stands: what the caller has to do next, or how it ended.
#[derive(Debug, PartialEq, Eq)]
pub enum OpenStep {
    /// Show the dialog set up as `dialog` and wait for the user.
    AskLocation { dialog: FileDialog },
    /// Read the whole file at `path` as UTF-8 text.
    ReadText { path: String },
    /// Nothing is left to do.
    Finished(Result<OpenResult, FileError>),
}

/// An `OpenStep` with its texts as sequences of characters.
pub enum OpenStepView {
    AskLocation { dialog: FileDialogView },
    ReadText { path: Seq<char> },
    Finished(Result<OpenResultView, FileErrorView>),
}

impl View for OpenStep {
    type V = OpenStepView;

    open spec fn view(&self) -> OpenStepView {
        match self {
            OpenStep::AskLocation { dialog } => OpenStepView::AskLocation { dialog: dialog@ },
            OpenStep::ReadText { path } => OpenStepView::ReadText { path: path@ },
            OpenStep::Finished(outcome) => OpenStepView::Finished(open_outcome_view(*outcome)),
        }
    }
}

/// What the caller hands back after it has done what a step asked for.
#[derive(Debug, PartialEq, Eq)]
pub enum OpenReply {
    /// The dialog was closed, with a file or without.
    Located(PickedLocation),
    /// The read was attempted: the file's text, or the system's description
    /// of why there is none (the file is missing or unreadable, or its bytes
    /// are not UTF-8).
    Read(Result<String, String>),
}

/// An `OpenReply` with its texts as sequences of characters.
pub enum OpenReplyView {
    Located(PickedLocationView),
    Read(Result<Seq<char>, Seq<char>>),
}

impl View for OpenReply {
    type V = OpenReplyView;

    open spec fn view(&self) -> OpenReplyView {
        match self {
            OpenReply::Located(picked) => OpenReplyView::Located(picked@),
            OpenReply::Read(outcome) => OpenReplyView::Read(answer_view(*outcome)),
        }
    }
}

/// The first step of an open: the user is always asked for the file.
pub open spec fn open_start() -> OpenStepView {
    OpenStepView::AskLocation { dialog: open_dialog_view() }
}

/// The step that follows `step` once `reply` has come in.
///
/// A chosen file is read; a dismissed dialog ends the open with the
/// cancellation, before anything is read. A read that went well ends the open
/// with the file's path and its whole text, which nothing looks into; one that
/// failed ends it with the failure, carrying the system's description. A reply
/// that does not answer the step leaves it as it is, and a finished open stays
/// finished.
pub open spec fn open_next(step: OpenStepView, reply: OpenReplyView) -> OpenStepView {
    match (step, reply) {
        (
            OpenStepView::AskLocation { dialog },
            OpenReplyView::Located(PickedLocationView::Chosen(path)),
        ) => OpenStepView::ReadText { path },
        (
            OpenStepView::AskLocation { dialog },
            OpenReplyView::Located(PickedLocationView::Cancelled),
        ) => OpenStepView::Finished(Err(FileErrorView::Cancelled { operation: Operation::Open })),
        (OpenStepView::ReadText { path }, OpenReplyView::Read(Ok(contents))) => {
            OpenStepView::Finished(Ok(OpenResultView { file_path: path, contents }))
        },
        (OpenStepView::ReadText { path }, OpenReplyView::Read(Err(detail))) => {
            OpenStepView::Finished(
                Err(FileErrorView::Io { operation: Operation::Open, detail }),
            )
        },
        _ => step,
    }
}

/// What the command answers for an outcome: the file's text, without its
/// path, or the error's message.
pub open spec fn open_answer(outcome: Result<OpenResultView, FileErrorView>) -> Result<
    Seq<char>,
    Seq<char>,
> {
    match outcome {
        Ok(opened) => Ok(opened.contents),
        Err(error) => Err(message_text(error)),
    }
}

/// Begins an open.
pub fn begin_open() -> (step: OpenStep)
    ensures
        step@ == open_start(),
{
    OpenStep::AskLocation { dialog: open_dialog() }
}

/// Takes the open one step further with the answer to what `step` asked for.
pub fn open_step(step: OpenStep, reply: OpenReply) -> (next: OpenStep)
    ensures
        next@ == open_next(step@, reply@),
{
    match step {
        OpenStep::AskLocation { dialog } => match reply {
            OpenReply::Located(PickedLocation::Chosen(path)) => OpenStep::ReadText { path },
            OpenReply::Located(PickedLocation::Cancelled) => OpenStep::Finished(
                Err(FileError::Cancelled { operation: Operation::Open }),
            ),
            OpenReply::Read(_) => OpenStep::AskLocation { dialog },
        },
        OpenStep::ReadText { path } => match reply {
            OpenReply::Read(Ok(contents)) => OpenStep::Finished(
                Ok(OpenResult { file_path: path, contents }),
            ),
            OpenReply::Read(Err(detail)) => OpenStep::Finished(
                Err(FileError::Io { operation: Operation::Open, detail }),
            ),
            OpenReply::Located(_) => OpenStep::ReadText { path },
        },
        OpenStep::Finished(outcome) => OpenStep::Finished(outcome),
    }
}

/// Turns the outcome of an open into what the command hands to the user
/// interface: the file's text, or the message to show.
pub fn open_command_result(outcome: Result<OpenResult, FileError>) -> (answer: Result<
    String,
    String,
>)
    ensures
        answer_view(answer) == open_answer(open_outcome_view(outcome)),
{
    match outcome {
        Ok(opened) => Ok(opened.contents),
        Err(error) => Err(error.message()),
    }
}

} // verus!
