//! What holds of whole runs of the two commands.
//!
//! A run is the chain of steps that a command goes through while its caller
//! shows the dialogs, writes and reads, and hands the answers back. The files
//! themselves are out of the commands' reach; where a law speaks of them it
//! does so in a model, `FileStore`, in which a write that went well replaces the
//! whole text at its path and touches nothing else.

use vstd::prelude::*;
use crate::dialog::{open_dialog_view, save_dialog_view};
use crate::error::{FileErrorView, Operation};
use crate::location::PickedLocationView;
use crate::open::{
    open_answer, open_next, open_start, OpenReplyView, OpenResultView, OpenStepView,
};
use crate::save::{
    save_answer, save_next, save_start, PathSourceView, SaveReplyView, SaveRequestView,
    SaveStepView,
};

verus! {

/// The text files that the commands' orders are about, by path.
pub struct FileStore {
    pub texts: Map<Seq<char>, Seq<char>>,
}

impl FileStore {
    /// The text of the file at `path`, if there is such a file.
    pub open spec fn read_text(self, path: Seq<char>) -> Option<Seq<char>> {
        if self.texts.dom().contains(path) {
            Some(self.texts[path])
        } else {
            None
        }
    }

    /// The store after `content` was written at `path` and the write went
    /// well.
    pub open spec fn write_text(self, path: Seq<char>, content: Seq<char>) -> FileStore {
        FileStore { texts: self.texts.insert(path, content) }
    }

    /// The store after what a step of a save asked for was done and went
    /// well. Only an order to write changes anything.
    pub open spec fn after(self, step: SaveStepView) -> FileStore {
        match step {
            SaveStepView::WriteText { path, content } => self.write_text(path, content),
            _ => self,
        }
    }
}

/// The result that a step of an open ends with, if it ends with one.
pub open spec fn opened_file(step: OpenStepView) -> Option<OpenResultView> {
    match step {
        OpenStepView::Finished(Ok(opened)) => Some(opened),
        _ => None,
    }
}

/// The request to save `content` at a path that the caller supplies.
pub open spec fn save_to(content: Seq<char>, path: Seq<char>) -> SaveRequestView {
    SaveRequestView { serialized_content: content, destination: PathSourceView::Explicit(path) }
}

/// The request to save `content` where the user says.
pub open spec fn save_somewhere(content: Seq<char>) -> SaveRequestView {
    SaveRequestView { serialized_content: content, destination: PathSourceView::Interactive }
}

/// Whether `reply` answers what a step of a save asks for.
pub open spec fn answers_save(step: SaveStepView, reply: SaveReplyView) -> bool {
    match step {
        SaveStepView::AskLocation { .. } => reply is Located,
        SaveStepView::WriteText { .. } => reply is Written,
        SaveStepView::Finished(_) => false,
    }
}

/// Whether `reply` answers what a step of an open asks for.
pub open spec fn answers_open(step: OpenStepView, reply: OpenReplyView) -> bool {
    match step {
        OpenStepView::AskLocation { .. } => reply is Located,
        OpenStepView::ReadText { .. } => reply is Read,
        OpenStepView::Finished(_) => false,
    }
}

/// How many answers a save still needs at most before it is finished.
pub open spec fn save_steps_left(step: SaveStepView) -> nat {
    match step {
        SaveStepView::AskLocation { .. } => 2,
        SaveStepView::WriteText { .. } => 1,
        SaveStepView::Finished(_) => 0,
    }
}

/// How many answers an open still needs at most before it is finished.
pub open spec fn open_steps_left(step: OpenStepView) -> nat {
    match step {
        OpenStepView::AskLocation { .. } => 2,
        OpenStepView::ReadText { .. } => 1,
        OpenStepView::Finished(_) => 0,
    }
}

/// Saving to a path that the caller supplies shows no dialog: the first step
/// orders the write of exactly the given text at exactly that path. When the
/// write goes well the command answers with the same path, and in the file
/// store the text at that path is then the text that was saved.
pub proof fn lemma_save_round_trip(store: FileStore, content: Seq<char>, path: Seq<char>)
    ensures
        ({
            let first = save_start(save_to(content, path));
            let last = save_next(first, SaveReplyView::Written(Ok(())));
            &&& first == SaveStepView::WriteText { path, content }
            &&& last == SaveStepView::Finished(Ok(path))
            &&& save_answer(last->Finished_0) == Ok::<Seq<char>, Seq<char>>(path)
            &&& store.after(first).read_text(path) == Some(content)
        }),
{
}

/// Saving without a path asks the user in the save dialog. When the user
/// dismisses it, the save ends there: the command answers with the message
/// "Save cancelled", no write was ordered on the way, and the file store is as
/// it was.
pub proof fn lemma_save_cancelled(store: FileStore, content: Seq<char>)
    ensures
        ({
            let first = save_start(save_somewhere(content));
            let last = save_next(first, SaveReplyView::Located(PickedLocationView::Cancelled));
            &&& first == SaveStepView::AskLocation { dialog: save_dialog_view(), content }
            &&& last == SaveStepView::Finished(
                Err(FileErrorView::Cancelled { operation: Operation::Save }),
            )
            &&& save_answer(last->Finished_0) == Err::<Seq<char>, Seq<char>>("Save cancelled"@)
            &&& store.after(first).after(last) == store
        }),
{
}

/// Saving without a path, when the user chooses a file, orders the write of
/// exactly the given text at the chosen path, and goes on from there as a save
/// to a supplied path does.
pub proof fn lemma_save_to_chosen_file(content: Seq<char>, chosen: Seq<char>)
    ensures
        save_next(
            save_start(save_somewhere(content)),
            SaveReplyView::Located(PickedLocationView::Chosen(chosen)),
        ) == save_start(save_to(content, chosen)),
{
}

/// A write that fails ends the save with the failure: the command answers
/// with "Failed to write file: " followed by the system's description, and
/// not with the path. The one write was all that the save ordered: nothing
/// asks for a directory to be made.
pub proof fn lemma_save_failure_is_reported(
    content: Seq<char>,
    path: Seq<char>,
    detail: Seq<char>,
)
    ensures
        ({
            let first = save_start(save_to(content, path));
            let last = save_next(first, SaveReplyView::Written(Err(detail)));
            &&& first == SaveStepView::WriteText { path, content }
            &&& last == SaveStepView::Finished(
                Err(FileErrorView::Io { operation: Operation::Save, detail }),
            )
            &&& save_answer(last->Finished_0) == Err::<Seq<char>, Seq<char>>(
                "Failed to write file: "@ + detail,
            )
        }),
{
}

/// Two saves to the same path, one after the other, leave the text of the
/// second at that path: a save replaces what it finds and appends nothing.
pub proof fn lemma_second_save_overwrites(
    store: FileStore,
    first_content: Seq<char>,
    second_content: Seq<char>,
    path: Seq<char>,
)
    ensures
        store.after(save_start(save_to(first_content, path))).after(
            save_start(save_to(second_content, path)),
        ).read_text(path) == Some(second_content),
{
}

/// A save leaves every file but the one it writes as it was.
pub proof fn lemma_save_touches_one_file(
    store: FileStore,
    content: Seq<char>,
    path: Seq<char>,
    other: Seq<char>,
)
    requires
        other != path,
    ensures
        store.after(save_start(save_to(content, path))).read_text(other) == store.read_text(
            other,
        ),
{
}

/// An open always begins with the dialog. When the user dismisses it, the
/// open ends there: the command answers with the message "Open cancelled", and
/// no read was ordered on the way.
pub proof fn lemma_open_cancelled()
    ensures
        ({
            let first = open_start();
            let last = open_next(first, OpenReplyView::Located(PickedLocationView::Cancelled));
            &&& first == OpenStepView::AskLocation { dialog: open_dialog_view() }
            &&& last == OpenStepView::Finished(
                Err(FileErrorView::Cancelled { operation: Operation::Open }),
            )
            &&& open_answer(last->Finished_0) == Err::<Seq<char>, Seq<char>>("Open cancelled"@)
        }),
{
}

/// When the user chooses a file that the store holds, the open orders the
/// read of exactly that path, and the command answers with exactly the text
/// that the file holds there.
pub proof fn lemma_open_returns_contents(store: FileStore, path: Seq<char>, contents: Seq<char>)
    requires
        store.read_text(path) == Some(contents),
    ensures
        ({
            let asked = open_next(
                open_start(),
                OpenReplyView::Located(PickedLocationView::Chosen(path)),
            );
            let last = open_next(asked, OpenReplyView::Read(Ok(contents)));
            &&& asked == OpenStepView::ReadText { path }
            &&& last == OpenStepView::Finished(Ok(OpenResultView { file_path: path, contents }))
            &&& open_answer(last->Finished_0) == Ok::<Seq<char>, Seq<char>>(contents)
        }),
{
}

/// A read that fails ends the open with the failure: the command answers
/// with "Failed to read file: " followed by the system's description.
pub proof fn lemma_open_failure_is_reported(path: Seq<char>, detail: Seq<char>)
    ensures
        ({
            let last = open_next(
                OpenStepView::ReadText { path },
                OpenReplyView::Read(Err(detail)),
            );
            &&& last == OpenStepView::Finished(
                Err(FileErrorView::Io { operation: Operation::Open, detail }),
            )
            &&& open_answer(last->Finished_0) == Err::<Seq<char>, Seq<char>>(
                "Failed to read file: "@ + detail,
            )
        }),
{
}

/// A save orders a write only at the path that was supplied or chosen, and
/// only of the text it was given: a step that orders a write either was that
/// order already, or follows the user's choice of that path in the dialog.
pub proof fn lemma_save_writes_only_what_was_asked(step: SaveStepView, reply: SaveReplyView)
    ensures
        save_next(step, reply) matches SaveStepView::WriteText { path, content } ==> {
            ||| step == save_next(step, reply)
            ||| (step matches SaveStepView::AskLocation { dialog, content: kept } && kept
                == content && reply == SaveReplyView::Located(PickedLocationView::Chosen(path)))
        },
{
}

/// An open has a result only for a file that was picked and read: a step that
/// ends the open with a result either was that end already, or follows a read,
/// at the picked path, that handed back the whole text.
pub proof fn lemma_open_result_comes_from_a_read(step: OpenStepView, reply: OpenReplyView)
    ensures
        opened_file(open_next(step, reply)) matches Some(opened) ==> {
            ||| step == open_next(step, reply)
            ||| (step == OpenStepView::ReadText { path: opened.file_path } && reply
                == OpenReplyView::Read(Ok(opened.contents)))
        },
{
}

/// Every answer to what a save asks for brings it nearer to its end, and no
/// step is further from it than two answers: a save never asks twice, and
/// never tries a write again. Any other reply changes nothing.
pub proof fn lemma_save_progress(step: SaveStepView, reply: SaveReplyView)
    ensures
        save_steps_left(step) <= 2,
        save_steps_left(step) == 0 <==> step is Finished,
        answers_save(step, reply) ==> save_steps_left(save_next(step, reply)) < save_steps_left(
            step,
        ),
        !answers_save(step, reply) ==> save_next(step, reply) == step,
{
}

/// Every answer to what an open asks for brings it nearer to its end, and no
/// step is further from it than two answers: an open never asks twice, and
/// never tries a read again. Any other reply changes nothing.
pub proof fn lemma_open_progress(step: OpenStepView, reply: OpenReplyView)
    ensures
        open_steps_left(step) <= 2,
        open_steps_left(step) == 0 <==> step is Finished,
        answers_open(step, reply) ==> open_steps_left(open_next(step, reply)) < open_steps_left(
            step,
        ),
        !answers_open(step, reply) ==> open_next(step, reply) == step,
{
}

} // verus!
