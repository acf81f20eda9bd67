//! Runs of the open command against a desk that stands in for the user and
//! the file system.

use std::collections::BTreeMap;

use excalidraw_files::dialog::FileDialog;
use excalidraw_files::error::{FileError, Operation};
use excalidraw_files::location::{Location, PickedLocation};
use excalidraw_files::open::{
    begin_open, open_command_result, open_step, OpenReply, OpenResult, OpenStep,
};
use excalidraw_files::save::{begin_save, save_step, SaveReply, SaveRequest, SaveStep};

/// What the desk holds under a path.
enum Entry {
    Text(String),
    Bytes(Vec<u8>),
    Directory,
}

/// The user and the files, simulated.
struct ReadingDesk {
    pick: Option<Location>,
    entries: BTreeMap<String, Entry>,
    dialogs_shown: Vec<FileDialog>,
    reads_attempted: Vec<String>,
}

impl ReadingDesk {
    fn new(pick: Option<Location>) -> ReadingDesk {
        ReadingDesk {
            pick,
            entries: BTreeMap::new(),
            dialogs_shown: Vec::new(),
            reads_attempted: Vec::new(),
        }
    }

    fn with_text(mut self, path: &str, text: &str) -> ReadingDesk {
        self.entries.insert(path.to_string(), Entry::Text(text.to_string()));
        self
    }

    fn read_text(&mut self, path: &str) -> Result<String, String> {
        self.reads_attempted.push(path.to_string());
        match self.entries.get(path) {
            Some(Entry::Text(text)) => Ok(text.clone()),
            Some(Entry::Bytes(bytes)) => match String::from_utf8(bytes.clone()) {
                Ok(text) => Ok(text),
                Err(_) => Err("stream did not contain valid UTF-8".to_string()),
            },
            Some(Entry::Directory) => Err("Is a directory (os error 21)".to_string()),
            None => Err("No such file or directory (os error 2)".to_string()),
        }
    }
}

/// Drives an open to its end, doing on the desk what each step asks for.
fn run_open(desk: &mut ReadingDesk) -> Result<String, String> {
    let mut step = begin_open();
    loop {
        step = match step {
            OpenStep::AskLocation { dialog } => {
                desk.dialogs_shown.push(FileDialog {
                    filter_name: dialog.filter_name.clone(),
                    extensions: dialog.extensions.clone(),
                    default_file_name: dialog.default_file_name.clone(),
                });
                let picked = PickedLocation::from_selection(desk.pick.take());
                open_step(OpenStep::AskLocation { dialog }, OpenReply::Located(picked))
            }
            OpenStep::ReadText { path } => {
                let read = desk.read_text(&path);
                open_step(OpenStep::ReadText { path }, OpenReply::Read(read))
            }
            OpenStep::Finished(outcome) => return open_command_result(outcome),
        };
    }
}

fn open_cancelled() -> FileError {
    FileError::Cancelled { operation: Operation::Open }
}

#[test]
fn open_cancelled_reads_nothing() {
    let mut desk = ReadingDesk::new(None).with_text("/work/a.excalidraw", "a");
    let answer = run_open(&mut desk);
    assert_eq!(answer, Err("Open cancelled".to_string()));
    assert!(desk.reads_attempted.is_empty());
    assert_eq!(desk.dialogs_shown.len(), 1);
}

#[test]
fn open_returns_the_file_contents() {
    let contents = "{\"type\":\"excalidraw\",\"version\":2,\"elements\":[{\"id\":\"a\"}]}\n";
    let mut desk = ReadingDesk::new(Some(Location::Path("/work/a.excalidraw".to_string())))
        .with_text("/work/a.excalidraw", contents)
        .with_text("/work/b.excalidraw", "something else");
    let answer = run_open(&mut desk);
    assert_eq!(answer, Ok(contents.to_string()));
    assert_eq!(desk.reads_attempted, vec!["/work/a.excalidraw".to_string()]);
}

#[test]
fn open_returns_text_that_is_no_drawing_as_it_is() {
    let mut desk = ReadingDesk::new(Some(Location::Path("/work/notes.json".to_string())))
        .with_text("/work/notes.json", "not even json");
    assert_eq!(run_open(&mut desk), Ok("not even json".to_string()));
}

#[test]
fn open_returns_an_empty_file_as_empty_text() {
    let mut desk = ReadingDesk::new(Some(Location::Path("/work/empty.excalidraw".to_string())))
        .with_text("/work/empty.excalidraw", "");
    assert_eq!(run_open(&mut desk), Ok(String::new()));
}

#[test]
fn open_asks_with_the_drawing_and_json_filter() {
    let mut desk = ReadingDesk::new(None);
    let _ = run_open(&mut desk);
    assert_eq!(
        desk.dialogs_shown,
        vec![FileDialog {
            filter_name: "Excalidraw".to_string(),
            extensions: vec!["excalidraw".to_string(), "json".to_string()],
            default_file_name: None,
        }]
    );
}

#[test]
fn open_of_a_missing_file_fails() {
    let mut desk = ReadingDesk::new(Some(Location::Path("/work/gone.excalidraw".to_string())));
    assert_eq!(
        run_open(&mut desk),
        Err("Failed to read file: No such file or directory (os error 2)".to_string())
    );
    assert_eq!(desk.reads_attempted, vec!["/work/gone.excalidraw".to_string()]);
}

#[test]
fn open_of_a_directory_fails() {
    let mut desk = ReadingDesk::new(Some(Location::Path("/work".to_string())));
    desk.entries.insert("/work".to_string(), Entry::Directory);
    assert_eq!(
        run_open(&mut desk),
        Err("Failed to read file: Is a directory (os error 21)".to_string())
    );
}

#[test]
fn open_of_bytes_that_are_not_utf8_fails() {
    let mut desk = ReadingDesk::new(Some(Location::Path("/work/raw.excalidraw".to_string())));
    desk.entries.insert("/work/raw.excalidraw".to_string(), Entry::Bytes(vec![0xff, 0xfe, 0x00]));
    assert_eq!(
        run_open(&mut desk),
        Err("Failed to read file: stream did not contain valid UTF-8".to_string())
    );
}

#[test]
fn open_of_a_uri_reads_at_its_string() {
    let mut desk = ReadingDesk::new(Some(Location::Uri("content://drawings/7".to_string())))
        .with_text("content://drawings/7", "seven");
    assert_eq!(run_open(&mut desk), Ok("seven".to_string()));
    assert_eq!(desk.reads_attempted, vec!["content://drawings/7".to_string()]);
}

#[test]
fn saved_text_is_what_open_answers() {
    let content = "{\"elements\":[1,2,3]}";
    let order = begin_save(SaveRequest::new(
        content.to_string(),
        Some("/work/round.excalidraw".to_string()),
    ));
    let mut desk = ReadingDesk::new(Some(Location::Path("/work/round.excalidraw".to_string())));
    let saved = match order {
        SaveStep::WriteText { path, content } => {
            desk.entries.insert(path.clone(), Entry::Text(content.clone()));
            save_step(SaveStep::WriteText { path, content }, SaveReply::Written(Ok(())))
        }
        other => other,
    };
    assert_eq!(saved, SaveStep::Finished(Ok("/work/round.excalidraw".to_string())));
    assert_eq!(run_open(&mut desk), Ok(content.to_string()));
}

#[test]
fn begin_open_asks_the_user() {
    assert_eq!(
        begin_open(),
        OpenStep::AskLocation {
            dialog: FileDialog {
                filter_name: "Excalidraw".to_string(),
                extensions: vec!["excalidraw".to_string(), "json".to_string()],
                default_file_name: None,
            },
        }
    );
}

#[test]
fn open_step_after_a_choice_orders_the_read() {
    let next =
        open_step(begin_open(), OpenReply::Located(PickedLocation::Chosen("/p.json".to_string())));
    assert_eq!(next, OpenStep::ReadText { path: "/p.json".to_string() });
}

#[test]
fn open_step_after_a_dismissal_is_finished() {
    let next = open_step(begin_open(), OpenReply::Located(PickedLocation::Cancelled));
    assert_eq!(next, OpenStep::Finished(Err(open_cancelled())));
}

#[test]
fn open_step_after_a_good_read_keeps_path_and_contents() {
    let order = OpenStep::ReadText { path: "/p.json".to_string() };
    let next = open_step(order, OpenReply::Read(Ok("text".to_string())));
    assert_eq!(
        next,
        OpenStep::Finished(Ok(OpenResult {
            file_path: "/p.json".to_string(),
            contents: "text".to_string(),
        }))
    );
}

#[test]
fn open_step_after_a_failed_read_carries_the_description() {
    let order = OpenStep::ReadText { path: "/p.json".to_string() };
    let next = open_step(order, OpenReply::Read(Err("Permission denied (os error 13)".to_string())));
    assert_eq!(
        next,
        OpenStep::Finished(Err(FileError::Io {
            operation: Operation::Open,
            detail: "Permission denied (os error 13)".to_string(),
        }))
    );
}

#[test]
fn open_step_keeps_waiting_on_a_reply_to_something_else() {
    let still_asked = open_step(begin_open(), OpenReply::Read(Ok("text".to_string())));
    assert_eq!(still_asked, begin_open());

    let order = OpenStep::ReadText { path: "/p.json".to_string() };
    let still_ordered =
        open_step(order, OpenReply::Located(PickedLocation::Chosen("/q.json".to_string())));
    assert_eq!(still_ordered, OpenStep::ReadText { path: "/p.json".to_string() });
}

#[test]
fn finished_open_stays_finished() {
    let done = OpenStep::Finished(Err(open_cancelled()));
    let after_read = open_step(done, OpenReply::Read(Ok("late".to_string())));
    assert_eq!(after_read, OpenStep::Finished(Err(open_cancelled())));
    let after_pick =
        open_step(after_read, OpenReply::Located(PickedLocation::Chosen("/q".to_string())));
    assert_eq!(after_pick, OpenStep::Finished(Err(open_cancelled())));
}

#[test]
fn open_command_result_hands_out_the_contents_only() {
    let opened = OpenResult { file_path: "/p.json".to_string(), contents: "text".to_string() };
    assert_eq!(open_command_result(Ok(opened)), Ok("text".to_string()));
}

#[test]
fn open_command_result_hands_out_the_message() {
    assert_eq!(open_command_result(Err(open_cancelled())), Err("Open cancelled".to_string()));
    assert_eq!(
        open_command_result(Err(FileError::Io {
            operation: Operation::Open,
            detail: "broken pipe".to_string(),
        })),
        Err("Failed to read file: broken pipe".to_string())
    );
}
