//! The messages of the errors, the two dialogs, and what becomes of a dialog's
//! answer.

use excalidraw_files::dialog::{open_dialog, save_dialog, FileDialog};
use excalidraw_files::error::{FileError, Operation};
use excalidraw_files::location::{Location, PickedLocation};

#[test]
fn message_of_a_cancelled_save() {
    let error = FileError::Cancelled { operation: Operation::Save };
    assert_eq!(error.message(), "Save cancelled");
}

#[test]
fn message_of_a_cancelled_open() {
    let error = FileError::Cancelled { operation: Operation::Open };
    assert_eq!(error.message(), "Open cancelled");
}

#[test]
fn message_of_a_failed_write() {
    let error = FileError::Io {
        operation: Operation::Save,
        detail: "Permission denied (os error 13)".to_string(),
    };
    assert_eq!(error.message(), "Failed to write file: Permission denied (os error 13)");
}

#[test]
fn message_of_a_failed_read() {
    let error = FileError::Io {
        operation: Operation::Open,
        detail: "No such file or directory (os error 2)".to_string(),
    };
    assert_eq!(error.message(), "Failed to read file: No such file or directory (os error 2)");
}

#[test]
fn message_of_a_failure_without_description_is_the_prefix() {
    let error = FileError::Io { operation: Operation::Save, detail: String::new() };
    assert_eq!(error.message(), "Failed to write file: ");
    let error = FileError::Io { operation: Operation::Open, detail: String::new() };
    assert_eq!(error.message(), "Failed to read file: ");
}

#[test]
fn message_keeps_a_description_that_is_not_ascii() {
    let error = FileError::Io { operation: Operation::Open, detail: "Zugriff verweigert – é".to_string() };
    assert_eq!(error.message(), "Failed to read file: Zugriff verweigert – é");
}

#[test]
fn error_kind_and_operation_can_be_asked() {
    let cancelled = FileError::Cancelled { operation: Operation::Open };
    assert!(cancelled.is_cancelled());
    assert_eq!(cancelled.operation(), Operation::Open);
    let failed = FileError::Io { operation: Operation::Save, detail: "x".to_string() };
    assert!(!failed.is_cancelled());
    assert_eq!(failed.operation(), Operation::Save);
}

#[test]
fn save_dialog_offers_drawings_and_suggests_a_name() {
    assert_eq!(
        save_dialog(),
        FileDialog {
            filter_name: "Excalidraw".to_string(),
            extensions: vec!["excalidraw".to_string()],
            default_file_name: Some("drawing.excalidraw".to_string()),
        }
    );
}

#[test]
fn open_dialog_offers_drawings_and_json() {
    assert_eq!(
        open_dialog(),
        FileDialog {
            filter_name: "Excalidraw".to_string(),
            extensions: vec!["excalidraw".to_string(), "json".to_string()],
            default_file_name: None,
        }
    );
}

#[test]
fn location_text_of_a_path_is_the_path() {
    let location = Location::Path("/home/me/My Drawings/a b.excalidraw".to_string());
    assert_eq!(location.into_text(), "/home/me/My Drawings/a b.excalidraw");
}

#[test]
fn location_text_of_a_uri_is_its_string_form() {
    let location = Location::Uri("file:///home/me/a%20b.excalidraw".to_string());
    assert_eq!(location.into_text(), "file:///home/me/a%20b.excalidraw");
}

#[test]
fn selection_of_a_path_is_chosen() {
    let picked = PickedLocation::from_selection(Some(Location::Path("/p".to_string())));
    assert_eq!(picked, PickedLocation::Chosen("/p".to_string()));
}

#[test]
fn selection_of_a_uri_is_chosen_alike() {
    let by_uri = PickedLocation::from_selection(Some(Location::Uri("/p".to_string())));
    let by_path = PickedLocation::from_selection(Some(Location::Path("/p".to_string())));
    assert_eq!(by_uri, by_path);
}

#[test]
fn no_selection_is_cancelled() {
    assert_eq!(PickedLocation::from_selection(None), PickedLocation::Cancelled);
}
