//! The two file dialogs that the commands ask for.

use vstd::prelude::*;

verus! {

/// How a file dialog is to be set up before it is shown.
#[derive(Debug, PartialEq, Eq)]
pub struct FileDialog {
    /// The name under which the filter is offered to the user.
    pub filter_name: String,
    /// The file extensions that the filter lets through, without the dot.
    pub extensions: Vec<String>,
    /// The file name suggested to the user, if any.
    pub default_file_name: Option<String>,
}

/// A `FileDialog` with its texts as sequences of characters.
pub struct FileDialogView {
    pub filter_name: Seq<char>,
    pub extensions: Seq<Seq<char>>,
    pub default_file_name: Option<Seq<char>>,
}

impl View for FileDialog {
    type V = FileDialogView;

    open spec fn view(&self) -> FileDialogView {
        FileDialogView {
            filter_name: self.filter_name@,
            extensions: self.extensions.deep_view(),
            default_file_name: match self.default_file_name {
                Some(name) => Some(name@),
                None => None,
            },
        }
    }
}

/// The dialog in which a drawing is saved: only drawing files are shown, and
/// a file name is suggested.
pub open spec fn save_dialog_view() -> FileDialogView {
    FileDialogView {
        filter_name: "Excalidraw"@,
        extensions: seq!["excalidraw"@],
        default_file_name: Some("drawing.excalidraw"@),
    }
}

/// The dialog in which a file is picked for opening: drawing files and JSON
/// files are shown, and no name is suggested.
pub open spec fn open_dialog_view() -> FileDialogView {
    FileDialogView {
        filter_name: "Excalidraw"@,
        extensions: seq!["excalidraw"@, "json"@],
        default_file_name: None,
    }
}

/// Sets up the dialog for saving a drawing.
pub fn save_dialog() -> (dialog: FileDialog)
    ensures
        dialog@ == save_dialog_view(),
{
    let mut extensions: Vec<String> = Vec::new();
    extensions.push("excalidraw".to_owned());
    let dialog = FileDialog {
        filter_name: "Excalidraw".to_owned(),
        extensions,
        default_file_name: Some("drawing.excalidraw".to_owned()),
    };
    assert(dialog@.extensions =~= save_dialog_view().extensions);
    dialog
}

/// Sets up the dialog for picking a file to open.
pub fn open_dialog() -> (dialog: FileDialog)
    ensures
        dialog@ == open_dialog_view(),
{
    let mut extensions: Vec<String> = Vec::new();
    extensions.push("excalidraw".to_owned());
    extensions.push("json".to_owned());
    let dialog = FileDialog {
        filter_name: "Excalidraw".to_owned(),
        extensions,
        default_file_name: None,
    };
    assert(dialog@.extensions =~= open_dialog_view().extensions);
    dialog
}

} // verus!
