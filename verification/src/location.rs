//! What a file dialog hands back, and the one form in which the commands use it.

use vstd::prelude::*;

verus! {

/// The file the user chose in a dialog, as the dialog service names it: by a
/// path in the file system or by a URI, each already in its string form.
#[derive(Debug, PartialEq, Eq)]
pub enum Location {
    Path(String),
    Uri(String),
}

/// A `Location` with its text as a sequence of characters.
pub enum LocationView {
    Path(Seq<char>),
    Uri(Seq<char>),
}

impl View for Location {
    type V = LocationView;

    open spec fn view(&self) -> LocationView {
        match self {
            Location::Path(path) => LocationView::Path(path@),
            Location::Uri(uri) => LocationView::Uri(uri@),
        }
    }
}

impl LocationView {
    /// The string that stands for the location: the path as it is, the URI in
    /// its own string form. Which of the two it was is not kept.
    pub open spec fn text(self) -> Seq<char> {
        match self {
            LocationView::Path(path) => path,
            LocationView::Uri(uri) => uri,
        }
    }
}

impl Location {
    /// The location as a plain path string.
    pub fn into_text(self) -> (text: String)
        ensures
            text@ == self@.text(),
    {
        match self {
            Location::Path(path) => path,
            Location::Uri(uri) => uri,
        }
    }
}

/// How a dialog ended: with a file, known by its path string, or without one.
#[derive(Debug, PartialEq, Eq)]
pub enum PickedLocation {
    Chosen(String),
    Cancelled,
}

/// A `PickedLocation` with its path as a sequence of characters.
pub enum PickedLocationView {
    Chosen(Seq<char>),
    Cancelled,
}

impl View for PickedLocation {
    type V = PickedLocationView;

    open spec fn view(&self) -> PickedLocationView {
        match self {
            PickedLocation::Chosen(path) => PickedLocationView::Chosen(path@),
            PickedLocation::Cancelled => PickedLocationView::Cancelled,
        }
    }
}

/// The view of what a dialog returned: a location, or nothing when the user
/// dismissed it.
pub open spec fn selection_view(selection: Option<Location>) -> Option<LocationView> {
    match selection {
        Some(location) => Some(location@),
        None => None,
    }
}

/// A dialog's answer in the form the commands use: the chosen location's
/// string, whether it named a path or a URI, or the cancellation.
pub open spec fn normalized(selection: Option<LocationView>) -> PickedLocationView {
    match selection {
        Some(location) => PickedLocationView::Chosen(location.text()),
        None => PickedLocationView::Cancelled,
    }
}

impl PickedLocation {
    /// Normalizes what a dialog returned. A path and a URI that read the same
    /// give the same result; no answer at all is the cancellation.
    pub fn from_selection(selection: Option<Location>) -> (picked: PickedLocation)
        ensures
            picked@ == normalized(selection_view(selection)),
    {
        match selection {
            Some(location) => PickedLocation::Chosen(location.into_text()),
            None => PickedLocation::Cancelled,
        }
    }
}

} // verus!
