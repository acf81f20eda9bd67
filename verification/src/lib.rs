//! The decisions behind two file commands of a drawing application: saving a
//! document's text to a file, and opening a file to hand its text back.
//!
//! Neither command touches a dialog or a file here. Each one is a small state
//! machine: a step names what has to be done next (show a dialog, write or read
//! a text file), the caller does it and hands the answer back as a reply, and
//! the step function decides what follows. Every decision has a contract over
//! the views of the values involved.

pub mod dialog;
pub mod error;
pub mod laws;
pub mod location;
pub mod open;
pub mod save;
