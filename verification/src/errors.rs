//! The failures of the manager's setup, each with the text that is
//! shown to the user.

use vstd::prelude::*;

verus! {

/// The display server could not be reached.
#[derive(Debug, Clone, Copy, PartialEq, Eq)]
pub struct ConnectionError;

/// The graphics context for the titlebars could not be made.
#[derive(Debug, Clone, Copy, PartialEq, Eq)]
pub struct FontGCError;

/// The display has no screen of the number that was asked for.
#[derive(Debug, Clone, Copy, PartialEq, Eq)]
pub struct ScreenError;

/// The windows that were there before the manager could not be listed.
#[derive(Debug, Clone, Copy, PartialEq, Eq)]
pub struct ScanError;

impl ConnectionError {
    pub fn message(&self) -> (text: String)
        ensures
            text@ == "No X11 Connection"@,
    {
        "No X11 Connection".to_owned()
    }
}

impl FontGCError {
    pub fn message(&self) -> (text: String)
        ensures
            text@ == "No Font Graphical Context"@,
    {
        "No Font Graphical Context".to_owned()
    }
}

impl ScreenError {
    pub fn message(&self) -> (text: String)
        ensures
            text@ == "could not get screen information"@,
    {
        "could not get screen information".to_owned()
    }
}

impl ScanError {
    pub fn message(&self) -> (text: String)
        ensures
            text@ == "there was an error grabbing the connection while scannig for windows"@,
    {
        "there was an error grabbing the connection while scannig for windows".to_owned()
    }
}

} // verus!
