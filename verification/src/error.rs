//! What can go wrong before the quiz starts.

use vstd::prelude::*;

verus! {

/// A list that the user picks an entry from.
#[derive(Clone, Copy, Debug, PartialEq, Eq, Structural)]
pub enum Menu {
    /// The input ports.
    Ports,
    /// The quizzes of the catalog.
    Quizzes,
}

/// A failure at startup. Each ends the program; none is retried.
#[derive(Clone, Copy, Debug, PartialEq, Eq, Structural)]
pub enum StartupError {
    /// No input port is available.
    NoDeviceFound,
    /// The index that was picked names no entry of the list it was picked
    /// from.
    InvalidSelection(Menu),
}

/// The message of a startup failure.
pub open spec fn message_of(error: StartupError) -> Seq<char> {
    match error {
        StartupError::NoDeviceFound => "no input port found"@,
        StartupError::InvalidSelection(Menu::Ports) => "invalid input port selected"@,
        StartupError::InvalidSelection(Menu::Quizzes) => "invalid quiz selected"@,
    }
}

impl StartupError {
    /// The message to show the user.
    pub fn message(&self) -> (text: &'static str)
        ensures
            text@ == message_of(*self),
    {
        match self {
            StartupError::NoDeviceFound => "no input port found",
            StartupError::InvalidSelection(Menu::Ports) => "invalid input port selected",
            StartupError::InvalidSelection(Menu::Quizzes) => "invalid quiz selected",
        }
    }
}

} // verus!
