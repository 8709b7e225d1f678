//! An ear-training quiz engine for a MIDI keyboard.
//!
//! The crate holds the quiz logic: pitch classes, the quiz catalog, the
//! judgment of a played chord, and the state machine that turns note-on and
//! note-off events into judgments and new rounds. Device handling, menus and
//! console styling are left to the program around it.

pub mod aggregator;
pub mod error;
pub mod get_midi_port;
pub mod judgment;
pub mod midi;
pub mod pitch;
pub mod quizzes;
pub mod session;
