//! Reading a raw MIDI message as a note event.

use crate::aggregator::NoteEvent;
use std::convert::TryFrom;
use vstd::prelude::*;
use wmidi::MidiMessage;

verus! {

/// Whether the message has the two data bytes of a note message, each below 128.
pub open spec fn has_note_data(bytes: Seq<u8>) -> bool {
    bytes.len() >= 3 && bytes[1] < 0x80 && bytes[2] < 0x80
}

/// The note event that a raw message stands for.
///
/// A status byte from 0x90 to 0x9F with a velocity above zero is a note-on.
/// A status byte from 0x80 to 0x8F is a note-off, and so is one from 0x90 to
/// 0x9F with velocity zero. The note is the first data byte. Bytes after the
/// third are not looked at. Every other message, and every message that is
/// cut short or holds a data byte of 128 or more, is no note event.
pub open spec fn decoded(bytes: Seq<u8>) -> NoteEvent {
    if !has_note_data(bytes) {
        NoteEvent::Other
    } else if 0x90 <= bytes[0] <= 0x9F && bytes[2] != 0 {
        NoteEvent::NoteOn(bytes[1])
    } else if 0x80 <= bytes[0] <= 0x9F {
        NoteEvent::NoteOff(bytes[1])
    } else {
        NoteEvent::Other
    }
}

/// Parses a message with `MidiMessage::try_from` of wmidi and keeps the note
/// of a note-on or note-off.
///
/// Trusted: that wmidi reads a message as `decoded` says. It takes the kind
/// from the high four bits of the first byte, refuses a message whose first
/// or second data byte is missing or has its high bit set, and reports a
/// note-on with velocity zero as a note-off.
#[verifier::external_body]
fn parse_message(bytes: &[u8]) -> (event: NoteEvent)
    ensures
        event == decoded(bytes@),
{
    match MidiMessage::try_from(bytes) {
        Ok(MidiMessage::NoteOn(_, note, _)) => NoteEvent::NoteOn(u8::from(note)),
        Ok(MidiMessage::NoteOff(_, note, _)) => NoteEvent::NoteOff(u8::from(note)),
        _ => NoteEvent::Other,
    }
}

/// Reads a raw message as a note event. A message that is no note-on and no
/// note-off, or is malformed, comes out as `Other`: it is dropped, not
/// reported.
pub fn decode_event(bytes: &[u8]) -> (event: NoteEvent)
    ensures
        event == decoded(bytes@),
        event matches NoteEvent::NoteOn(note) ==> note < 128,
        event matches NoteEvent::NoteOff(note) ==> note < 128,
{
    parse_message(bytes)
}

} // verus!
