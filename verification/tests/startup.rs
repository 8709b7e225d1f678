use chord_quiz::aggregator::NoteEvent;
use chord_quiz::error::{Menu, StartupError};
use chord_quiz::get_midi_port::{get_midi_port, PortChoice};
use chord_quiz::midi::decode_event;

#[test]
fn no_port_fails_with_no_device_found() {
    assert_eq!(get_midi_port(0, None), Err(StartupError::NoDeviceFound));
    assert_eq!(get_midi_port(0, Some(0)), Err(StartupError::NoDeviceFound));
}

#[test]
fn single_port_is_taken_without_asking() {
    assert_eq!(get_midi_port(1, None), Ok(PortChoice::Only));
    assert_eq!(get_midi_port(1, Some(5)), Ok(PortChoice::Only));
    assert_eq!(PortChoice::Only.index(), Some(0));
}

#[test]
fn several_ports_ask_the_user() {
    assert_eq!(get_midi_port(2, None), Ok(PortChoice::Ask));
    assert_eq!(get_midi_port(7, None), Ok(PortChoice::Ask));
    assert_eq!(PortChoice::Ask.index(), None);
}

#[test]
fn picked_port_is_used() {
    assert_eq!(get_midi_port(3, Some(0)), Ok(PortChoice::Picked(0)));
    assert_eq!(get_midi_port(3, Some(2)), Ok(PortChoice::Picked(2)));
    assert_eq!(PortChoice::Picked(2).index(), Some(2));
}

#[test]
fn pick_past_the_list_is_invalid() {
    assert_eq!(get_midi_port(3, Some(3)), Err(StartupError::InvalidSelection(Menu::Ports)));
    assert_eq!(
        get_midi_port(2, Some(usize::MAX)),
        Err(StartupError::InvalidSelection(Menu::Ports))
    );
}

#[test]
fn messages_of_startup_errors() {
    assert_eq!(StartupError::NoDeviceFound.message(), "no input port found");
    assert_eq!(
        StartupError::InvalidSelection(Menu::Ports).message(),
        "invalid input port selected"
    );
    assert_eq!(StartupError::InvalidSelection(Menu::Quizzes).message(), "invalid quiz selected");
}

#[test]
fn pick_past_the_ports_has_the_port_message() {
    let error = get_midi_port(2, Some(2)).unwrap_err();
    assert_eq!(error.message(), "invalid input port selected");
    let error = get_midi_port(5, Some(usize::MAX)).unwrap_err();
    assert_eq!(error.message(), "invalid input port selected");
}

#[test]
fn no_port_has_its_message() {
    assert_eq!(get_midi_port(0, None).unwrap_err().message(), "no input port found");
}

#[test]
fn note_on_is_decoded() {
    assert_eq!(decode_event(&[0x90, 60, 100]), NoteEvent::NoteOn(60));
    assert_eq!(decode_event(&[0x9F, 127, 1]), NoteEvent::NoteOn(127));
    assert_eq!(decode_event(&[0x93, 0, 127]), NoteEvent::NoteOn(0));
}

#[test]
fn note_off_is_decoded() {
    assert_eq!(decode_event(&[0x80, 60, 0]), NoteEvent::NoteOff(60));
    assert_eq!(decode_event(&[0x8A, 61, 64]), NoteEvent::NoteOff(61));
}

#[test]
fn note_on_with_velocity_zero_is_a_note_off() {
    assert_eq!(decode_event(&[0x90, 60, 0]), NoteEvent::NoteOff(60));
    assert_eq!(decode_event(&[0x95, 72, 0]), NoteEvent::NoteOff(72));
}

#[test]
fn bytes_after_the_third_are_not_looked_at() {
    assert_eq!(decode_event(&[0x90, 60, 100, 0xFF, 3]), NoteEvent::NoteOn(60));
    assert_eq!(decode_event(&[0x80, 60, 100, 0x90]), NoteEvent::NoteOff(60));
}

#[test]
fn other_messages_are_no_note_events() {
    assert_eq!(decode_event(&[0xB0, 64, 127]), NoteEvent::Other); // control change
    assert_eq!(decode_event(&[0xA0, 60, 10]), NoteEvent::Other); // key pressure
    assert_eq!(decode_event(&[0xC0, 5]), NoteEvent::Other); // program change
    assert_eq!(decode_event(&[0xE0, 0, 64]), NoteEvent::Other); // pitch bend
    assert_eq!(decode_event(&[0xF8]), NoteEvent::Other); // timing clock
    assert_eq!(decode_event(&[0xF0, 1, 2, 0xF7]), NoteEvent::Other); // system exclusive
    assert_eq!(decode_event(&[0xFE]), NoteEvent::Other); // active sensing
}

#[test]
fn malformed_messages_are_dropped() {
    assert_eq!(decode_event(&[]), NoteEvent::Other);
    assert_eq!(decode_event(&[0x90]), NoteEvent::Other);
    assert_eq!(decode_event(&[0x90, 60]), NoteEvent::Other);
    assert_eq!(decode_event(&[0x80, 60]), NoteEvent::Other);
    assert_eq!(decode_event(&[60, 100, 0x90]), NoteEvent::Other);
    assert_eq!(decode_event(&[0x90, 128, 100]), NoteEvent::Other);
    assert_eq!(decode_event(&[0x90, 60, 128]), NoteEvent::Other);
    assert_eq!(decode_event(&[0x80, 200, 0]), NoteEvent::Other);
    assert_eq!(decode_event(&[0x80, 60, 255]), NoteEvent::Other);
    assert_eq!(decode_event(&[0x7F, 60, 100]), NoteEvent::Other);
}

#[test]
fn every_status_byte_is_classified() {
    for status in 0..=255u8 {
        let loud = decode_event(&[status, 60, 100]);
        let silent = decode_event(&[status, 60, 0]);
        match status {
            0x80..=0x8F => {
                assert_eq!(loud, NoteEvent::NoteOff(60));
                assert_eq!(silent, NoteEvent::NoteOff(60));
            }
            0x90..=0x9F => {
                assert_eq!(loud, NoteEvent::NoteOn(60));
                assert_eq!(silent, NoteEvent::NoteOff(60));
            }
            _ => {
                assert_eq!(loud, NoteEvent::Other);
                assert_eq!(silent, NoteEvent::Other);
            }
        }
    }
}
