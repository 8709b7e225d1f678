use chord_quiz::aggregator::{NoteEvent, QuizState};
use chord_quiz::quizzes::{get_quiz, Quiz};
use chord_quiz::session::{Output, Session};

fn chords() -> Quiz {
    *get_quiz(1).unwrap()
}

fn judged(output: Output) -> (bool, String, String) {
    match output {
        Output::Judged(result) => (result.correct, result.verdict.to_string(), result.answer),
        other => panic!("no judgment: {:?}", other),
    }
}

#[test]
fn session_starts_at_rest_on_the_given_round() {
    let session = Session::new(chords(), 2, 1).unwrap();
    assert_eq!(session.base(), 2);
    assert_eq!(session.option().name(), " minor");
    assert_eq!(session.option().signature, &[0, 3, 7]);
    assert_eq!(session.quiz().name(), "Major and minor chords");
    assert_eq!(session.state(), QuizState::Guessing);
    assert_eq!(session.held_count(), 0);
    assert_eq!(session.prompt(), "D minor");
}

#[test]
fn session_rejects_a_round_that_is_none_of_the_quiz() {
    assert!(Session::new(chords(), 12, 0).is_none());
    assert!(Session::new(chords(), -1, 0).is_none());
    assert!(Session::new(chords(), 0, 2).is_none());
    assert!(Session::new(chords(), 0, 0).is_some());
    assert!(Session::new(chords(), 11, 1).is_some());
}

#[test]
fn started_session_has_a_round_of_the_quiz() {
    for _ in 0..100 {
        let session = Session::start(chords()).unwrap();
        assert!((0..12).contains(&session.base()));
        let name = session.option().name();
        assert!(name == " major" || name == " minor");
        assert_eq!(session.state(), QuizState::Guessing);
        assert_eq!(session.held_count(), 0);
    }
}

#[test]
fn session_of_a_quiz_without_options_cannot_start() {
    let quiz = Quiz::new("Empty", &[]);
    assert!(Session::start(quiz).is_none());
    assert!(Session::new(quiz, 0, 0).is_none());
}

#[test]
fn correct_chord_is_judged_on_the_last_note() {
    let mut session = Session::new(chords(), 0, 0).unwrap();
    assert!(matches!(session.handle_event(NoteEvent::NoteOn(60)), Output::Nothing));
    assert!(matches!(session.handle_event(NoteEvent::NoteOn(64)), Output::Nothing));
    let (correct, verdict, answer) = judged(session.handle_event(NoteEvent::NoteOn(67)));
    assert!(correct);
    assert_eq!(verdict, "Correct!");
    assert_eq!(answer, "Answer: C E G");
    assert_eq!(session.state(), QuizState::Pending);
    assert_eq!(session.base(), 0);
    assert_eq!(session.option().name(), " major");
}

#[test]
fn wrong_chord_is_judged_incorrect_with_the_expected_answer() {
    let mut session = Session::new(chords(), 2, 1).unwrap();
    session.handle_event(NoteEvent::NoteOn(62));
    session.handle_event(NoteEvent::NoteOn(66));
    let (correct, verdict, answer) = judged(session.handle_event(NoteEvent::NoteOn(69)));
    assert!(!correct);
    assert_eq!(verdict, "Incorrect!");
    assert_eq!(answer, "Answer: D F A");
}

#[test]
fn notes_after_the_judgment_are_not_judged() {
    let mut session = Session::new(chords(), 0, 0).unwrap();
    session.handle_event(NoteEvent::NoteOn(60));
    session.handle_event(NoteEvent::NoteOn(63));
    let (correct, _, _) = judged(session.handle_event(NoteEvent::NoteOn(67)));
    assert!(!correct);
    // the player corrects the chord while keys are still down
    assert!(matches!(session.handle_event(NoteEvent::NoteOff(63)), Output::Nothing));
    assert!(matches!(session.handle_event(NoteEvent::NoteOn(64)), Output::Nothing));
    assert!(matches!(session.handle_event(NoteEvent::NoteOn(72)), Output::Nothing));
    assert!(matches!(session.handle_event(NoteEvent::NoteOff(72)), Output::Nothing));
    assert_eq!(session.state(), QuizState::Pending);
    assert_eq!(session.held_count(), 3);
    assert_eq!(session.base(), 0);
}

#[test]
fn full_release_starts_the_given_round() {
    let quiz = chords();
    let mut session = Session::new(quiz, 0, 0).unwrap();
    let next = quiz.options()[1];
    for note in [60, 64, 67] {
        session.advance(NoteEvent::NoteOn(note), 9, next);
    }
    assert_eq!(session.state(), QuizState::Pending);
    assert!(matches!(session.advance(NoteEvent::NoteOff(60), 9, next), Output::Nothing));
    assert!(matches!(session.advance(NoteEvent::NoteOff(64), 9, next), Output::Nothing));
    // the round is the old one until the last key is up
    assert_eq!(session.base(), 0);
    assert_eq!(session.option().name(), " major");
    match session.advance(NoteEvent::NoteOff(67), 9, next) {
        Output::NextRound(prompt) => assert_eq!(prompt, "A minor"),
        other => panic!("no new round: {:?}", other),
    }
    assert_eq!(session.state(), QuizState::Guessing);
    assert_eq!(session.held_count(), 0);
    assert_eq!(session.base(), 9);
    assert_eq!(session.option().name(), " minor");
    assert_eq!(session.prompt(), "A minor");
    // the new round is judged against its own target: A, C, E
    session.advance(NoteEvent::NoteOn(57), 0, next);
    session.advance(NoteEvent::NoteOn(60), 0, next);
    let (correct, _, answer) = judged(session.advance(NoteEvent::NoteOn(64), 0, next));
    assert!(correct);
    assert_eq!(answer, "Answer: A C E");
}

#[test]
fn full_release_draws_a_round_of_the_quiz() {
    for _ in 0..50 {
        let mut session = Session::new(chords(), 0, 0).unwrap();
        for note in [60, 64, 67] {
            session.handle_event(NoteEvent::NoteOn(note));
        }
        session.handle_event(NoteEvent::NoteOff(60));
        session.handle_event(NoteEvent::NoteOff(64));
        match session.handle_event(NoteEvent::NoteOff(67)) {
            Output::NextRound(prompt) => assert_eq!(prompt, session.prompt()),
            other => panic!("no new round: {:?}", other),
        }
        assert!((0..12).contains(&session.base()));
        let name = session.option().name();
        assert!(name == " major" || name == " minor");
        assert_eq!(session.state(), QuizState::Guessing);
        assert_eq!(session.held_count(), 0);
    }
}

#[test]
fn release_before_the_chord_is_complete_keeps_guessing() {
    let mut session = Session::new(chords(), 0, 0).unwrap();
    session.handle_event(NoteEvent::NoteOn(60));
    assert!(matches!(session.handle_event(NoteEvent::NoteOff(60)), Output::Nothing));
    assert_eq!(session.state(), QuizState::Guessing);
    assert_eq!(session.base(), 0);
    session.handle_event(NoteEvent::NoteOn(60));
    session.handle_event(NoteEvent::NoteOn(64));
    let (correct, _, _) = judged(session.handle_event(NoteEvent::NoteOn(67)));
    assert!(correct);
}

#[test]
fn raw_messages_drive_the_session() {
    let mut session = Session::new(chords(), 0, 0).unwrap();
    assert!(matches!(session.handle_message(&[0x90, 60, 100]), Output::Nothing));
    assert!(session.is_held(60));
    assert!(matches!(session.handle_message(&[0xB0, 64, 127]), Output::Nothing));
    assert!(matches!(session.handle_message(&[0x90, 64]), Output::Nothing));
    assert!(matches!(session.handle_message(&[]), Output::Nothing));
    assert_eq!(session.held_count(), 1);
    session.handle_message(&[0x91, 64, 80]);
    let (correct, verdict, answer) = judged(session.handle_message(&[0x90, 67, 1]));
    assert!(correct);
    assert_eq!(verdict, "Correct!");
    assert_eq!(answer, "Answer: C E G");
    session.handle_message(&[0x80, 60, 0]);
    // a note-on with velocity zero releases the key
    session.handle_message(&[0x90, 64, 0]);
    assert!(!session.is_held(64));
    assert!(matches!(session.handle_message(&[0x80, 67, 64]), Output::NextRound(_)));
    assert_eq!(session.state(), QuizState::Guessing);
    assert_eq!(session.held_count(), 0);
}

#[test]
fn single_note_quiz_is_judged_on_the_first_key() {
    let mut session = Session::new(*get_quiz(0).unwrap(), 5, 0).unwrap();
    assert_eq!(session.prompt(), "F + fifth");
    let (correct, _, answer) = judged(session.handle_event(NoteEvent::NoteOn(60)));
    assert!(correct);
    assert_eq!(answer, "Answer: C");
    match session.handle_event(NoteEvent::NoteOff(60)) {
        Output::NextRound(prompt) => assert!(prompt.ends_with(" + fifth")),
        other => panic!("no new round: {:?}", other),
    }
}
