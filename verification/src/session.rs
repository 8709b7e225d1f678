//! The session driver: one quiz, its current round, and the notes that are
//! held. Each event may bring a judgment or the next round.

use crate::aggregator::{
    held_after, signal_after, state_after, NoteAggregator, NoteEvent, QuizState, Signal,
};
use crate::judgment::chord_matches;
use crate::midi::{decode_event, decoded};
use crate::quizzes::{
    display_quiz, display_result, is_result_of, is_round_of, option_models_of, prompt_text,
    start_round, OptionModel, Quiz, QuizModel, QuizOption, RoundResult,
};
use vstd::prelude::*;

verus! {

/// A session as plain values.
pub struct SessionModel {
    /// The quiz that is played.
    pub quiz: QuizModel,
    /// The option of the current round.
    pub option: OptionModel,
    /// The base note of the current round.
    pub base: int,
    /// The notes that are held.
    pub held: Set<u8>,
    /// Where the round stands.
    pub state: QuizState,
}

/// What an event brought about.
#[derive(Debug)]
pub enum Output {
    /// Nothing to show.
    Nothing,
    /// The chord was judged: show the outcome.
    Judged(RoundResult),
    /// A new round began: show its prompt.
    NextRound(String),
}

/// A running quiz.
#[derive(Debug)]
pub struct Session {
    quiz: Quiz,
    option: QuizOption,
    base: i16,
    notes: NoteAggregator,
}

impl View for Session {
    type V = SessionModel;

    closed spec fn view(&self) -> SessionModel {
        SessionModel {
            quiz: self.quiz@,
            option: self.option@,
            base: self.base as int,
            held: self.notes@.held,
            state: self.notes@.state,
        }
    }
}

/// The signal that an event raises in a session.
pub open spec fn signal_in(pre: SessionModel, event: NoteEvent) -> Signal {
    signal_after(pre.state, pre.held, event, pre.option.signature.len())
}

/// Whether `post` is what an event makes of `pre`, but for the round, which
/// stays unless the event ends it.
pub open spec fn follows(pre: SessionModel, event: NoteEvent, post: SessionModel) -> bool {
    &&& post.quiz == pre.quiz
    &&& post.held == held_after(pre.held, event)
    &&& post.state == state_after(pre.state, signal_in(pre, event))
    &&& signal_in(pre, event) != Signal::ChordReleased ==> post.base == pre.base && post.option
        == pre.option
}

/// Whether `output` is what an event brings about: the outcome of the round
/// where the chord became complete, judged on the notes held after the
/// event; the prompt of the new round where the chord was released; nothing
/// otherwise.
pub open spec fn reports(
    output: Output,
    pre: SessionModel,
    event: NoteEvent,
    post: SessionModel,
) -> bool {
    match signal_in(pre, event) {
        Signal::Quiet => output is Nothing,
        Signal::ChordComplete => match output {
            Output::Judged(result) => is_result_of(
                result,
                chord_matches(pre.base, pre.option.signature, post.held),
                pre.base,
                pre.option.signature,
            ),
            _ => false,
        },
        Signal::ChordReleased => match output {
            Output::NextRound(prompt) => prompt@ == prompt_text(post.base, post.option),
            _ => false,
        },
    }
}

impl Session {
    /// The invariant of a session: its round is one of its quiz.
    pub open spec fn wf(&self) -> bool {
        is_round_of(self@.quiz, self@.base, self@.option)
    }

    /// A session at rest on a given round: no note held, guessing. There is
    /// none where the base note is no pitch class or the quiz has no option
    /// at that index.
    pub fn new(quiz: Quiz, base: i16, option_index: usize) -> (session: Option<Session>)
        ensures
            session is Some <==> 0 <= base < 12 && option_index < quiz@.options.len(),
            session matches Some(s) ==> {
                &&& s.wf()
                &&& s@.quiz == quiz@
                &&& s@.base == base
                &&& s@.option == quiz@.options[option_index as int]
                &&& s@.held == Set::<u8>::empty()
                &&& s@.state == QuizState::Guessing
            },
    {
        let options = quiz.options();
        if 0 <= base && base < 12 && option_index < options.len() {
            let option = options[option_index];
            assert(option_models_of(options@)[option_index as int] == option@);
            Some(Session { quiz, option, base, notes: NoteAggregator::new() })
        } else {
            None
        }
    }

    /// A session at rest on a round drawn at random. There is none where the
    /// quiz has no option.
    pub fn start(quiz: Quiz) -> (session: Option<Session>)
        ensures
            session is Some <==> quiz@.options.len() > 0,
            session matches Some(s) ==> {
                &&& s.wf()
                &&& s@.quiz == quiz@
                &&& s@.held == Set::<u8>::empty()
                &&& s@.state == QuizState::Guessing
            },
    {
        if quiz.options().len() == 0 {
            return None;
        }
        let (base, option) = start_round(&quiz);
        Some(Session { quiz, option: *option, base, notes: NoteAggregator::new() })
    }

    /// Takes one event, with the round to play next should the event end the
    /// current one.
    pub fn advance(&mut self, event: NoteEvent, next_base: i16, next_option: QuizOption) -> (output:
        Output)
        requires
            old(self).wf(),
            is_round_of(old(self)@.quiz, next_base as int, next_option@),
        ensures
            final(self).wf(),
            follows(old(self)@, event, final(self)@),
            reports(output, old(self)@, event, final(self)@),
            signal_in(old(self)@, event) == Signal::ChordReleased ==> final(self)@.base == next_base
                && final(self)@.option == next_option@,
    {
        let signature = self.option.signature();
        match self.notes.feed(event, signature.len()) {
            Signal::Quiet => Output::Nothing,
            Signal::ChordComplete => Output::Judged(
                display_result(self.base, signature, self.notes.held_notes()),
            ),
            Signal::ChordReleased => {
                self.base = next_base;
                self.option = next_option;
                Output::NextRound(display_quiz(next_base, &next_option))
            },
        }
    }

    /// Takes one event. Where it ends the round, the next round is drawn at
    /// random.
    pub fn handle_event(&mut self, event: NoteEvent) -> (output: Output)
        requires
            old(self).wf(),
        ensures
            final(self).wf(),
            follows(old(self)@, event, final(self)@),
            reports(output, old(self)@, event, final(self)@),
    {
        if self.notes.releases(event, self.option.signature().len()) {
            let (base, option) = start_round(&self.quiz);
            self.advance(event, base, *option)
        } else {
            self.advance(event, self.base, self.option)
        }
    }

    /// The quiz that is played.
    pub fn quiz(&self) -> (quiz: Quiz)
        ensures
            quiz@ == self@.quiz,
    {
        self.quiz
    }

    /// The option of the current round.
    pub fn option(&self) -> (option: QuizOption)
        ensures
            option@ == self@.option,
    {
        self.option
    }

    /// The base note of the current round.
    pub fn base(&self) -> (base: i16)
        ensures
            base == self@.base,
    {
        self.base
    }

    /// Where the round stands.
    pub fn state(&self) -> (state: QuizState)
        ensures
            state == self@.state,
    {
        self.notes.state()
    }

    /// Whether `note` is held.
    pub fn is_held(&self, note: u8) -> (held: bool)
        ensures
            held == self@.held.contains(note),
    {
        self.notes.is_held(note)
    }

    /// The number of notes that are held.
    pub fn held_count(&self) -> (count: usize)
        ensures
            count == self@.held.len(),
    {
        self.notes.held_count()
    }

    /// The prompt of the current round.
    pub fn prompt(&self) -> (text: String)
        ensures
            text@ == prompt_text(self@.base, self@.option),
    {
        display_quiz(self.base, &self.option)
    }

    /// Takes one raw message of the device. A message that is no note-on and
    /// no note-off changes nothing.
    pub fn handle_message(&mut self, bytes: &[u8]) -> (output: Output)
        requires
            old(self).wf(),
        ensures
            final(self).wf(),
            follows(old(self)@, decoded(bytes@), final(self)@),
            reports(output, old(self)@, decoded(bytes@), final(self)@),
    {
        self.handle_event(decode_event(bytes))
    }
}

} // verus!
