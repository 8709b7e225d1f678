//! The note aggregator: the set of held notes and the state of the round,
//! driven by note-on and note-off events.

use std::collections::HashSet;
use vstd::prelude::*;
use vstd::set_lib::{lemma_set_subset_finite, FiniteFull};

verus! {

broadcast use vstd::std_specs::hash::group_hash_axioms;

/// Where a round stands.
#[derive(Clone, Copy, Debug, PartialEq, Eq, Structural)]
pub enum QuizState {
    /// Waiting for the player to complete a chord.
    Guessing,
    /// The chord was judged; waiting for every key to be released.
    Pending,
}

/// A device event, as far as the quiz cares.
#[derive(Clone, Copy, Debug, PartialEq, Eq, Structural)]
pub enum NoteEvent {
    /// A key went down.
    NoteOn(u8),
    /// A key went up.
    NoteOff(u8),
    /// Anything else; it changes nothing.
    Other,
}

/// What the aggregator reports after an event.
#[derive(Clone, Copy, Debug, PartialEq, Eq, Structural)]
pub enum Signal {
    /// Nothing to do.
    Quiet,
    /// The held notes have reached the size of the target: judge them now.
    ChordComplete,
    /// Every key is up again after a judgment: start the next round.
    ChordReleased,
}

/// The aggregator as plain values.
pub struct AggregatorModel {
    /// The notes that are held.
    pub held: Set<u8>,
    /// Where the round stands.
    pub state: QuizState,
}

/// The held notes after an event.
pub open spec fn held_after(held: Set<u8>, event: NoteEvent) -> Set<u8> {
    match event {
        NoteEvent::NoteOn(note) => held.insert(note),
        NoteEvent::NoteOff(note) => held.remove(note),
        NoteEvent::Other => held,
    }
}

/// The signal that an event raises, given the state and the held notes
/// before it and the number of notes in the target.
///
/// A chord is complete whenever a note event leaves exactly `target` notes
/// held while guessing, be it on the way up or on the way down. It is
/// released when a note-off leaves no note held while pending.
pub open spec fn signal_after(
    state: QuizState,
    held: Set<u8>,
    event: NoteEvent,
    target: nat,
) -> Signal {
    let now = held_after(held, event);
    match event {
        NoteEvent::Other => Signal::Quiet,
        NoteEvent::NoteOn(_) => if state == QuizState::Guessing && now.len() == target {
            Signal::ChordComplete
        } else {
            Signal::Quiet
        },
        NoteEvent::NoteOff(_) => if state == QuizState::Guessing && now.len() == target {
            Signal::ChordComplete
        } else if state == QuizState::Pending && now.len() == 0 {
            Signal::ChordReleased
        } else {
            Signal::Quiet
        },
    }
}

/// The state that follows a signal.
pub open spec fn state_after(state: QuizState, signal: Signal) -> QuizState {
    match signal {
        Signal::Quiet => state,
        Signal::ChordComplete => QuizState::Pending,
        Signal::ChordReleased => QuizState::Guessing,
    }
}

/// The aggregator after an event.
pub open spec fn step(pre: AggregatorModel, event: NoteEvent, target: nat) -> AggregatorModel {
    AggregatorModel {
        held: held_after(pre.held, event),
        state: state_after(pre.state, signal_after(pre.state, pre.held, event, target)),
    }
}

/// The aggregator after the first `count` events of a run. `targets[i]` is
/// the number of notes asked for when `events[i]` arrives.
pub open spec fn after_events(
    start: AggregatorModel,
    events: Seq<NoteEvent>,
    targets: Seq<nat>,
    count: nat,
) -> AggregatorModel
    decreases count,
{
    if count == 0 {
        start
    } else {
        step(
            after_events(start, events, targets, (count - 1) as nat),
            events[count - 1],
            targets[count - 1],
        )
    }
}

/// The signal that `events[i]` raises in a run.
pub open spec fn signal_at(
    start: AggregatorModel,
    events: Seq<NoteEvent>,
    targets: Seq<nat>,
    i: nat,
) -> Signal {
    let pre = after_events(start, events, targets, i);
    signal_after(pre.state, pre.held, events[i as int], targets[i as int])
}

/// A chord is judged at most once while keys are down: while pending, no
/// event completes a chord, and the state stays pending until a note-off
/// leaves no note held.
pub proof fn lemma_judged_once(held: Set<u8>, event: NoteEvent, target: nat)
    ensures
        signal_after(QuizState::Pending, held, event, target) != Signal::ChordComplete,
        signal_after(QuizState::Pending, held, event, target) == Signal::ChordReleased ==> event
            is NoteOff && held_after(held, event).len() == 0,
        signal_after(QuizState::Pending, held, event, target) == Signal::Quiet ==> state_after(
            QuizState::Pending,
            signal_after(QuizState::Pending, held, event, target),
        ) == QuizState::Pending,
{
}

/// While guessing, a chord is complete as soon as a note event leaves as
/// many notes held as the target has, on a key going down and on a key going
/// up alike; and a new round never starts while guessing.
pub proof fn lemma_complete_on_count(held: Set<u8>, event: NoteEvent, target: nat)
    requires
        event !is Other,
    ensures
        signal_after(QuizState::Guessing, held, event, target) == Signal::ChordComplete
            <==> held_after(held, event).len() == target,
        signal_after(QuizState::Guessing, held, event, target) != Signal::ChordReleased,
{
}

/// An event that is no note event changes nothing.
pub proof fn lemma_other_is_ignored(state: QuizState, held: Set<u8>, target: nat)
    ensures
        held_after(held, NoteEvent::Other) == held,
        signal_after(state, held, NoteEvent::Other, target) == Signal::Quiet,
        state_after(state, Signal::Quiet) == state,
{
}

/// After a judgment the aggregator stays pending for as long as no event
/// releases the chord.
proof fn lemma_stays_pending(
    start: AggregatorModel,
    events: Seq<NoteEvent>,
    targets: Seq<nat>,
    judged: nat,
    later: nat,
)
    requires
        judged < later,
        signal_at(start, events, targets, judged) == Signal::ChordComplete,
        forall|k: nat|
            judged < k < later ==> signal_at(start, events, targets, k) != Signal::ChordReleased,
    ensures
        after_events(start, events, targets, later).state == QuizState::Pending,
    decreases later,
{
    if later > judged + 1 {
        let last = (later - 1) as nat;
        lemma_stays_pending(start, events, targets, judged, last);
        let pre = after_events(start, events, targets, last);
        lemma_judged_once(pre.held, events[last as int], targets[last as int]);
        assert(signal_at(start, events, targets, last) != Signal::ChordReleased);
    }
}

/// In any run of events, whatever the targets, there is no second judgment
/// before the chord of the first was released: between two events that
/// complete a chord lies one that leaves no note held and starts a new round.
pub proof fn lemma_one_judgment_per_episode(
    start: AggregatorModel,
    events: Seq<NoteEvent>,
    targets: Seq<nat>,
    first: nat,
    second: nat,
)
    requires
        events.len() == targets.len(),
        first < second < events.len(),
        signal_at(start, events, targets, first) == Signal::ChordComplete,
        signal_at(start, events, targets, second) == Signal::ChordComplete,
    ensures
        exists|k: nat|
            first < k < second && #[trigger] signal_at(start, events, targets, k)
                == Signal::ChordReleased && after_events(start, events, targets, k + 1).held.len()
                == 0,
{
    if forall|k: nat|
        first < k < second ==> signal_at(start, events, targets, k) != Signal::ChordReleased {
        lemma_stays_pending(start, events, targets, first, second);
        let pre = after_events(start, events, targets, second);
        lemma_judged_once(pre.held, events[second as int], targets[second as int]);
        assert(false);
    }
    let k = choose|k: nat|
        first < k < second && signal_at(start, events, targets, k) == Signal::ChordReleased;
    let pre = after_events(start, events, targets, k);
    lemma_judged_once(pre.held, events[k as int], targets[k as int]);
    assert(after_events(start, events, targets, k + 1).held == held_after(pre.held, events[k as int]));
}

/// Every set of notes is finite: a note is one of 256 numbers.
pub proof fn lemma_notes_finite(notes: Set<u8>)
    ensures
        notes.finite(),
{
    u8::full_properties();
    assert(notes.subset_of(Set::<u8>::full()));
    lemma_set_subset_finite(Set::<u8>::full(), notes);
}

/// The notes that are down, and whether they were judged already.
#[derive(Debug)]
pub struct NoteAggregator {
    held: HashSet<u8>,
    state: QuizState,
}

impl View for NoteAggregator {
    type V = AggregatorModel;

    closed spec fn view(&self) -> AggregatorModel {
        AggregatorModel { held: self.held@, state: self.state }
    }
}

impl NoteAggregator {
    /// At rest: no note held, guessing.
    pub fn new() -> (fresh: NoteAggregator)
        ensures
            fresh@.held == Set::<u8>::empty(),
            fresh@.state == QuizState::Guessing,
    {
        NoteAggregator { held: HashSet::new(), state: QuizState::Guessing }
    }

    /// Takes one event and says what it calls for. `target` is the number of
    /// notes in the chord that is asked for.
    pub fn feed(&mut self, event: NoteEvent, target: usize) -> (signal: Signal)
        ensures
            signal == signal_after(old(self)@.state, old(self)@.held, event, target as nat),
            final(self)@ == step(old(self)@, event, target as nat),
    {
        let released = match event {
            NoteEvent::NoteOn(note) => {
                self.held.insert(note);
                false
            },
            NoteEvent::NoteOff(note) => {
                self.held.remove(&note);
                true
            },
            NoteEvent::Other => {
                return Signal::Quiet;
            },
        };
        let count = self.held.len();
        if self.state == QuizState::Guessing && count == target {
            self.state = QuizState::Pending;
            Signal::ChordComplete
        } else if released && self.state == QuizState::Pending && count == 0 {
            self.state = QuizState::Guessing;
            Signal::ChordReleased
        } else {
            Signal::Quiet
        }
    }

    /// Whether the event would end the round: whether `feed` would answer
    /// it with `ChordReleased`. Nothing is changed.
    pub fn releases(&self, event: NoteEvent, target: usize) -> (ends: bool)
        ensures
            ends == (signal_after(self@.state, self@.held, event, target as nat)
                == Signal::ChordReleased),
    {
        match event {
            NoteEvent::NoteOff(note) => {
                let count = self.held.len();
                proof {
                    lemma_notes_finite(self@.held);
                    if !self@.held.contains(note) {
                        assert(self@.held.remove(note) =~= self@.held);
                    }
                }
                self.state == QuizState::Pending && (count == 0 || (count == 1
                    && self.held.contains(&note)))
            },
            _ => false,
        }
    }

    /// The state of the round.
    pub fn state(&self) -> (state: QuizState)
        ensures
            state == self@.state,
    {
        self.state
    }

    /// Whether `note` is held.
    pub fn is_held(&self, note: u8) -> (held: bool)
        ensures
            held == self@.held.contains(note),
    {
        self.held.contains(&note)
    }

    /// The number of notes that are held.
    pub fn held_count(&self) -> (count: usize)
        ensures
            count == self@.held.len(),
    {
        self.held.len()
    }

    /// The notes that are held.
    pub fn held_notes(&self) -> (notes: &HashSet<u8>)
        ensures
            notes@ == self@.held,
    {
        &self.held
    }
}

} // verus!
