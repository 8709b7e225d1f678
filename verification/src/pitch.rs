//! Pitch classes: notes reduced modulo the twelve semitones of an octave.

use vstd::arithmetic::div_mod::lemma_mod_multiples_vanish;
use vstd::prelude::*;

verus! {

/// The number of pitch classes in an octave.
pub const SEMITONES: i32 = 12;

/// The pitch class of a note number: its remainder modulo twelve, never negative.
pub open spec fn pitch_class(n: int) -> int {
    n % 12
}

/// Reduces a raw note number to its pitch class.
pub fn to_pitch_class(raw_note: i32) -> (pc: i16)
    ensures
        pc == pitch_class(raw_note as int),
        0 <= pc < 12,
{
    let r: i32 = raw_note % SEMITONES;
    if r < 0 {
        (r + SEMITONES) as i16
    } else {
        r as i16
    }
}

/// The names of the twelve pitch classes, flats for the black keys.
pub const PITCH_CLASS_NAMES: [&'static str; 12] = [
    "C", "Db", "D", "Eb", "E", "F", "Gb", "G", "Ab", "A", "Bb", "B",
];

/// The name of a pitch class; a question mark for a number that is none.
pub open spec fn pitch_class_name(pc: int) -> Seq<char> {
    if 0 <= pc < 12 {
        PITCH_CLASS_NAMES@[pc]@
    } else {
        "?"@
    }
}

/// Looks up the name of a pitch class.
pub fn get_chord_base_name(chord_base: i16) -> (name: &'static str)
    ensures
        name@ == pitch_class_name(chord_base as int),
{
    if 0 <= chord_base && chord_base < 12 {
        PITCH_CLASS_NAMES[chord_base as usize]
    } else {
        "?"
    }
}

/// A pitch class is one of twelve, and notes that are whole octaves apart,
/// up or down, have the same pitch class.
pub proof fn lemma_octave_invariance(n: int, k: int)
    ensures
        0 <= pitch_class(n) < 12,
        pitch_class(n + 12 * k) == pitch_class(n),
{
    lemma_mod_multiples_vanish(k, n, 12);
}

} // verus!
