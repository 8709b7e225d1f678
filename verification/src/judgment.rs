//! The judgment of a played chord: are the held notes, taken as offsets from
//! the base note within one octave, exactly the offsets of the signature?

use crate::pitch::{pitch_class, to_pitch_class};
use std::collections::HashSet;
use vstd::prelude::*;

verus! {

broadcast use vstd::std_specs::hash::group_hash_axioms;

/// The offset of a note from the base note, in semitones within one octave.
pub open spec fn offset_from(base: int, note: int) -> int {
    pitch_class(pitch_class(note) - base)
}

/// The offsets from the base note that the held notes make.
pub open spec fn played_offsets(base: int, notes: Set<u8>) -> Set<int> {
    Set::new(|o: int| exists|n: u8| #[trigger] notes.contains(n) && offset_from(base, n as int) == o)
}

/// The offsets that a signature asks for.
pub open spec fn wanted_offsets(signature: Seq<i16>) -> Set<int> {
    Set::new(|o: int| exists|i: int| 0 <= i < signature.len() && #[trigger] signature[i] == o)
}

/// Whether the held notes are the chord: the offsets they make are exactly
/// those of the signature, no more and no fewer.
pub open spec fn chord_matches(base: int, signature: Seq<i16>, notes: Set<u8>) -> bool {
    played_offsets(base, notes) =~= wanted_offsets(signature)
}

/// The offset of one held note from the base note.
pub fn note_offset(base: i16, note: u8) -> (offset: i16)
    ensures
        offset == offset_from(base as int, note as int),
        0 <= offset < 12,
{
    let pc = to_pitch_class(note as i32);
    to_pitch_class(pc as i32 - base as i32)
}

/// Judges the held notes against the signature on the base note.
pub fn get_quiz_result(base: i16, signature: &[i16], notes: &HashSet<u8>) -> (correct: bool)
    ensures
        correct == chord_matches(base as int, signature@, notes@),
{
    let mut played: [bool; 12] = [false; 12];
    let ghost mut seen: Set<u8> = Set::empty();
    for note in it: notes.iter()
        invariant
            forall|n: u8|
                seen.contains(n) <==> exists|j: int|
                    0 <= j < it.index() && *(#[trigger] it.seq()[j]) == n,
            forall|o: int|
                0 <= o < 12 ==> (#[trigger] played[o] <==> played_offsets(base as int, seen).contains(
                    o,
                )),
            it.seq().unref().to_set() == notes@,
            it.index() == it.seq().len() ==> seen =~= notes@,
    {
        let offset = note_offset(base, *note);
        played[offset as usize] = true;
        let ghost before = seen;
        proof {
            seen = seen.insert(*note);
        }
        proof {
            let next = it.index() + 1;
            assert(it.seq()[it.index()] == note);
            assert forall|n: u8| seen.contains(n) implies exists|j: int|
                0 <= j < next && *(#[trigger] it.seq()[j]) == n by {
                if n != *note {
                    assert(before.contains(n));
                }
            }
            assert forall|o: int| 0 <= o < 12 implies (#[trigger] played[o] <==> played_offsets(
                base as int,
                seen,
            ).contains(o)) by {
                if played_offsets(base as int, before).contains(o) {
                    let n = choose|n: u8| #[trigger]
                        before.contains(n) && offset_from(base as int, n as int) == o;
                    assert(seen.contains(n));
                }
                if o == offset {
                    assert(seen.contains(*note));
                }
            }
            assert forall|n: u8| next == it.seq().len() && notes@.contains(n) implies seen.contains(
                n,
            ) by {
                assert(it.seq().unref().contains(n));
                let j = choose|j: int| 0 <= j < it.seq().unref().len() && it.seq().unref()[j] == n;
                assert(*it.seq()[j] == n);
            }
            assert forall|n: u8| seen.contains(n) implies notes@.contains(n) by {
                let j = choose|j: int| 0 <= j < next && *(#[trigger] it.seq()[j]) == n;
                assert(it.seq().unref()[j] == n);
                assert(it.seq().unref().contains(n));
            }
        }
    }
    assert(seen == notes@);
    let mut wanted: [bool; 12] = [false; 12];
    let mut in_octave = true;
    for i in 0..signature.len()
        invariant
            forall|o: int|
                0 <= o < 12 ==> (#[trigger] wanted[o] <==> exists|j: int|
                    0 <= j < i && #[trigger] signature@[j] == o),
            in_octave <==> forall|j: int| 0 <= j < i ==> 0 <= #[trigger] signature@[j] < 12,
    {
        let offset = signature[i];
        if 0 <= offset && offset < 12 {
            wanted[offset as usize] = true;
        } else {
            in_octave = false;
        }
    }
    let mut same = in_octave;
    for o in 0..12usize
        invariant
            same <==> in_octave && forall|k: int| 0 <= k < o ==> played[k] == wanted[k],
    {
        if played[o] != wanted[o] {
            same = false;
        }
    }
    proof {
        let asked = wanted_offsets(signature@);
        let made = played_offsets(base as int, notes@);
        assert forall|o: int| made.contains(o) implies 0 <= o < 12 by {}
        if in_octave {
            assert forall|o: int| asked.contains(o) implies 0 <= o < 12 by {}
            if same {
                assert forall|o: int| made.contains(o) <==> asked.contains(o) by {
                    if 0 <= o < 12 {
                        assert(played[o] == wanted[o]);
                    }
                }
                assert(made =~= asked);
            } else {
                let k = choose|k: int| 0 <= k < 12 && played[k] != wanted[k];
                assert(made.contains(k) != asked.contains(k));
            }
        } else {
            let j = choose|j: int| 0 <= j < signature@.len() && !(0 <= #[trigger] signature@[j] < 12);
            assert(asked.contains(signature@[j] as int));
            assert(!made.contains(signature@[j] as int));
        }
    }
    same
}

/// The held notes are the chord exactly when nothing is extra and nothing is
/// missing: every held note makes an offset of the signature, and every
/// offset of the signature is made by a held note.
pub proof fn lemma_match_is_exact(base: int, signature: Seq<i16>, notes: Set<u8>)
    ensures
        chord_matches(base, signature, notes) <==> {
            &&& forall|n: u8| #[trigger]
                notes.contains(n) ==> wanted_offsets(signature).contains(offset_from(base, n as int))
            &&& forall|i: int|
                0 <= i < signature.len() ==> played_offsets(base, notes).contains(
                    #[trigger] signature[i] as int,
                )
        },
{
    let made = played_offsets(base, notes);
    let asked = wanted_offsets(signature);
    if chord_matches(base, signature, notes) {
        assert forall|n: u8| #[trigger] notes.contains(n) implies asked.contains(
            offset_from(base, n as int),
        ) by {
            assert(made.contains(offset_from(base, n as int)));
        }
        assert forall|i: int| 0 <= i < signature.len() implies made.contains(
            #[trigger] signature[i] as int,
        ) by {
            assert(asked.contains(signature[i] as int));
        }
    }
    if (forall|n: u8| #[trigger] notes.contains(n) ==> asked.contains(offset_from(base, n as int)))
        && (forall|i: int| 0 <= i < signature.len() ==> made.contains(#[trigger] signature[i] as int)) {
        assert(made =~= asked);
    }
}

/// An extra note makes the judgment false: a held note whose offset is none
/// of the signature.
pub proof fn lemma_extra_note_fails(base: int, signature: Seq<i16>, notes: Set<u8>, extra: u8)
    requires
        notes.contains(extra),
        !wanted_offsets(signature).contains(offset_from(base, extra as int)),
    ensures
        !chord_matches(base, signature, notes),
{
    lemma_match_is_exact(base, signature, notes);
}

/// A missing note makes the judgment false: an offset of the signature that
/// no held note makes.
pub proof fn lemma_missing_note_fails(base: int, signature: Seq<i16>, notes: Set<u8>, missing: int)
    requires
        0 <= missing < signature.len(),
        forall|n: u8| #[trigger] notes.contains(n) ==> offset_from(base, n as int) != signature[missing],
    ensures
        !chord_matches(base, signature, notes),
{
    lemma_match_is_exact(base, signature, notes);
    assert(!played_offsets(base, notes).contains(signature[missing] as int));
}

/// The judgment depends on the signature only through the set of its
/// offsets: neither their order nor a repetition matters.
pub proof fn lemma_signature_as_set(base: int, signature: Seq<i16>, other: Seq<i16>, notes: Set<u8>)
    requires
        signature.to_set() == other.to_set(),
    ensures
        chord_matches(base, signature, notes) == chord_matches(base, other, notes),
{
    assert forall|o: int| wanted_offsets(signature).contains(o) <==> wanted_offsets(other).contains(
        o,
    ) by {
        if wanted_offsets(signature).contains(o) {
            let i = choose|i: int| 0 <= i < signature.len() && #[trigger] signature[i] == o;
            assert(signature.to_set().contains(signature[i]));
            assert(other.contains(signature[i]));
        }
        if wanted_offsets(other).contains(o) {
            let i = choose|i: int| 0 <= i < other.len() && #[trigger] other[i] == o;
            assert(other.to_set().contains(other[i]));
            assert(signature.contains(other[i]));
        }
    }
    assert(wanted_offsets(signature) =~= wanted_offsets(other));
}

/// The order of the notes and the order of the signature never affect the
/// judgment: played in any order, against the signature in any order, the
/// same notes are judged the same.
pub proof fn lemma_order_is_irrelevant(
    base: int,
    signature: Seq<i16>,
    shuffled_signature: Seq<i16>,
    notes: Seq<u8>,
    shuffled_notes: Seq<u8>,
)
    requires
        signature.to_multiset() == shuffled_signature.to_multiset(),
        notes.to_multiset() == shuffled_notes.to_multiset(),
    ensures
        chord_matches(base, signature, notes.to_set()) == chord_matches(
            base,
            shuffled_signature,
            shuffled_notes.to_set(),
        ),
{
    signature.to_multiset_ensures();
    shuffled_signature.to_multiset_ensures();
    notes.to_multiset_ensures();
    shuffled_notes.to_multiset_ensures();
    assert forall|o: i16| signature.to_set().contains(o) <==> shuffled_signature.to_set().contains(
        o,
    ) by {
        assert(signature.contains(o) <==> signature.to_multiset().count(o) > 0);
        assert(shuffled_signature.contains(o) <==> shuffled_signature.to_multiset().count(o) > 0);
    }
    assert forall|n: u8| notes.to_set().contains(n) <==> shuffled_notes.to_set().contains(n) by {
        assert(notes.contains(n) <==> notes.to_multiset().count(n) > 0);
        assert(shuffled_notes.contains(n) <==> shuffled_notes.to_multiset().count(n) > 0);
    }
    assert(signature.to_set() =~= shuffled_signature.to_set());
    assert(notes.to_set() =~= shuffled_notes.to_set());
    lemma_signature_as_set(base, signature, shuffled_signature, notes.to_set());
}

} // verus!
