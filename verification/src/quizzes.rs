//! The quiz catalog, the draw of a round, and the texts of a round.

use crate::error::{Menu, StartupError};
use crate::judgment::{chord_matches, get_quiz_result};
use crate::pitch::{
    get_chord_base_name, pitch_class, pitch_class_name, to_pitch_class, PITCH_CLASS_NAMES,
};
use rand::seq::SliceRandom;
use rand::Rng;
use std::collections::HashSet;
use vstd::prelude::*;
use vstd::string::StringExecFns;

verus! {

/// What a quiz option is, as plain values.
#[verifier::ext_equal]
pub struct OptionModel {
    /// The text shown after the name of the base note.
    pub label: Seq<char>,
    /// The offsets in semitones from the base note.
    pub signature: Seq<i16>,
}

/// What a quiz is, as plain values.
#[verifier::ext_equal]
pub struct QuizModel {
    /// The name shown in the menu.
    pub name: Seq<char>,
    /// The options, in catalog order.
    pub options: Seq<OptionModel>,
}

/// An interval or chord shape to be played on a base note.
#[derive(Clone, Copy, Debug)]
pub struct QuizOption {
    name: &'static str,
    pub signature: &'static [i16],
}

/// A named list of quiz options.
#[derive(Clone, Copy, Debug)]
pub struct Quiz {
    name: &'static str,
    options: &'static [QuizOption],
}

impl View for QuizOption {
    type V = OptionModel;

    closed spec fn view(&self) -> OptionModel {
        OptionModel { label: self.name@, signature: self.signature@ }
    }
}

impl View for Quiz {
    type V = QuizModel;

    closed spec fn view(&self) -> QuizModel {
        QuizModel { name: self.name@, options: self.options@.map_values(|o: QuizOption| o@) }
    }
}

/// The models of a list of options.
pub open spec fn option_models_of(list: Seq<QuizOption>) -> Seq<OptionModel> {
    list.map_values(|o: QuizOption| o@)
}

impl QuizOption {
    /// An option with this label and signature.
    pub fn new(name: &'static str, signature: &'static [i16]) -> (option: QuizOption)
        ensures
            option@.label == name@,
            option@.signature == signature@,
    {
        QuizOption { name, signature }
    }

    /// The text shown after the name of the base note.
    pub fn name(&self) -> (name: &'static str)
        ensures
            name@ == self@.label,
    {
        self.name
    }

    /// The offsets in semitones from the base note.
    pub fn signature(&self) -> (signature: &'static [i16])
        ensures
            signature@ == self@.signature,
    {
        self.signature
    }
}

impl Quiz {
    /// A quiz with this name and these options.
    pub fn new(name: &'static str, options: &'static [QuizOption]) -> (quiz: Quiz)
        ensures
            quiz@.name == name@,
            quiz@.options == option_models_of(options@),
    {
        Quiz { name, options }
    }

    /// The name shown in the menu.
    pub fn name(&self) -> (name: &'static str)
        ensures
            name@ == self@.name,
    {
        self.name
    }

    /// The options, in catalog order.
    pub fn options(&self) -> (options: &'static [QuizOption])
        ensures
            option_models_of(options@) == self@.options,
    {
        self.options
    }
}

/// The models of a list of quizzes.
pub open spec fn models_of(list: Seq<Quiz>) -> Seq<QuizModel> {
    list.map_values(|q: Quiz| q@)
}

/// The catalog, as plain values.
pub open spec fn catalog_model() -> Seq<QuizModel> {
    seq![
        QuizModel {
            name: "Fifths"@,
            options: seq![OptionModel { label: " + fifth"@, signature: seq![7i16] }],
        },
        QuizModel {
            name: "Major and minor chords"@,
            options: seq![
                OptionModel { label: " major"@, signature: seq![0i16, 4i16, 7i16] },
                OptionModel { label: " minor"@, signature: seq![0i16, 3i16, 7i16] },
            ],
        },
        QuizModel {
            name: "Root and shell"@,
            options: seq![
                OptionModel { label: "maj7"@, signature: seq![0i16, 4i16, 11i16] },
                OptionModel { label: "min7"@, signature: seq![0i16, 3i16, 10i16] },
                OptionModel { label: "7"@, signature: seq![0i16, 4i16, 10i16] },
            ],
        },
    ]
}

/// The catalog of quizzes.
pub fn quizzes() -> (catalog: &'static [Quiz])
    ensures
        models_of(catalog@) == catalog_model(),
{
    let catalog: &'static [Quiz] = &[
        Quiz { name: "Fifths", options: &[QuizOption { name: " + fifth", signature: &[7] }] },
        Quiz {
            name: "Major and minor chords",
            options: &[
                QuizOption { name: " major", signature: &[0, 4, 7] },
                QuizOption { name: " minor", signature: &[0, 3, 7] },
            ],
        },
        Quiz {
            name: "Root and shell",
            options: &[
                QuizOption { name: "maj7", signature: &[0, 4, 11] },
                QuizOption { name: "min7", signature: &[0, 3, 10] },
                QuizOption { name: "7", signature: &[0, 4, 10] },
            ],
        },
    ];
    assert(models_of(catalog@) =~~= catalog_model());
    catalog
}

/// The names of the quizzes of the catalog, in menu order.
pub fn quiz_names() -> (names: Vec<&'static str>)
    ensures
        names@.len() == catalog_model().len(),
        forall|i: int| 0 <= i < names@.len() ==> (#[trigger] names@[i])@ == catalog_model()[i].name,
{
    let catalog = quizzes();
    let mut names: Vec<&'static str> = Vec::new();
    for i in 0..catalog.len()
        invariant
            models_of(catalog@) == catalog_model(),
            names@.len() == i,
            forall|j: int| 0 <= j < i ==> (#[trigger] names@[j])@ == catalog_model()[j].name,
    {
        assert(models_of(catalog@)[i as int] == catalog@[i as int]@);
        names.push(catalog[i].name);
    }
    names
}

/// Picks a quiz from the catalog by its index in the menu.
pub fn get_quiz(selection: usize) -> (found: Result<&'static Quiz, StartupError>)
    ensures
        match found {
            Ok(quiz) => selection < catalog_model().len() && quiz@ == catalog_model()[selection as int],
            Err(error) => selection >= catalog_model().len() && error
                == StartupError::InvalidSelection(Menu::Quizzes),
        },
{
    let catalog = quizzes();
    assert(models_of(catalog@).len() == 3);
    if selection < catalog.len() {
        assert(models_of(catalog@)[selection as int] == catalog@[selection as int]@);
        Ok(&catalog[selection])
    } else {
        Err(StartupError::InvalidSelection(Menu::Quizzes))
    }
}

/// Draws a number from `low` up to, not including, `high` with
/// `Rng::gen_range` of rand, on the generator of the thread.
///
/// Trusted: that the number lies in that range. Which one comes is left
/// open. rand panics where the range is empty, so `low < high` is asked for.
/// The generator is seeded from the operating system when the thread first
/// uses it, and rand gives up where the system has no entropy to give.
#[verifier::external_body]
fn gen_range(low: i16, high: i16) -> (drawn: i16)
    requires
        low < high,
    ensures
        low <= drawn < high,
{
    rand::thread_rng().gen_range(low, high)
}

/// What a pick from a list may be: an item of the list, or nothing where the
/// list is empty.
pub open spec fn is_pick_from(options: Seq<QuizOption>, picked: Option<&QuizOption>) -> bool {
    match picked {
        Some(option) => options.contains(*option),
        None => options.len() == 0,
    }
}

/// Picks one item of the list with `SliceRandom::choose` of rand, on the
/// generator of the thread.
///
/// Trusted: that rand hands out an item of the list where there is one, and
/// nothing where the list is empty. Which item comes is left open. The
/// generator is the one that `gen_range` draws from.
#[verifier::external_body]
fn pick_option(options: &'static [QuizOption]) -> (picked: Option<&'static QuizOption>)
    ensures
        is_pick_from(options@, picked),
{
    options.choose(&mut rand::thread_rng())
}

/// Draws the base note of a round: any of the twelve pitch classes.
pub fn random_base() -> (base: i16)
    ensures
        0 <= base < 12,
{
    gen_range(0, 12)
}

/// Draws the option of a round: any option of the quiz.
pub fn random_quiz_option(quiz: &Quiz) -> (option: &'static QuizOption)
    requires
        quiz@.options.len() > 0,
    ensures
        quiz@.options.contains(option@),
{
    match pick_option(quiz.options) {
        Some(option) => {
            proof {
                let i = quiz.options@.index_of(*option);
                assert(quiz@.options[i] == option@);
            }
            option
        },
        None => unreached(),
    }
}

/// Whether a round is one of the quiz: its base note is a pitch class and its
/// option is an option of the quiz.
pub open spec fn is_round_of(quiz: QuizModel, base: int, option: OptionModel) -> bool {
    0 <= base < 12 && quiz.options.contains(option)
}

/// Draws the target of a new round: an option of the quiz and a base note,
/// one independent of the other.
pub fn start_round(quiz: &Quiz) -> (round: (i16, &'static QuizOption))
    requires
        quiz@.options.len() > 0,
    ensures
        is_round_of(quiz@, round.0 as int, round.1@),
{
    let option = random_quiz_option(quiz);
    let base = random_base();
    (base, option)
}

/// The names of the notes of the chord on the base note, in signature order.
pub open spec fn spelling(base: int, signature: Seq<i16>) -> Seq<Seq<char>> {
    Seq::new(signature.len(), |i: int| pitch_class_name(pitch_class(signature[i] + base)))
}

/// The names in order, with one space between neighbours.
pub open spec fn joined(names: Seq<Seq<char>>) -> Seq<char>
    decreases names.len(),
{
    if names.len() == 0 {
        Seq::empty()
    } else if names.len() == 1 {
        names[0]
    } else {
        joined(names.drop_last()) + " "@ + names.last()
    }
}

/// The expected notes of the chord on the base note, spelled out.
pub open spec fn answer_text(base: int, signature: Seq<i16>) -> Seq<char> {
    joined(spelling(base, signature))
}

/// The line that gives the expected notes.
pub open spec fn answer_line(base: int, signature: Seq<i16>) -> Seq<char> {
    "Answer: "@ + answer_text(base, signature)
}

/// The line that says whether the chord was right.
pub open spec fn verdict_text(correct: bool) -> Seq<char> {
    if correct {
        "Correct!"@
    } else {
        "Incorrect!"@
    }
}

/// The line that asks for a chord: the name of the base note, then the label
/// of the option.
pub open spec fn prompt_text(base: int, option: OptionModel) -> Seq<char> {
    pitch_class_name(base) + option.label
}

/// The views of a list of names.
pub open spec fn texts_of(names: Seq<&'static str>) -> Seq<Seq<char>> {
    names.map_values(|name: &'static str| name@)
}

/// Names the notes of the chord on the base note, in signature order.
pub fn chord_names(base: i16, signature: &[i16]) -> (names: Vec<&'static str>)
    ensures
        texts_of(names@) == spelling(base as int, signature@),
{
    let mut names: Vec<&'static str> = Vec::new();
    for i in 0..signature.len()
        invariant
            texts_of(names@) == spelling(base as int, signature@.take(i as int)),
    {
        let ghost before = names@;
        let pc = to_pitch_class(signature[i] as i32 + base as i32);
        names.push(get_chord_base_name(pc));
        proof {
            let now = spelling(base as int, signature@.take(i + 1));
            assert(texts_of(before).len() == i);
            assert forall|j: int| 0 <= j < i + 1 implies texts_of(names@)[j] == now[j] by {
                if j < i {
                    assert(texts_of(before)[j] == spelling(base as int, signature@.take(i as int))[j]);
                }
            }
            assert(texts_of(names@) =~= now);
        }
    }
    assert(signature@.take(signature@.len() as int) =~= signature@);
    names
}

/// Spells out the expected notes of the chord, whatever was played.
pub fn render_answer(base: i16, signature: &[i16]) -> (text: String)
    ensures
        text@ == answer_text(base as int, signature@),
{
    let names = chord_names(base, signature);
    let mut text = String::new();
    for i in 0..names.len()
        invariant
            text@ == joined(texts_of(names@).take(i as int)),
    {
        if i > 0 {
            text.append(" ");
        }
        text.append(names[i]);
        proof {
            let before = texts_of(names@).take(i as int);
            let now = texts_of(names@).take(i + 1);
            assert(now.drop_last() =~= before);
            assert(now.last() == names@[i as int]@);
            if i == 0 {
                assert(text@ =~= joined(now));
            }
        }
    }
    assert(texts_of(names@).take(names@.len() as int) =~= texts_of(names@));
    text
}

/// Renders the line that gives the expected notes.
pub fn display_answer(base: i16, signature: &[i16]) -> (line: String)
    ensures
        line@ == answer_line(base as int, signature@),
{
    let mut line = String::from_str("Answer: ");
    line.append(render_answer(base, signature).as_str());
    line
}

/// The outcome of a round.
#[derive(Debug)]
pub struct RoundResult {
    /// Whether the held notes were the chord.
    pub correct: bool,
    /// The line that says so.
    pub verdict: &'static str,
    /// The line that gives the expected notes.
    pub answer: String,
}

/// Whether `result` is the outcome of a round on this base note and
/// signature that was judged `correct`.
pub open spec fn is_result_of(
    result: RoundResult,
    correct: bool,
    base: int,
    signature: Seq<i16>,
) -> bool {
    &&& result.correct == correct
    &&& result.verdict@ == verdict_text(correct)
    &&& result.answer@ == answer_line(base, signature)
}

/// Renders the outcome of a round that was judged already.
pub fn render_result(correct: bool, base: i16, signature: &[i16]) -> (result: RoundResult)
    ensures
        is_result_of(result, correct, base as int, signature@),
{
    let verdict = if correct {
        "Correct!"
    } else {
        "Incorrect!"
    };
    RoundResult { correct, verdict, answer: display_answer(base, signature) }
}

/// Judges the held notes and renders the outcome.
pub fn display_result(base: i16, signature: &[i16], notes: &HashSet<u8>) -> (result: RoundResult)
    ensures
        is_result_of(
            result,
            chord_matches(base as int, signature@, notes@),
            base as int,
            signature@,
        ),
{
    render_result(get_quiz_result(base, signature, notes), base, signature)
}

/// Renders the prompt of a round.
pub fn display_quiz(base: i16, quiz_option: &QuizOption) -> (text: String)
    ensures
        text@ == prompt_text(base as int, quiz_option@),
{
    let mut text = String::from_str(get_chord_base_name(base));
    text.append(quiz_option.name);
    text
}

/// The answer names one note for each offset of the signature, in signature
/// order, and each name is an entry of the table of names.
pub proof fn lemma_answer_spells_signature(base: int, signature: Seq<i16>)
    ensures
        spelling(base, signature).len() == signature.len(),
        forall|i: int|
            0 <= i < signature.len() ==> (#[trigger] spelling(base, signature)[i])
                == PITCH_CLASS_NAMES@[pitch_class(signature[i] + base)]@,
        forall|i: int|
            0 <= i < signature.len() ==> 0 <= pitch_class(#[trigger] signature[i] + base) < 12,
{
}

} // verus!
