//! Answers that the bot gives unasked, when a message holds a trigger word.

use crate::{text::text_view, trigger::rodo::Rodo};
use rand::Rng;
use vstd::prelude::*;

pub mod rodo;

verus! {

/// `simsearch::SimSearch`, the fuzzy search engine: a collection of texts,
/// each under an id, that finds the ids whose text resembles a pattern.
#[verifier::external_type_specification]
#[verifier::external_body]
#[verifier::reject_recursive_types(Id)]
pub struct ExSimSearch<Id: Eq + PartialEq + Clone + std::hash::Hash + Ord>(simsearch::SimSearch<Id>);

/// The texts that an engine holds, each under its id.
pub uninterp spec fn engine_entries(engine: simsearch::SimSearch<u32>) -> Map<u32, Seq<char>>;

/// Whether the engine, with its default options, finds the text `content`
/// for `pattern`: some word of `content` and some word of `pattern`, both in
/// lower case, have a Jaro-Winkler similarity above 0.8.
pub uninterp spec fn resembles(content: Seq<char>, pattern: Seq<char>) -> bool;

/// An engine's entries when it has none.
pub open spec fn no_entries() -> Map<u32, Seq<char>> {
    Map::empty()
}

/// `SimSearch::new`: an engine with the default options and no entry.
#[verifier::external_body]
fn engine_new() -> (engine: simsearch::SimSearch<u32>)
    ensures
        engine_entries(engine) == no_entries(),
{
    simsearch::SimSearch::new()
}

/// `SimSearch::insert`: `content` becomes the text under `id`, in place of an
/// earlier one; the other entries stay.
#[verifier::external_body]
fn engine_insert(engine: &mut simsearch::SimSearch<u32>, id: u32, content: &str)
    ensures
        engine_entries(*final(engine)) == engine_entries(*old(engine)).insert(id, content@),
{
    engine.insert(id, content)
}

/// `SimSearch::search`: an id is among the hits where, and only where, the
/// engine holds a text under it that resembles `pattern`. Nothing is claimed
/// of the order of the hits.
#[verifier::external_body]
fn engine_search(engine: &simsearch::SimSearch<u32>, pattern: &str) -> (hits: Vec<u32>)
    ensures
        forall|id: u32|
            hits@.contains(id) == (engine_entries(*engine).dom().contains(id) && resembles(
                engine_entries(*engine)[id],
                pattern@,
            )),
{
    engine.search(pattern)
}

/// Whether a search found anything.
pub fn is_hit(hits: &Vec<u32>) -> (hit: bool)
    ensures
        hit == (hits@.len() > 0),
{
    hits.len() > 0
}

/// How the standard library puts a text in lower case.
pub uninterp spec fn lowercase_text(s: Seq<char>) -> Seq<char>;

/// `str::to_lowercase` of the standard library. The contract gives the
/// result the name `lowercase_text`, as a function of the text alone.
#[verifier::external_body]
fn lowercase(content: &str) -> (lowered: String)
    ensures
        lowered@ == lowercase_text(content@),
{
    content.to_lowercase()
}

/// `Rng::gen_range` on `rand::thread_rng()`: a number drawn from `low` up to,
/// and not including, `high`. Which one is not said: two calls may differ.
#[verifier::external_body]
fn random_in(low: i32, high: i32) -> (roll: i32)
    requires
        low < high,
    ensures
        low <= roll < high,
{
    rand::thread_rng().gen_range(low..high)
}

/// The remainder of `a` by 100 that has the sign of `a`.
pub open spec fn remainder_by_100(a: int) -> int {
    if a >= 0 {
        a % 100
    } else {
        -((-a) % 100)
    }
}

/// Whether a roll of the dice, from 0 to 99, lets a trigger of this frequency
/// answer.
pub open spec fn lucky(roll: int, frequency: int) -> bool {
    roll <= remainder_by_100(frequency)
}

/// An answer that the bot gives unasked: what it says, how often, and to what.
pub trait Trigger {
    /// The answer.
    spec fn message_text() -> Seq<char>;

    /// What the answer is called in the log.
    spec fn name_text() -> Seq<char>;

    /// How many rolls in a hundred let the trigger answer, less one.
    spec fn rate() -> int;

    /// Whether `content` calls for the answer.
    spec fn triggered_by(content: Seq<char>) -> bool;

    /// The answer.
    fn message() -> (message: String)
        ensures
            message@ == Self::message_text(),
    ;

    /// What the answer is called in the log.
    fn name() -> (name: String)
        ensures
            name@ == Self::name_text(),
    ;

    /// How many rolls in a hundred let the trigger answer, less one.
    fn frequency() -> (frequency: i32)
        ensures
            frequency == Self::rate(),
    ;

    /// Whether `content` calls for the answer.
    fn contains_trigger(content: &str) -> (found: bool)
        ensures
            found == Self::triggered_by(content@),
    ;
}

/// Whether `roll` lets a trigger of this frequency answer.
pub fn roll_is_lucky(roll: i32, frequency: i32) -> (luck: bool)
    ensures
        luck == lucky(roll as int, frequency as int),
{
    roll <= frequency % 100
}

/// Whether `roll` lets the trigger `T` answer.
pub fn is_lucky_roll<T: Trigger>(roll: i32) -> (luck: bool)
    ensures
        luck == lucky(roll as int, T::rate()),
{
    roll_is_lucky(roll, T::frequency())
}

/// Rolls the dice for the trigger `T`: the luck of some roll from 0 to 99. A
/// remainder below zero is never lucky; one of 99 always is.
pub fn is_lucky<T: Trigger>() -> (luck: bool)
    ensures
        exists|roll: int| 0 <= roll < 100 && luck == #[trigger] lucky(roll, T::rate()),
        remainder_by_100(T::rate()) < 0 ==> !luck,
        remainder_by_100(T::rate()) >= 99 ==> luck,
{
    let roll = random_in(0, 100);
    is_lucky_roll::<T>(roll)
}

/// Whether `content` is something else than the answer of `T`: the bot does
/// not answer itself.
pub fn is_not_sent_by_bot<T: Trigger>(content: &str) -> (foreign: bool)
    ensures
        foreign == (content@ != T::message_text()),
{
    let content = String::from_str(content);
    let message = T::message();
    !(content == message)
}

/// Decides on a given roll whether `T` answers to `content`, and with what.
pub fn answer_on_roll<T: Trigger>(content: &str, roll: i32) -> (answer: Option<String>)
    ensures
        text_view(answer) == decided::<T>(content@, roll as int),
{
    if is_not_sent_by_bot::<T>(content) && T::contains_trigger(content) && is_lucky_roll::<T>(
        roll,
    ) {
        Some(T::message())
    } else {
        None
    }
}

/// Decides whether `T` answers to `content`, rolling the dice where it may:
/// the answer is the one decided on some roll from 0 to 99.
pub fn handle_trigger<T: Trigger>(content: &str) -> (answer: Option<String>)
    ensures
        exists|roll: int|
            0 <= roll < 100 && text_view(answer) == #[trigger] decided::<T>(content@, roll),
        content@ == T::message_text() || !T::triggered_by(content@) ==> answer is None,
        content@ != T::message_text() && T::triggered_by(content@) && remainder_by_100(T::rate())
            >= 99 ==> answer is Some,
{
    if is_not_sent_by_bot::<T>(content) && T::contains_trigger(content) {
        let luck = is_lucky::<T>();
        let ghost roll = choose|roll: int| 0 <= roll < 100 && luck == lucky(roll, T::rate());
        assert(decided::<T>(content@, roll) is Some == luck);
        if luck {
            Some(T::message())
        } else {
            None
        }
    } else {
        assert(decided::<T>(content@, 0) is None);
        None
    }
}

/// What the bot answers unasked to `content`, if anything.
pub fn handle_triggers(content: &str) -> (answer: Option<String>)
    ensures
        exists|roll: int|
            0 <= roll < 100 && text_view(answer) == #[trigger] decided::<Rodo>(content@, roll),
        content@ == Rodo::message_text() || !Rodo::triggered_by(content@) ==> answer is None,
{
    handle_trigger::<Rodo>(content)
}

/// Whether the trigger `T` answers to `content` on this roll: the message is
/// not the bot's own answer, it holds a trigger word, and the roll is lucky.
pub open spec fn answers<T: Trigger>(content: Seq<char>, roll: int) -> bool {
    content != T::message_text() && T::triggered_by(content) && lucky(roll, T::rate())
}

/// What the trigger `T` answers to `content` on this roll: its message where
/// it answers, and nothing where it does not.
pub open spec fn decided<T: Trigger>(content: Seq<char>, roll: int) -> Option<Seq<char>> {
    if answers::<T>(content, roll) {
        Some(T::message_text())
    } else {
        None
    }
}

} // verus!
