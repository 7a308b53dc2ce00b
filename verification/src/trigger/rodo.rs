//! The notice on recordings.

use crate::trigger::{
    engine_entries, engine_insert, engine_new, engine_search, is_hit, lowercase, lowercase_text,
    resembles, Trigger,
};
use vstd::prelude::*;

verus! {

/// What the notice says.
pub const RODO_MESSAGE: &'static str =
    r#"W związku z zapytaniem, informuję, iż problem z nagrywaniem wiąże się z
naruszeniem RODO wobec STUDENTÓW.

Dla mnie (na tę chwilę) jest to o tyle niezrozumiałe (mimo konkretnych
"ściśle prawniczych" argumentów podniesionych przez Panią Tokarczyk), że
nawet gdyby wszyscy studenci PROSILI o nagrywanie zajęć, to zgadzając się
na to, naruszamy RODO.

Absurd!!!
p.niemiec"#;

/// The words that call for the notice.
pub open spec fn trigger_words() -> Seq<Seq<char>> {
    seq!["nagrywa"@, "nagra"@, "absurd"@, "tokarczyk"@]
}

/// Whether some trigger word resembles a word of `content`.
pub open spec fn holds_trigger_word(content: Seq<char>) -> bool {
    exists|i: int|
        0 <= i < trigger_words().len() && resembles(
            lowercase_text(content),
            #[trigger] trigger_words()[i],
        )
}

/// The trigger for the notice on recordings.
pub struct Rodo;

impl Trigger for Rodo {
    open spec fn message_text() -> Seq<char> {
        RODO_MESSAGE@
    }

    open spec fn name_text() -> Seq<char> {
        "RODO notice"@
    }

    open spec fn rate() -> int {
        40
    }

    open spec fn triggered_by(content: Seq<char>) -> bool {
        holds_trigger_word(content)
    }

    fn message() -> (message: String) {
        String::from_str(RODO_MESSAGE)
    }

    fn name() -> (name: String) {
        String::from_str("RODO notice")
    }

    fn frequency() -> (frequency: i32) {
        40
    }

    fn contains_trigger(content: &str) -> (found: bool) {
        let mut engine = engine_new();
        let lowered = lowercase(content);
        engine_insert(&mut engine, 1, lowered.as_str());
        let words: Vec<&'static str> = vec!["nagrywa", "nagra", "absurd", "tokarczyk"];
        assert(words@.map_values(|word: &'static str| word@) =~= trigger_words());
        let mut i: usize = 0;
        while i < words.len()
            invariant
                i <= words@.len(),
                words@.map_values(|word: &'static str| word@) == trigger_words(),
                lowered@ == lowercase_text(content@),
                engine_entries(engine) == Map::<u32, Seq<char>>::empty().insert(1u32, lowered@),
                forall|k: int|
                    0 <= k < i ==> !resembles(lowered@, #[trigger] trigger_words()[k]),
            decreases words@.len() - i,
        {
            let hits = engine_search(&engine, words[i]);
            assert(trigger_words()[i as int] == words@[i as int]@);
            if is_hit(&hits) {
                assert(hits@.contains(hits@[0]));
                assert(resembles(lowered@, trigger_words()[i as int]));
                return true;
            }
            assert(!hits@.contains(1u32));
            assert(engine_entries(engine).dom().contains(1u32));
            i = i + 1;
        }
        false
    }
}

} // verus!
