//! The `protip` commands: add a protip to a task, delete one, list them.

use crate::commands::words::{
    blanks_end, is_blank, lemma_blanks_end, lemma_line_end, lemma_word_end, line_end, skip_blanks,
    skip_line, skip_word, word_end,
};
use crate::database::protip_handler::{Protip, ProtipView};
use crate::text::{chars_of, pair_view, text_of};
use vstd::prelude::*;

verus! {

/// The protip's text and the task that `content` holds, in this order: the
/// task is the first word, the text is the rest of the line from the next
/// word on. Nothing where either is missing.
pub open spec fn task_and_content(content: Seq<char>) -> Option<(Seq<char>, Seq<char>)> {
    let start = blanks_end(content, 0);
    let end = word_end(content, start);
    let rest = blanks_end(content, end);
    if start >= content.len() || rest >= content.len() {
        None
    } else {
        Some((content.subrange(rest, line_end(content, rest)), content.subrange(start, end)))
    }
}

/// The views of a list of protips.
pub open spec fn protip_views(protips: Seq<Protip>) -> Seq<ProtipView> {
    protips.map_values(|protip: Protip| protip@)
}

/// The lines of a list of protips: each after a tab, each ended by a line feed.
pub open spec fn protip_lines(protips: Seq<ProtipView>) -> Seq<char>
    decreases protips.len(),
{
    if protips.len() == 0 {
        Seq::empty()
    } else {
        protip_lines(protips.drop_last()) + "\t"@ + protips.last().text() + "\n"@
    }
}

/// The list of the protips of `task`: a heading with the task's name, then
/// the protips, one on a line.
pub open spec fn protip_list(task: Seq<char>, protips: Seq<ProtipView>) -> Seq<char> {
    "Protipy `"@ + task + "`:\n"@ + protip_lines(protips)
}

/// Reads the protip's text and the task out of an `add` command.
pub fn extract_task_and_content(content: &str) -> (parsed: Option<(String, String)>)
    ensures
        pair_view(parsed) == task_and_content(content@),
{
    let chars = chars_of(content);
    let start = skip_blanks(&chars, 0);
    if start >= chars.len() {
        return None;
    }
    let end = skip_word(&chars, start);
    let rest = skip_blanks(&chars, end);
    if rest >= chars.len() {
        return None;
    }
    let line = skip_line(&chars, rest);
    Some((text_of(&chars, rest, line), text_of(&chars, start, end)))
}

/// Writes the list of the protips of `task`.
pub fn list_protips(task: &str, protips: Vec<Protip>) -> (list: String)
    ensures
        list@ == protip_list(task@, protip_views(protips@)),
{
    let mut list = String::from_str("Protipy `");
    list.append(task);
    list.append("`:\n");
    let ghost heading = list@;
    let mut i: usize = 0;
    while i < protips.len()
        invariant
            i <= protips@.len(),
            heading == "Protipy `"@ + task@ + "`:\n"@,
            list@ == heading + protip_lines(protip_views(protips@).subrange(0, i as int)),
        decreases protips@.len() - i,
    {
        let line = protips[i].to_string();
        proof {
            let longer = protip_views(protips@).subrange(0, i + 1);
            assert(longer.drop_last() =~= protip_views(protips@).subrange(0, i as int));
            assert(longer.last() == protips@[i as int]@);
        }
        list.append("\t");
        list.append(line.as_str());
        list.append("\n");
        i = i + 1;
        assert(list@ =~= heading + protip_lines(protip_views(protips@).subrange(0, i as int)));
    }
    assert(protip_views(protips@).subrange(0, i as int) =~= protip_views(protips@));
    list
}

/// Where an `add` command holds a task and a text, the task is a word, not
/// empty and without a blank, and the text is not empty, begins with no blank
/// and holds no line feed.
pub proof fn lemma_task_is_a_word(content: Seq<char>)
    ensures
        match task_and_content(content) {
            None => true,
            Some((text, task)) => {
                &&& task.len() > 0
                &&& forall|i: int| 0 <= i < task.len() ==> !is_blank(#[trigger] task[i])
                &&& text.len() > 0
                &&& !is_blank(text[0])
                &&& forall|i: int| 0 <= i < text.len() ==> #[trigger] text[i] != '\n'
            },
        },
{
    let start = blanks_end(content, 0);
    lemma_blanks_end(content, 0);
    if start < content.len() {
        lemma_word_end(content, start);
        let end = word_end(content, start);
        lemma_blanks_end(content, end);
        let rest = blanks_end(content, end);
        if rest < content.len() {
            lemma_line_end(content, rest);
        }
    }
}

} // verus!
