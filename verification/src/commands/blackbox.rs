//! The `blackbox` command: run a program on the text between code fences and
//! answer with what it wrote.
//!
//! A command reads `name ```text```: the program's name is the first word;
//! the input is what stands between the fence that follows the name and the
//! last fence on the same line, without any backtick.

use crate::commands::locale::{
    complaint, crash_message, no_input_message, no_output_message, not_found_message,
    not_found_text, timeout_message, CRASH_MESSAGE, NO_INPUT_MESSAGE, NO_OUTPUT_MESSAGE,
    TIMEOUT_MESSAGE,
};
use crate::commands::words::{
    blanks_end, fenced_span, find_fenced, is_blank, lemma_blanks_end, lemma_word_end,
    on_one_line, remove_ticks, skip_blanks, skip_word, without_ticks, word_end,
};
use crate::runners::binary_runner::Run;
use crate::runners::binary_runner::{outcome_view, Outcome, RunnerResult};
use crate::runners::runner_error::{Failure, RunnerError};
use crate::text::{chars_of, pair_view, text_of, text_view};
use vstd::prelude::*;

verus! {

/// The text of the fenced block that opens at `from`, if one does.
pub open spec fn fenced_text(s: Seq<char>, from: int) -> Option<Seq<char>> {
    match fenced_span(s, from) {
        Some((open, close)) => Some(s.subrange(open, close)),
        None => None,
    }
}

/// The input that a fenced text stands for: the text without backticks, and
/// nothing where there is no fenced text.
pub open spec fn ticks_removed_or_empty(text: Option<Seq<char>>) -> Seq<char> {
    match text {
        Some(text) => without_ticks(text),
        None => Seq::empty(),
    }
}

/// The program's name and the input that `content` holds; nothing where
/// `content` has no word at all.
pub open spec fn program_name_and_input(content: Seq<char>) -> Option<(Seq<char>, Seq<char>)> {
    let start = blanks_end(content, 0);
    let end = word_end(content, start);
    if start >= content.len() {
        None
    } else {
        Some(
            (
                content.subrange(start, end),
                ticks_removed_or_empty(fenced_text(content, blanks_end(content, end))),
            ),
        )
    }
}

/// `output` as a block of code: a fence, a line feed, the output, a line feed,
/// a fence.
pub open spec fn code_block(output: Seq<char>) -> Seq<char> {
    "```\n"@ + output + "\n```"@
}

/// What the bot says of a run of `program_name` that ended with `outcome`.
pub open spec fn report(program_name: Seq<char>, outcome: Outcome) -> Seq<char> {
    match outcome {
        Ok(output) => code_block(output),
        Err(Failure::NoInput) => NO_INPUT_MESSAGE@,
        Err(Failure::Timeout) => complaint(program_name, TIMEOUT_MESSAGE@),
        Err(Failure::NotFound) => not_found_text(program_name),
        Err(Failure::NoOutput) => complaint(program_name, NO_OUTPUT_MESSAGE@),
        Err(Failure::Crash) => complaint(program_name, CRASH_MESSAGE@),
        Err(Failure::Other(message)) => message,
    }
}

/// The whole answer: the mention of the user who asked, and the report on the
/// next line.
pub open spec fn answer(mention: Seq<char>, program_name: Seq<char>, outcome: Outcome) -> Seq<
    char,
> {
    mention + "\n"@ + report(program_name, outcome)
}

/// Puts the command's text on one line: each line feed becomes a space.
pub fn trim_content(content: &str) -> (line: String)
    ensures
        line@ == on_one_line(content@),
{
    let chars = chars_of(content);
    let mut line = String::new();
    let mut i: usize = 0;
    while i < chars.len()
        invariant
            i <= chars@.len(),
            chars@ == content@,
            line@ == on_one_line(content@.subrange(0, i as int)),
        decreases chars@.len() - i,
    {
        let c = chars[i];
        if c == '\n' {
            line.push(' ');
        } else {
            line.push(c);
        }
        i = i + 1;
        assert(line@ =~= on_one_line(content@.subrange(0, i as int)));
    }
    assert(content@.subrange(0, i as int) =~= content@);
    line
}

/// A fenced text without its backticks; nothing where there is no text.
pub fn remove_ticks_or_empty(text: Option<String>) -> (input: String)
    ensures
        input@ == ticks_removed_or_empty(text_view(text)),
{
    match text {
        None => String::new(),
        Some(text) => {
            let chars = chars_of(text.as_str());
            assert(chars@.subrange(0, chars@.len() as int) =~= chars@);
            remove_ticks(&chars, 0, chars.len())
        },
    }
}

/// Reads the program's name and the input out of a command's text.
///
/// There is no name, and so no result, where the text is empty or blank. A
/// command without a fenced block has empty input.
pub fn extract_program_name_and_input(content: &str) -> (parsed: Option<(String, String)>)
    ensures
        pair_view(parsed) == program_name_and_input(content@),
{
    let chars = chars_of(content);
    let start = skip_blanks(&chars, 0);
    if start >= chars.len() {
        return None;
    }
    let end = skip_word(&chars, start);
    let program_name = text_of(&chars, start, end);
    let block = skip_blanks(&chars, end);
    let fenced = match find_fenced(&chars, block) {
        Some((open, close)) => Some(text_of(&chars, open, close)),
        None => None,
    };
    Some((program_name, remove_ticks_or_empty(fenced)))
}

/// Says how a run of `program_name` ended: its output as a block of code, or
/// the message for the failure; the message of `Other` as it is.
pub fn describe(program_name: &str, result: RunnerResult) -> (message: String)
    ensures
        message@ == report(program_name@, outcome_view(result)),
{
    match result {
        Ok(output) => {
            let mut message = String::from_str("```\n");
            message.append(output.as_str());
            message.append("\n```");
            message
        },
        Err(RunnerError::NoInput) => no_input_message(),
        Err(RunnerError::Timeout) => timeout_message(program_name),
        Err(RunnerError::NotFound) => not_found_message(program_name),
        Err(RunnerError::NoOutput) => no_output_message(program_name),
        Err(RunnerError::Crash) => crash_message(program_name),
        Err(RunnerError::Other(message)) => message,
    }
}

/// The answer to a `blackbox` command: the mention of the user who asked, a
/// line feed, and how the run ended.
pub fn reply(mention: &str, program_name: &str, result: RunnerResult) -> (message: String)
    ensures
        message@ == answer(mention@, program_name@, outcome_view(result)),
{
    let report = describe(program_name, result);
    let mut message = String::from_str(mention);
    message.append("\n");
    message.append(report.as_str());
    message
}

/// A command has no name only where it is blank. Where it has one, the name
/// is a word, not empty and without a blank, and the input holds no backtick.
pub proof fn lemma_name_is_a_word(content: Seq<char>)
    ensures
        match program_name_and_input(content) {
            None => forall|i: int| 0 <= i < content.len() ==> is_blank(#[trigger] content[i]),
            Some((name, input)) => {
                &&& name.len() > 0
                &&& forall|i: int| 0 <= i < name.len() ==> !is_blank(#[trigger] name[i])
                &&& forall|i: int| 0 <= i < input.len() ==> #[trigger] input[i] != '`'
            },
        },
{
    broadcast use vstd::seq_lib::group_filter_ensures;

    let start = blanks_end(content, 0);
    lemma_blanks_end(content, 0);
    if start < content.len() {
        lemma_word_end(content, start);
    }
}

/// A command that is one word, with blanks around it at most, has empty
/// input, and a run on it is refused for want of input.
pub proof fn lemma_lone_name_has_no_input(content: Seq<char>, deadline_secs: u64)
    requires
        blanks_end(content, 0) < content.len(),
        blanks_end(content, word_end(content, blanks_end(content, 0))) >= content.len(),
    ensures
        program_name_and_input(content) is Some,
        program_name_and_input(content)->Some_0.1.len() == 0,
        Run::start(
            program_name_and_input(content)->Some_0.0,
            program_name_and_input(content)->Some_0.1,
            deadline_secs,
        ) is Err,
{
}

/// The report on a run that succeeded holds the output between two fences,
/// each on a line of its own, and nothing else.
pub proof fn lemma_output_is_reported_whole(program_name: Seq<char>, output: Seq<char>)
    ensures
        report(program_name, Ok(output)).len() == output.len() + 8,
        report(program_name, Ok(output)).subrange(4, 4 + output.len() as int) == output,
{
    reveal_strlit("```\n");
    reveal_strlit("\n```");
    let whole = report(program_name, Ok(output));
    assert(whole.subrange(4, 4 + output.len() as int) =~= output);
}

} // verus!
