//! The bot's messages, in Polish.

use crate::text::{decimal, push_decimal};
use vstd::prelude::*;

verus! {

pub const CRASH_MESSAGE: &'static str = "wyjebał się, sprawdź poprawność wejścia";

pub const TIMEOUT_MESSAGE: &'static str = "działał zbyt długo, sprawdź poprawność wejścia";

pub const NOT_FOUND_MESSAGE: &'static str = "Nie znaleziono";

pub const NO_OUTPUT_MESSAGE: &'static str = "nic nie wypisał, sprawdź poprawność wejścia";

pub const NO_INPUT_MESSAGE: &'static str = "Nie podano wejścia, pamiętaj o ```";

/// A complaint about a program: its name between backticks, a space, and what
/// went wrong.
pub open spec fn complaint(program_name: Seq<char>, what: Seq<char>) -> Seq<char> {
    "`"@ + program_name + "` "@ + what
}

fn complain(program_name: &str, what: &str) -> (message: String)
    ensures
        message@ == complaint(program_name@, what@),
{
    let mut message = String::from_str("`");
    message.append(program_name);
    message.append("` ");
    message.append(what);
    message
}

/// Says that the program crashed.
pub fn crash_message(program_name: &str) -> (message: String)
    ensures
        message@ == complaint(program_name@, CRASH_MESSAGE@),
{
    complain(program_name, CRASH_MESSAGE)
}

/// Says that the program ran for too long.
pub fn timeout_message(program_name: &str) -> (message: String)
    ensures
        message@ == complaint(program_name@, TIMEOUT_MESSAGE@),
{
    complain(program_name, TIMEOUT_MESSAGE)
}

/// What `not_found_message` says of `program_name`.
pub open spec fn not_found_text(program_name: Seq<char>) -> Seq<char> {
    NOT_FOUND_MESSAGE@ + " ` "@ + program_name + " `"@
}

/// Says that there is no such program.
pub fn not_found_message(program_name: &str) -> (message: String)
    ensures
        message@ == not_found_text(program_name@),
{
    let mut message = String::from_str(NOT_FOUND_MESSAGE);
    message.append(" ` ");
    message.append(program_name);
    message.append(" `");
    message
}

/// Says that the program wrote nothing.
pub fn no_output_message(program_name: &str) -> (message: String)
    ensures
        message@ == complaint(program_name@, NO_OUTPUT_MESSAGE@),
{
    complain(program_name, NO_OUTPUT_MESSAGE)
}

/// Says that the command came without input.
pub fn no_input_message() -> (message: String)
    ensures
        message@ == NO_INPUT_MESSAGE@,
{
    String::from_str(NO_INPUT_MESSAGE)
}

/// What `add_protip_message` says of `task`.
pub open spec fn add_protip_text(task: Seq<char>) -> Seq<char> {
    "Dodano protip do `"@ + task + "`"@
}

/// Says that a protip was added to `task`. The protip's own text is not part
/// of the message.
pub fn add_protip_message(_content: &str, task: &str) -> (message: String)
    ensures
        message@ == add_protip_text(task@),
{
    let mut message = String::from_str("Dodano protip do `");
    message.append(task);
    message.append("`");
    message
}

/// How the standard library prints a list of strings for debugging: between
/// square brackets, each string between double quotes and escaped, a comma and
/// a space between two of them.
pub uninterp spec fn debug_listing(items: Seq<Seq<char>>) -> Seq<char>;

/// The texts of a list of strings.
pub open spec fn texts(items: Seq<String>) -> Seq<Seq<char>> {
    items.map_values(|item: String| item@)
}

/// Calls `format!` of the standard library with `{:?}` on a slice of strings.
/// The contract gives the result the name `debug_listing`, as a function of
/// the strings' texts, and claims nothing of what it holds.
#[verifier::external_body]
fn debug_format(items: &[String]) -> (listing: String)
    ensures
        listing@ == debug_listing(texts(items@)),
{
    format!("{:?}", items)
}

/// What `all_tasks_message` says around the listing of the tasks.
pub open spec fn all_tasks_text(listing: Seq<char>) -> Seq<char> {
    "Dostępne listy protipów: `"@ + listing + "`"@
}

/// Puts a listing of tasks into the message that announces them.
pub fn all_tasks_message_around(listing: &str) -> (message: String)
    ensures
        message@ == all_tasks_text(listing@),
{
    let mut message = String::from_str("Dostępne listy protipów: `");
    message.append(listing);
    message.append("`");
    message
}

/// Lists the tasks that have protips, as the standard library prints a list of
/// strings for debugging.
pub fn all_tasks_message(all_protips: &[String]) -> (message: String)
    ensures
        message@ == all_tasks_text(debug_listing(texts(all_protips@))),
{
    let listing = debug_format(all_protips);
    all_tasks_message_around(listing.as_str())
}

/// Says that the number of the protip to delete is missing.
pub fn invalid_protip_id_message() -> (message: String)
    ensures
        message@ == "Musisz podać numer protipa do usunięcia"@,
{
    String::from_str("Musisz podać numer protipa do usunięcia")
}

/// What `delete_protip_message` says of the protip numbered `protip_id`.
pub open spec fn delete_protip_text(protip_id: u32) -> Seq<char> {
    "Usunięto protip nr "@ + decimal(protip_id as nat)
}

/// Says that the protip with this number was deleted.
pub fn delete_protip_message(protip_id: &u32) -> (message: String)
    ensures
        message@ == delete_protip_text(*protip_id),
{
    let mut message = String::from_str("Usunięto protip nr ");
    push_decimal(&mut message, *protip_id as u64);
    message
}

} // verus!
