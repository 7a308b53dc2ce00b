//! A protip, and the statements that store, delete and find protips.

use crate::text::{decimal, push_decimal, push_signed_decimal, signed_decimal};
use vstd::prelude::*;

verus! {

/// The file that holds the database.
pub const DATABASE_FILE: &'static str = "janosik.db3";

/// Creates the table of protips unless it is there.
pub const CREATE_TABLE_QUERY: &'static str =
    "CREATE TABLE IF NOT EXISTS protip (
                  id              INTEGER PRIMARY KEY,
                  task_id         TEXT NOT NULL,
                  content         TEXT NOT NULL
                  )";

/// Selects the protips of the task given as the first parameter.
pub const SELECT_PROTIPS_QUERY: &'static str =
    "SELECT id, task_id, content FROM protip WHERE task_id = ?1";

/// Selects the names of the tasks that have a protip, each once.
pub const SELECT_TASKS_QUERY: &'static str = "SELECT DISTINCT task_id FROM protip";

/// A note on a task, under the number that the table gave it.
#[derive(Debug)]
pub struct Protip {
    id: i32,
    task_id: String,
    content: String,
}

/// A protip as a mathematical value.
pub struct ProtipView {
    pub id: int,
    pub task_id: Seq<char>,
    pub content: Seq<char>,
}

impl View for Protip {
    type V = ProtipView;

    closed spec fn view(&self) -> ProtipView {
        ProtipView { id: self.id as int, task_id: self.task_id@, content: self.content@ }
    }
}

impl ProtipView {
    /// The protip as it is shown: its number, a full stop, a space, its text.
    pub open spec fn text(self) -> Seq<char> {
        signed_decimal(self.id) + ". "@ + self.content
    }
}

/// The statement that stores `content` as a protip of `task_id`. Both stand
/// between double quotes as they are.
pub open spec fn insert_statement(task_id: Seq<char>, content: Seq<char>) -> Seq<char> {
    "INSERT INTO protip (task_id, content) VALUES (\""@ + task_id + "\", \""@ + content + "\")"@
}

/// The statement that deletes the protip numbered `protip_id`.
pub open spec fn delete_statement(protip_id: u32) -> Seq<char> {
    "DELETE FROM protip WHERE id = "@ + decimal(protip_id as nat)
}

impl Protip {
    /// The protip numbered `id` of the task `task_id`.
    pub fn new(id: i32, task_id: String, content: String) -> (protip: Protip)
        ensures
            protip@ == (ProtipView { id: id as int, task_id: task_id@, content: content@ }),
    {
        Protip { id, task_id, content }
    }

    /// The protip as it is shown in a list.
    pub fn to_string(&self) -> (text: String)
        ensures
            text@ == self@.text(),
    {
        let mut text = String::new();
        push_signed_decimal(&mut text, self.id as i64);
        text.append(". ");
        text.append(self.content.as_str());
        text
    }
}

/// Writes the statement that stores a protip.
pub fn add_protip_query(task_id: &str, content: &str) -> (query: String)
    ensures
        query@ == insert_statement(task_id@, content@),
{
    let mut query = String::from_str("INSERT INTO protip (task_id, content) VALUES (\"");
    query.append(task_id);
    query.append("\", \"");
    query.append(content);
    query.append("\")");
    query
}

/// Writes the statement that deletes a protip.
pub fn remove_protip_query(protip_id: u32) -> (query: String)
    ensures
        query@ == delete_statement(protip_id),
{
    let mut query = String::from_str("DELETE FROM protip WHERE id = ");
    push_decimal(&mut query, protip_id as u64);
    query
}

} // verus!
