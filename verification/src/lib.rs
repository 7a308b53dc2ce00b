//! Janosik: the rules of a chat bot that runs pre-installed programs on
//! user-supplied input, keeps short notes per task and answers to trigger words.
//!
//! Everything here is pure: the host performs the outside work (files,
//! processes, the chat connection, the database) and hands the results in.

pub mod client;
pub mod commands;
pub mod database;
pub mod runners;
pub mod text;
pub mod trigger;
