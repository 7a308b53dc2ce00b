//! The protips as they are kept: one row per protip, under the name of a task.

pub mod protip_handler;
