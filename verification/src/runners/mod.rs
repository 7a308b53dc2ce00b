//! Running a pre-installed program on user input, one step at a time.

pub mod binary_runner;
pub mod host;
pub mod runner_error;
