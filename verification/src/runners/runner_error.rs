//! The closed set of ways in which a run can fail.

use vstd::prelude::*;

verus! {

/// Why a run produced no output.
#[derive(Debug, PartialEq, Eq)]
pub enum RunnerError {
    /// The input text was empty.
    NoInput,
    /// The program did not exit before the deadline and was killed.
    Timeout,
    /// The program could not be started.
    NotFound,
    /// The program exited normally and wrote nothing.
    NoOutput,
    /// The program exited with a status other than zero, or with none.
    Crash,
    /// Some other failure of the host, with a message.
    Other(String),
}

/// A failure as a mathematical value: `RunnerError` with its message as a sequence.
pub enum Failure {
    NoInput,
    Timeout,
    NotFound,
    NoOutput,
    Crash,
    Other(Seq<char>),
}

impl View for RunnerError {
    type V = Failure;

    open spec fn view(&self) -> Failure {
        match *self {
            RunnerError::NoInput => Failure::NoInput,
            RunnerError::Timeout => Failure::Timeout,
            RunnerError::NotFound => Failure::NotFound,
            RunnerError::NoOutput => Failure::NoOutput,
            RunnerError::Crash => Failure::Crash,
            RunnerError::Other(message) => Failure::Other(message@),
        }
    }
}

} // verus!
