//! The program runner as a state machine.
//!
//! A run stages the input in a file, starts the program with that file as its
//! standard input, waits for it under a deadline, kills it when the deadline
//! passes, and reads what it wrote. None of that outside work happens here.
//! The runner names the next thing to do as a [`RunAction`]; the host does it
//! and reports what happened as a [`RunEvent`]; the runner decides what follows.
//! Every way a run can end is a `Result<String, RunnerError>`.

use crate::runners::runner_error::{Failure, RunnerError};
use crate::text::{decimal, push_decimal};
use vstd::prelude::*;

verus! {

/// The deadline of a run whose caller names none, in seconds.
pub const DEFAULT_DEADLINE_SECS: u64 = 30;

/// How a run ends: the captured output, or the reason there is none.
pub type RunnerResult = Result<String, RunnerError>;

/// `RunnerResult` as a mathematical value.
pub type Outcome = Result<Seq<char>, Failure>;

/// The view of a `RunnerResult`.
pub open spec fn outcome_view(result: RunnerResult) -> Outcome {
    match result {
        Ok(output) => Ok(output@),
        Err(error) => Err(error@),
    }
}

/// Where a run stands. Each state but the last waits for the host's answer to
/// one action.
#[derive(Debug, Clone, Copy, PartialEq, Eq, Structural)]
pub enum RunState {
    /// The input is not empty; it is being staged.
    InputChecked,
    /// The input is staged; the program is being started.
    Staged,
    /// The program runs; the runner waits for its exit or for the deadline.
    Spawned,
    /// The deadline passed; the program is being killed.
    TimedOut,
    /// The program exited with status zero; its output is being read.
    Exited,
    /// The run is over and its result has been handed out.
    Finished,
}

/// What became of staging the input.
#[derive(Debug, Clone, Copy, PartialEq, Eq, Structural)]
pub enum StageOutcome {
    /// The input is in the staging file, and the file is open for reading.
    Staged,
    /// The staging file could not be written.
    WriteFailed,
    /// The staging file was written and could not be reopened.
    OpenFailed,
}

/// What became of starting the program.
#[derive(Debug, Clone, Copy, PartialEq, Eq, Structural)]
pub enum SpawnOutcome {
    /// The program runs.
    Spawned,
    /// There is no such program, or it cannot be executed.
    Failed,
}

/// What became of waiting for the program.
#[derive(Debug, Clone, Copy, PartialEq, Eq)]
pub enum WaitOutcome {
    /// The program exited in time, with this status; `None` where it has
    /// none, as after a signal.
    Exited(Option<i32>),
    /// The deadline passed and the program still runs.
    DeadlineElapsed,
    /// Waiting itself failed.
    Failed,
}

/// What became of killing the program.
#[derive(Debug, Clone, Copy, PartialEq, Eq, Structural)]
pub enum KillOutcome {
    /// The program no longer runs.
    Killed,
    /// The program could not be killed.
    Failed,
}

/// What became of reading the program's standard output.
#[derive(Debug, PartialEq, Eq)]
pub enum ReadOutcome {
    /// Everything the program wrote, up to the end of the stream.
    Captured(String),
    /// The program has no standard output to read from.
    NoStream,
    /// Reading failed, or what was read is not text.
    Failed,
}

/// `ReadOutcome` as a mathematical value.
pub enum Reading {
    Captured(Seq<char>),
    NoStream,
    Failed,
}

impl View for ReadOutcome {
    type V = Reading;

    open spec fn view(&self) -> Reading {
        match *self {
            ReadOutcome::Captured(output) => Reading::Captured(output@),
            ReadOutcome::NoStream => Reading::NoStream,
            ReadOutcome::Failed => Reading::Failed,
        }
    }
}

/// The host's report on the action it was asked for.
#[derive(Debug, PartialEq, Eq)]
pub enum RunEvent {
    Stage(StageOutcome),
    Spawn(SpawnOutcome),
    Wait(WaitOutcome),
    Kill(KillOutcome),
    Read(ReadOutcome),
}

/// `RunEvent` as a mathematical value.
pub enum Event {
    Stage(StageOutcome),
    Spawn(SpawnOutcome),
    Wait(WaitOutcome),
    Kill(KillOutcome),
    Read(Reading),
}

impl View for RunEvent {
    type V = Event;

    open spec fn view(&self) -> Event {
        match *self {
            RunEvent::Stage(staged) => Event::Stage(staged),
            RunEvent::Spawn(spawned) => Event::Spawn(spawned),
            RunEvent::Wait(waited) => Event::Wait(waited),
            RunEvent::Kill(killed) => Event::Kill(killed),
            RunEvent::Read(read) => Event::Read(read@),
        }
    }
}

/// What the host is to do next.
#[derive(Debug, PartialEq, Eq)]
pub enum RunAction {
    /// Write `input`, as it is, to a file that no other run uses, and reopen
    /// that file for reading.
    StageInput { input: String },
    /// Start the program at `path`, with the staged file as its standard input
    /// and a pipe as its standard output.
    SpawnProcess { path: String },
    /// Wait until the program exits, for `deadline_secs` seconds at most.
    WaitForExit { deadline_secs: u64 },
    /// Kill the program.
    KillProcess,
    /// Read the program's standard output to its end.
    ReadOutput,
    /// Nothing more: the run is over, with this result.
    Finish(RunnerResult),
}

/// `RunAction` as a mathematical value.
pub enum Action {
    StageInput { input: Seq<char> },
    SpawnProcess { path: Seq<char> },
    WaitForExit { deadline_secs: u64 },
    KillProcess,
    ReadOutput,
    Finish(Outcome),
}

impl View for RunAction {
    type V = Action;

    open spec fn view(&self) -> Action {
        match *self {
            RunAction::StageInput { input } => Action::StageInput { input: input@ },
            RunAction::SpawnProcess { path } => Action::SpawnProcess { path: path@ },
            RunAction::WaitForExit { deadline_secs } => Action::WaitForExit { deadline_secs },
            RunAction::KillProcess => Action::KillProcess,
            RunAction::ReadOutput => Action::ReadOutput,
            RunAction::Finish(result) => Action::Finish(outcome_view(result)),
        }
    }
}

/// The failure that a staging outcome amounts to, if any.
pub open spec fn stage_failure(staged: StageOutcome) -> Option<Failure> {
    match staged {
        StageOutcome::Staged => None,
        StageOutcome::WriteFailed => Some(Failure::Other("cannot write to tmp file"@)),
        StageOutcome::OpenFailed => Some(Failure::Other("cannot open tmp file"@)),
    }
}

/// Where the program named `program_name` is installed: directly under `bin/`.
pub open spec fn binary_path(program_name: Seq<char>) -> Seq<char> {
    "bin/"@ + program_name
}

/// The failure that a spawn outcome amounts to, if any.
pub open spec fn spawn_failure(spawned: SpawnOutcome) -> Option<Failure> {
    match spawned {
        SpawnOutcome::Spawned => None,
        SpawnOutcome::Failed => Some(Failure::NotFound),
    }
}

/// The exit status where the program exited in time; `Timeout` where it has
/// to be killed.
pub open spec fn wait_verdict(waited: WaitOutcome) -> Result<Option<i32>, Failure> {
    match waited {
        WaitOutcome::Exited(status) => Ok(status),
        WaitOutcome::DeadlineElapsed => Err(Failure::Timeout),
        WaitOutcome::Failed => Err(Failure::Timeout),
    }
}

/// A program has crashed unless its exit status is zero.
pub open spec fn crashed(status: Option<i32>) -> bool {
    status != Some(0i32)
}

/// How a run ends once the program had to be killed.
pub open spec fn kill_verdict(killed: KillOutcome) -> Failure {
    match killed {
        KillOutcome::Killed => Failure::Timeout,
        KillOutcome::Failed => Failure::Other("Command wasn't running"@),
    }
}

/// What was read from the program, or the failure to read.
pub open spec fn captured(read: Reading) -> Outcome {
    match read {
        Reading::Captured(output) => Ok(output),
        Reading::NoStream => Err(Failure::Other("Could not capture standard output."@)),
        Reading::Failed => Err(Failure::Other("Could not read standard output."@)),
    }
}

/// How a run ends on what the program wrote: empty output is a failure.
pub open spec fn output_verdict(output: Seq<char>) -> Outcome {
    if output.len() == 0 {
        Err(Failure::NoOutput)
    } else {
        Ok(output)
    }
}

/// The name of the staging file of the run numbered `run_id`.
pub open spec fn staging_name(run_id: u64) -> Seq<char> {
    "tmp_"@ + decimal(run_id as nat) + ".txt"@
}

/// A run as a mathematical value: the request and the state.
pub struct Run {
    pub program_name: Seq<char>,
    pub deadline_secs: u64,
    pub state: RunState,
}

impl Run {
    /// The same run in another state.
    pub open spec fn at(self, state: RunState) -> Run {
        Run { state, ..self }
    }

    /// A new run: refused on empty input, else in `InputChecked` with the
    /// request to stage the input.
    pub open spec fn start(
        program_name: Seq<char>,
        input: Seq<char>,
        deadline_secs: u64,
    ) -> Result<(Run, Action), Failure> {
        if input.len() == 0 {
            Err(Failure::NoInput)
        } else {
            Ok(
                (
                    Run { program_name, deadline_secs, state: RunState::InputChecked },
                    Action::StageInput { input },
                ),
            )
        }
    }

    /// Whether `event` answers the action that this run waits on.
    pub open spec fn expects(self, event: Event) -> bool {
        match self.state {
            RunState::InputChecked => event is Stage,
            RunState::Staged => event is Spawn,
            RunState::Spawned => event is Wait,
            RunState::TimedOut => event is Kill,
            RunState::Exited => event is Read,
            RunState::Finished => false,
        }
    }

    /// The run ended, with `outcome`.
    pub open spec fn finish(self, outcome: Outcome) -> (Run, Action) {
        (self.at(RunState::Finished), Action::Finish(outcome))
    }

    /// The state after `event` and the action that follows it.
    pub open spec fn step(self, event: Event) -> (Run, Action)
        recommends
            self.expects(event),
    {
        match event {
            Event::Stage(staged) => match stage_failure(staged) {
                Some(failure) => self.finish(Err(failure)),
                None => (
                    self.at(RunState::Staged),
                    Action::SpawnProcess { path: binary_path(self.program_name) },
                ),
            },
            Event::Spawn(spawned) => match spawn_failure(spawned) {
                Some(failure) => self.finish(Err(failure)),
                None => (
                    self.at(RunState::Spawned),
                    Action::WaitForExit { deadline_secs: self.deadline_secs },
                ),
            },
            Event::Wait(waited) => match wait_verdict(waited) {
                Err(_) => (self.at(RunState::TimedOut), Action::KillProcess),
                Ok(status) => if crashed(status) {
                    self.finish(Err(Failure::Crash))
                } else {
                    (self.at(RunState::Exited), Action::ReadOutput)
                },
            },
            Event::Kill(killed) => self.finish(Err(kill_verdict(killed))),
            Event::Read(read) => match captured(read) {
                Err(failure) => self.finish(Err(failure)),
                Ok(output) => self.finish(output_verdict(output)),
            },
        }
    }
}

/// One run of one program, between the steps of its host.
#[derive(Debug)]
pub struct BinaryRunner {
    program_name: String,
    deadline_secs: u64,
    state: RunState,
}

impl View for BinaryRunner {
    type V = Run;

    closed spec fn view(&self) -> Run {
        Run {
            program_name: self.program_name@,
            deadline_secs: self.deadline_secs,
            state: self.state,
        }
    }
}

impl BinaryRunner {
    /// Begins a run of `program_name` on `input` under the default deadline.
    ///
    /// Empty input is refused at once with `NoInput`: there is then no run and
    /// nothing for the host to do. Otherwise the host is asked to stage the
    /// input, unchanged.
    pub fn run(program_name: &str, input: &str) -> (started: Result<
        (BinaryRunner, RunAction),
        RunnerError,
    >)
        ensures
            started_view(started) == Run::start(program_name@, input@, DEFAULT_DEADLINE_SECS),
    {
        Self::run_with_deadline(program_name, input, DEFAULT_DEADLINE_SECS)
    }

    /// Begins a run as `run` does, under a deadline of `deadline_secs` seconds.
    pub fn run_with_deadline(program_name: &str, input: &str, deadline_secs: u64) -> (started:
        Result<(BinaryRunner, RunAction), RunnerError>)
        ensures
            started_view(started) == Run::start(program_name@, input@, deadline_secs),
    {
        if input.is_empty() {
            return Err(RunnerError::NoInput);
        }
        let runner = BinaryRunner {
            program_name: String::from_str(program_name),
            deadline_secs,
            state: RunState::InputChecked,
        };
        Ok((runner, RunAction::StageInput { input: String::from_str(input) }))
    }

    /// The name of the staging file for the run numbered `run_id`. Runs with
    /// different numbers get different files.
    pub fn tmp_file_name(run_id: u64) -> (name: String)
        ensures
            name@ == staging_name(run_id),
    {
        let mut name = String::from_str("tmp_");
        push_decimal(&mut name, run_id);
        name.append(".txt");
        name
    }

    /// Judges the staging of the input: a file that could not be written or
    /// reopened ends the run.
    pub fn create_tmp_file(staged: StageOutcome) -> (verdict: Result<(), RunnerError>)
        ensures
            match stage_failure(staged) {
                Some(failure) => verdict is Err && verdict->Err_0@ == failure,
                None => verdict is Ok,
            },
    {
        match staged {
            StageOutcome::Staged => Ok(()),
            StageOutcome::WriteFailed => Err(
                RunnerError::Other(String::from_str("cannot write to tmp file")),
            ),
            StageOutcome::OpenFailed => Err(
                RunnerError::Other(String::from_str("cannot open tmp file")),
            ),
        }
    }

    /// The path of the executable that `program_name` stands for.
    pub fn spawn_process(program_name: &str) -> (path: String)
        ensures
            path@ == binary_path(program_name@),
    {
        let mut path = String::from_str("bin/");
        path.append(program_name);
        path
    }

    /// Judges the start of the program: one that did not start was not found.
    pub fn find_binary(spawned: SpawnOutcome) -> (verdict: Result<(), RunnerError>)
        ensures
            match spawn_failure(spawned) {
                Some(failure) => verdict is Err && verdict->Err_0@ == failure,
                None => verdict is Ok,
            },
    {
        match spawned {
            SpawnOutcome::Spawned => Ok(()),
            SpawnOutcome::Failed => Err(RunnerError::NotFound),
        }
    }

    /// Judges the wait: the exit status of a program that exited in time,
    /// `Timeout` for one that still runs or could not be waited for.
    pub fn wait_timeout(waited: WaitOutcome) -> (verdict: Result<Option<i32>, RunnerError>)
        ensures
            match wait_verdict(waited) {
                Ok(status) => verdict == Ok::<Option<i32>, RunnerError>(status),
                Err(failure) => verdict is Err && verdict->Err_0@ == failure,
            },
    {
        match waited {
            WaitOutcome::Exited(status) => Ok(status),
            WaitOutcome::DeadlineElapsed => Err(RunnerError::Timeout),
            WaitOutcome::Failed => Err(RunnerError::Timeout),
        }
    }

    /// What the host read from the program, or why it read nothing.
    pub fn get_stdout(read: ReadOutcome) -> (output: RunnerResult)
        ensures
            outcome_view(output) == captured(read@),
    {
        match read {
            ReadOutcome::Captured(output) => Ok(output),
            ReadOutcome::NoStream => Err(
                RunnerError::Other(String::from_str("Could not capture standard output.")),
            ),
            ReadOutcome::Failed => Err(
                RunnerError::Other(String::from_str("Could not read standard output.")),
            ),
        }
    }

    /// Judges the output of a program that exited with status zero: it is the
    /// result of the run as it stands, unless it is empty.
    pub fn read_output(output: String) -> (result: RunnerResult)
        ensures
            outcome_view(result) == output_verdict(output@),
    {
        if output.as_str().is_empty() {
            return Err(RunnerError::NoOutput);
        }
        Ok(output)
    }

    /// Where the run stands.
    pub fn state(&self) -> (state: RunState)
        ensures
            state == self@.state,
    {
        self.state
    }

    /// Whether the run is over.
    pub fn is_finished(&self) -> (finished: bool)
        ensures
            finished == (self@.state == RunState::Finished),
    {
        matches!(self.state, RunState::Finished)
    }

    /// The name of the program that is run.
    pub fn program_name(&self) -> (name: &str)
        ensures
            name@ == self@.program_name,
    {
        self.program_name.as_str()
    }

    /// The deadline of the run, in seconds.
    pub fn deadline_secs(&self) -> (deadline_secs: u64)
        ensures
            deadline_secs == self@.deadline_secs,
    {
        self.deadline_secs
    }

    /// Whether `event` answers the action that this run waits on.
    pub fn expects(&self, event: &RunEvent) -> (expected: bool)
        ensures
            expected == self@.expects(event@),
    {
        match self.state {
            RunState::InputChecked => matches!(event, RunEvent::Stage(_)),
            RunState::Staged => matches!(event, RunEvent::Spawn(_)),
            RunState::Spawned => matches!(event, RunEvent::Wait(_)),
            RunState::TimedOut => matches!(event, RunEvent::Kill(_)),
            RunState::Exited => matches!(event, RunEvent::Read(_)),
            RunState::Finished => false,
        }
    }

    /// Takes the host's report on the last action and says what to do next.
    pub fn step(&mut self, event: RunEvent) -> (action: RunAction)
        requires
            old(self)@.expects(event@),
        ensures
            (final(self)@, action@) == old(self)@.step(event@),
    {
        match event {
            RunEvent::Stage(staged) => match Self::create_tmp_file(staged) {
                Err(error) => self.finish(Err(error)),
                Ok(()) => {
                    self.state = RunState::Staged;
                    RunAction::SpawnProcess { path: Self::spawn_process(self.program_name.as_str()) }
                },
            },
            RunEvent::Spawn(spawned) => match Self::find_binary(spawned) {
                Err(error) => self.finish(Err(error)),
                Ok(()) => {
                    self.state = RunState::Spawned;
                    RunAction::WaitForExit { deadline_secs: self.deadline_secs }
                },
            },
            RunEvent::Wait(waited) => match Self::wait_timeout(waited) {
                Err(_) => {
                    self.state = RunState::TimedOut;
                    RunAction::KillProcess
                },
                Ok(Some(0)) => {
                    self.state = RunState::Exited;
                    RunAction::ReadOutput
                },
                Ok(_) => self.finish(Err(RunnerError::Crash)),
            },
            RunEvent::Kill(killed) => match killed {
                KillOutcome::Killed => self.finish(Err(RunnerError::Timeout)),
                KillOutcome::Failed => self.finish(
                    Err(RunnerError::Other(String::from_str("Command wasn't running"))),
                ),
            },
            RunEvent::Read(read) => match Self::get_stdout(read) {
                Err(error) => self.finish(Err(error)),
                Ok(output) => {
                    let result = Self::read_output(output);
                    self.finish(result)
                },
            },
        }
    }

    fn finish(&mut self, result: RunnerResult) -> (action: RunAction)
        ensures
            (final(self)@, action@) == old(self)@.finish(outcome_view(result)),
    {
        self.state = RunState::Finished;
        RunAction::Finish(result)
    }
}

/// The view of what `run` returns.
pub open spec fn started_view(started: Result<(BinaryRunner, RunAction), RunnerError>) -> Result<
    (Run, Action),
    Failure,
> {
    match started {
        Ok((runner, action)) => Ok((runner@, action@)),
        Err(error) => Err(error@),
    }
}

} // verus!
