//! What holds of every run, whatever the host reports.
//!
//! A run asks for each kind of action at most once, so a host is, to the
//! runner, one answer per kind of action. This module follows a run against
//! such a host to its end and proves that the result is the one that the
//! table [`classify`] gives, together with the consequences that callers rely
//! on.

use crate::runners::binary_runner::{
    binary_path, outcome_view, staging_name, Action, BinaryRunner, Event, KillOutcome, Outcome,
    ReadOutcome, Reading, Run, RunAction, RunEvent, RunState, RunnerResult, SpawnOutcome,
    StageOutcome, WaitOutcome,
};
use crate::runners::runner_error::{Failure, RunnerError};
use crate::text::lemma_decimal_injective;
use vstd::prelude::*;

verus! {

/// How the outside world answers during one run.
pub struct Host {
    pub stage: StageOutcome,
    pub spawn: SpawnOutcome,
    pub wait: WaitOutcome,
    pub kill: KillOutcome,
    pub read: Reading,
}

impl Host {
    /// The report of this host on `action`.
    pub open spec fn answer(self, action: Action) -> Event
        recommends
            !(action is Finish),
    {
        match action {
            Action::StageInput { .. } => Event::Stage(self.stage),
            Action::SpawnProcess { .. } => Event::Spawn(self.spawn),
            Action::WaitForExit { .. } => Event::Wait(self.wait),
            Action::KillProcess => Event::Kill(self.kill),
            Action::ReadOutput => Event::Read(self.read),
            Action::Finish(_) => arbitrary(),
        }
    }

    /// A host on which the program runs to its end in time, exits with status
    /// zero and writes `output`.
    pub open spec fn program_writes(self, output: Seq<char>) -> bool {
        &&& self.stage == StageOutcome::Staged
        &&& self.spawn == SpawnOutcome::Spawned
        &&& self.wait == WaitOutcome::Exited(Some(0i32))
        &&& self.read == Reading::Captured(output)
    }
}

/// The result of a run on `input` against `host`, case by case, in the order
/// in which the cases are met.
pub open spec fn classify(input: Seq<char>, host: Host) -> Outcome {
    if input.len() == 0 {
        Err(Failure::NoInput)
    } else if host.stage == StageOutcome::WriteFailed {
        Err(Failure::Other("cannot write to tmp file"@))
    } else if host.stage == StageOutcome::OpenFailed {
        Err(Failure::Other("cannot open tmp file"@))
    } else if host.spawn == SpawnOutcome::Failed {
        Err(Failure::NotFound)
    } else {
        match host.wait {
            WaitOutcome::Exited(status) => if status != Some(0i32) {
                Err(Failure::Crash)
            } else {
                match host.read {
                    Reading::NoStream => Err(
                        Failure::Other("Could not capture standard output."@),
                    ),
                    Reading::Failed => Err(Failure::Other("Could not read standard output."@)),
                    Reading::Captured(output) => if output.len() == 0 {
                        Err(Failure::NoOutput)
                    } else {
                        Ok(output)
                    },
                }
            },
            _ => match host.kill {
                KillOutcome::Killed => Err(Failure::Timeout),
                KillOutcome::Failed => Err(Failure::Other("Command wasn't running"@)),
            },
        }
    }
}

/// Whether `action` is the one that a run in `state` waits on.
pub open spec fn awaits(state: RunState, action: Action) -> bool {
    match state {
        RunState::InputChecked => action is StageInput,
        RunState::Staged => action is SpawnProcess,
        RunState::Spawned => action is WaitForExit,
        RunState::TimedOut => action is KillProcess,
        RunState::Exited => action is ReadOutput,
        RunState::Finished => action is Finish,
    }
}

/// The actions that a run asks of `host`, from `action` on, `steps` steps at
/// most after it.
pub open spec fn actions_from(run: Run, action: Action, host: Host, steps: nat) -> Seq<Action>
    decreases steps,
{
    if action is Finish || steps == 0 {
        seq![action]
    } else {
        let (next, then) = run.step(host.answer(action));
        seq![action] + actions_from(next, then, host, (steps - 1) as nat)
    }
}

/// No run takes more steps than this.
pub open spec fn max_steps() -> nat {
    5
}

/// All the actions of the run of `program_name` on `input` against `host`, in
/// order; none where the run is refused.
pub open spec fn actions_of(
    program_name: Seq<char>,
    input: Seq<char>,
    deadline_secs: u64,
    host: Host,
) -> Seq<Action> {
    match Run::start(program_name, input, deadline_secs) {
        Err(_) => Seq::empty(),
        Ok((run, action)) => actions_from(run, action, host, max_steps()),
    }
}

/// The result of the run of `program_name` on `input` against `host`.
pub open spec fn result_of(
    program_name: Seq<char>,
    input: Seq<char>,
    deadline_secs: u64,
    host: Host,
) -> Option<Outcome> {
    match Run::start(program_name, input, deadline_secs) {
        Err(failure) => Some(Err(failure)),
        Ok(_) => match actions_of(program_name, input, deadline_secs, host).last() {
            Action::Finish(outcome) => Some(outcome),
            _ => None,
        },
    }
}

/// A host that answers the action asked of it always answers what the run
/// expects, and the action that follows is again the one that the new state
/// waits on.
pub proof fn lemma_step_keeps_protocol(run: Run, action: Action, host: Host)
    requires
        awaits(run.state, action),
        !(action is Finish),
    ensures
        run.expects(host.answer(action)),
        awaits(run.step(host.answer(action)).0.state, run.step(host.answer(action)).1),
        run.step(host.answer(action)).0.program_name == run.program_name,
        run.step(host.answer(action)).0.deadline_secs == run.deadline_secs,
{
}

/// Every run ends, within `max_steps` steps, and ends as `classify` says: the
/// last thing asked of the host is to finish with that result, and nothing
/// before it is.
pub proof fn lemma_run_ends_as_classified(
    program_name: Seq<char>,
    input: Seq<char>,
    deadline_secs: u64,
    host: Host,
)
    ensures
        result_of(program_name, input, deadline_secs, host) == Some(classify(input, host)),
        actions_of(program_name, input, deadline_secs, host).len() <= max_steps() + 1,
        input.len() > 0 ==> actions_of(program_name, input, deadline_secs, host).last() == (
            Action::Finish(classify(input, host))
        ),
        forall|i: int|
            0 <= i < actions_of(program_name, input, deadline_secs, host).len() - 1 ==> !(
                #[trigger] actions_of(program_name, input, deadline_secs, host)[i] is Finish
            ),
{
    reveal_with_fuel(actions_from, 6);
}

/// Empty input is refused before anything is asked of the host: there is no
/// action at all, so no file is touched and no program started.
pub proof fn lemma_empty_input_is_refused(program_name: Seq<char>, deadline_secs: u64, host: Host)
    ensures
        Run::start(program_name, Seq::<char>::empty(), deadline_secs) == Err::<
            (Run, Action),
            Failure,
        >(Failure::NoInput),
        actions_of(program_name, Seq::<char>::empty(), deadline_secs, host).len() == 0,
        result_of(program_name, Seq::<char>::empty(), deadline_secs, host) == Some(
            Err::<Seq<char>, Failure>(Failure::NoInput),
        ),
{
}

/// A run on input that is not empty begins by asking the host to stage that
/// very input, and then to start the program from `bin/`.
pub proof fn lemma_run_stages_its_input(
    program_name: Seq<char>,
    input: Seq<char>,
    deadline_secs: u64,
    host: Host,
)
    requires
        input.len() > 0,
    ensures
        actions_of(program_name, input, deadline_secs, host).len() >= 2,
        actions_of(program_name, input, deadline_secs, host)[0] == (Action::StageInput { input }),
        host.stage == StageOutcome::Staged ==> actions_of(
            program_name,
            input,
            deadline_secs,
            host,
        )[1] == (Action::SpawnProcess { path: binary_path(program_name) }),
{
    reveal_with_fuel(actions_from, 6);
}

/// A program that cannot be started is reported as not found, whatever its
/// name, once there is input and the input was staged.
pub proof fn lemma_missing_program_is_not_found(
    program_name: Seq<char>,
    input: Seq<char>,
    deadline_secs: u64,
    host: Host,
)
    requires
        input.len() > 0,
        host.stage == StageOutcome::Staged,
        host.spawn == SpawnOutcome::Failed,
    ensures
        result_of(program_name, input, deadline_secs, host) == Some(
            Err::<Seq<char>, Failure>(Failure::NotFound),
        ),
{
    lemma_run_ends_as_classified(program_name, input, deadline_secs, host);
}

/// A program that outlives the deadline ends the run with `Timeout`, and not
/// before the host was asked to kill it and has done so. The wait is asked for
/// with the deadline that the run was begun with.
pub proof fn lemma_timeout_follows_kill(
    program_name: Seq<char>,
    input: Seq<char>,
    deadline_secs: u64,
    host: Host,
)
    requires
        input.len() > 0,
        host.stage == StageOutcome::Staged,
        host.spawn == SpawnOutcome::Spawned,
        host.wait == WaitOutcome::DeadlineElapsed,
        host.kill == KillOutcome::Killed,
    ensures
        result_of(program_name, input, deadline_secs, host) == Some(
            Err::<Seq<char>, Failure>(Failure::Timeout),
        ),
        actions_of(program_name, input, deadline_secs, host) == seq![
            Action::StageInput { input },
            Action::SpawnProcess { path: binary_path(program_name) },
            Action::WaitForExit { deadline_secs },
            Action::KillProcess,
            Action::Finish(Err(Failure::Timeout)),
        ],
{
    reveal_with_fuel(actions_from, 6);
    lemma_run_ends_as_classified(program_name, input, deadline_secs, host);
}

/// `Timeout` is never the result of a run in which the program was not killed.
pub proof fn lemma_timeout_only_after_kill(
    program_name: Seq<char>,
    input: Seq<char>,
    deadline_secs: u64,
    host: Host,
)
    requires
        result_of(program_name, input, deadline_secs, host) == Some(
            Err::<Seq<char>, Failure>(Failure::Timeout),
        ),
    ensures
        host.kill == KillOutcome::Killed,
        actions_of(program_name, input, deadline_secs, host).contains(Action::KillProcess),
{
    reveal_with_fuel(actions_from, 6);
    lemma_run_ends_as_classified(program_name, input, deadline_secs, host);
    let actions = actions_of(program_name, input, deadline_secs, host);
    assert(actions[3] == Action::KillProcess);
}

/// A program that exits with a status other than zero, or with none, has
/// crashed, whatever it wrote: its output is not even asked for.
pub proof fn lemma_crash_ignores_output(
    program_name: Seq<char>,
    input: Seq<char>,
    deadline_secs: u64,
    host: Host,
    status: Option<i32>,
)
    requires
        input.len() > 0,
        host.stage == StageOutcome::Staged,
        host.spawn == SpawnOutcome::Spawned,
        host.wait == WaitOutcome::Exited(status),
        status != Some(0i32),
    ensures
        result_of(program_name, input, deadline_secs, host) == Some(
            Err::<Seq<char>, Failure>(Failure::Crash),
        ),
        !actions_of(program_name, input, deadline_secs, host).contains(Action::ReadOutput),
{
    reveal_with_fuel(actions_from, 6);
    lemma_run_ends_as_classified(program_name, input, deadline_secs, host);
}

/// A program that exits with status zero and writes nothing ends the run with
/// `NoOutput`.
pub proof fn lemma_silent_program_has_no_output(
    program_name: Seq<char>,
    input: Seq<char>,
    deadline_secs: u64,
    host: Host,
)
    requires
        input.len() > 0,
        host.program_writes(Seq::<char>::empty()),
    ensures
        result_of(program_name, input, deadline_secs, host) == Some(
            Err::<Seq<char>, Failure>(Failure::NoOutput),
        ),
{
    lemma_run_ends_as_classified(program_name, input, deadline_secs, host);
}

/// A program that exits with status zero and writes `output`, not empty, ends
/// the run with exactly `output`.
pub proof fn lemma_output_is_returned_as_written(
    program_name: Seq<char>,
    input: Seq<char>,
    deadline_secs: u64,
    host: Host,
    output: Seq<char>,
)
    requires
        input.len() > 0,
        output.len() > 0,
        host.program_writes(output),
    ensures
        result_of(program_name, input, deadline_secs, host) == Some(
            Ok::<Seq<char>, Failure>(output),
        ),
{
    lemma_run_ends_as_classified(program_name, input, deadline_secs, host);
}

/// The result of a run depends on the input and on the host's answers alone:
/// not on the program's name, not on the deadline, not on any earlier run.
pub proof fn lemma_result_depends_on_host_alone(
    first_name: Seq<char>,
    second_name: Seq<char>,
    input: Seq<char>,
    first_deadline: u64,
    second_deadline: u64,
    host: Host,
)
    ensures
        result_of(first_name, input, first_deadline, host) == result_of(
            second_name,
            input,
            second_deadline,
            host,
        ),
{
    lemma_run_ends_as_classified(first_name, input, first_deadline, host);
    lemma_run_ends_as_classified(second_name, input, second_deadline, host);
}

/// A run that succeeds has output, and that output is not empty.
pub proof fn lemma_success_has_output(
    program_name: Seq<char>,
    input: Seq<char>,
    deadline_secs: u64,
    host: Host,
    output: Seq<char>,
)
    requires
        result_of(program_name, input, deadline_secs, host) == Some(
            Ok::<Seq<char>, Failure>(output),
        ),
    ensures
        output.len() > 0,
        host.program_writes(output),
{
    lemma_run_ends_as_classified(program_name, input, deadline_secs, host);
}

/// Whether the host is asked at most once to start a program.
pub open spec fn starts_at_most_one(actions: Seq<Action>) -> bool {
    forall|i: int, j: int|
        0 <= i < j < actions.len() && actions[i] is SpawnProcess ==> !(actions[j] is SpawnProcess)
}

/// A run starts at most one program, and does not end while that program may
/// still run: either the host saw it exit, or the host was asked to kill it.
pub proof fn lemma_one_program_per_run(
    program_name: Seq<char>,
    input: Seq<char>,
    deadline_secs: u64,
    host: Host,
)
    ensures
        starts_at_most_one(actions_of(program_name, input, deadline_secs, host)),
        input.len() > 0 && host.stage == StageOutcome::Staged && host.spawn
            == SpawnOutcome::Spawned ==> host.wait is Exited || actions_of(
            program_name,
            input,
            deadline_secs,
            host,
        ).contains(Action::KillProcess),
{
    reveal_with_fuel(actions_from, 6);
    let actions = actions_of(program_name, input, deadline_secs, host);
    if input.len() > 0 && host.stage == StageOutcome::Staged && host.spawn
        == SpawnOutcome::Spawned && !(host.wait is Exited) {
        assert(actions[3] == Action::KillProcess);
    }
}

/// Two runs whose programs hand their input back each end with their own
/// input, and the host was asked to stage, for each, that input and no other.
pub proof fn lemma_runs_keep_their_inputs(
    program_name: Seq<char>,
    first_input: Seq<char>,
    second_input: Seq<char>,
    deadline_secs: u64,
    first_host: Host,
    second_host: Host,
)
    requires
        first_input.len() > 0,
        second_input.len() > 0,
        first_input != second_input,
        first_host.program_writes(first_input),
        second_host.program_writes(second_input),
    ensures
        result_of(program_name, first_input, deadline_secs, first_host) == Some(
            Ok::<Seq<char>, Failure>(first_input),
        ),
        result_of(program_name, second_input, deadline_secs, second_host) == Some(
            Ok::<Seq<char>, Failure>(second_input),
        ),
        actions_of(program_name, first_input, deadline_secs, first_host)[0] == (
            Action::StageInput { input: first_input }
        ),
        actions_of(program_name, second_input, deadline_secs, second_host)[0] == (
            Action::StageInput { input: second_input }
        ),
{
    lemma_run_ends_as_classified(program_name, first_input, deadline_secs, first_host);
    lemma_run_ends_as_classified(program_name, second_input, deadline_secs, second_host);
    lemma_run_stages_its_input(program_name, first_input, deadline_secs, first_host);
    lemma_run_stages_its_input(program_name, second_input, deadline_secs, second_host);
}

/// Runs with different numbers stage their input in different files.
pub proof fn lemma_staging_names_differ(first_id: u64, second_id: u64)
    requires
        first_id != second_id,
    ensures
        staging_name(first_id) != staging_name(second_id),
{
    let prefix = "tmp_"@;
    let suffix = ".txt"@;
    let first = crate::text::decimal(first_id as nat);
    let second = crate::text::decimal(second_id as nat);
    if staging_name(first_id) == staging_name(second_id) {
        let name = staging_name(first_id);
        assert(name.len() == prefix.len() + first.len() + suffix.len());
        assert(name.len() == prefix.len() + second.len() + suffix.len());
        assert(first =~= name.subrange(prefix.len() as int, (prefix.len() + first.len()) as int));
        assert(second =~= name.subrange(prefix.len() as int, (prefix.len() + second.len()) as int));
        lemma_decimal_injective(first_id as nat, second_id as nat);
    }
}

/// A host whose answers are fixed beforehand: what a run would meet, written
/// down.
#[derive(Debug, PartialEq, Eq)]
pub struct Script {
    pub stage: StageOutcome,
    pub spawn: SpawnOutcome,
    pub wait: WaitOutcome,
    pub kill: KillOutcome,
    pub read: ReadOutcome,
}

impl View for Script {
    type V = Host;

    open spec fn view(&self) -> Host {
        Host {
            stage: self.stage,
            spawn: self.spawn,
            wait: self.wait,
            kill: self.kill,
            read: self.read@,
        }
    }
}

/// Goes through a whole run of `program_name` on `input` against `script`,
/// step by step as a host would, with no outside work done. The result is the
/// one that `classify` gives, and the one that the run has by `result_of`.
pub fn rehearse(program_name: &str, input: &str, deadline_secs: u64, script: Script) -> (result:
    RunnerResult)
    ensures
        outcome_view(result) == classify(input@, script@),
        Some(outcome_view(result)) == result_of(program_name@, input@, deadline_secs, script@),
{
    proof {
        lemma_run_ends_as_classified(program_name@, input@, deadline_secs, script@);
    }
    let (mut runner, staging) = match BinaryRunner::run_with_deadline(
        program_name,
        input,
        deadline_secs,
    ) {
        Err(error) => {
            return Err(error);
        },
        Ok(started) => started,
    };
    let spawning = runner.step(RunEvent::Stage(script.stage));
    if let RunAction::Finish(result) = spawning {
        return result;
    }
    let waiting = runner.step(RunEvent::Spawn(script.spawn));
    if let RunAction::Finish(result) = waiting {
        return result;
    }
    let ending = match runner.step(RunEvent::Wait(script.wait)) {
        RunAction::Finish(result) => {
            return result;
        },
        RunAction::KillProcess => runner.step(RunEvent::Kill(script.kill)),
        _ => runner.step(RunEvent::Read(script.read)),
    };
    match ending {
        RunAction::Finish(result) => result,
        _ => {
            // Not reached: the answer to a kill or to a read ends the run.
            assert(false);
            Err(RunnerError::Other(String::new()))
        },
    }
}

} // verus!
