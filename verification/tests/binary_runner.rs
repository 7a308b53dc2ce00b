use janosik::runners::binary_runner::{
    BinaryRunner, KillOutcome, ReadOutcome, RunAction, RunEvent, RunnerResult, SpawnOutcome,
    StageOutcome, WaitOutcome, DEFAULT_DEADLINE_SECS,
};
use janosik::runners::host::{rehearse, Script as Rehearsal};
use janosik::runners::runner_error::RunnerError;

/// A host that answers every action from a fixed script.
struct Script {
    stage: StageOutcome,
    spawn: SpawnOutcome,
    wait: WaitOutcome,
    kill: KillOutcome,
    read: fn() -> ReadOutcome,
}

fn captured_nothing() -> ReadOutcome {
    ReadOutcome::Captured(String::new())
}

fn captured_hello() -> ReadOutcome {
    ReadOutcome::Captured("hello".to_string())
}

fn echo_host(read: fn() -> ReadOutcome) -> Script {
    Script {
        stage: StageOutcome::Staged,
        spawn: SpawnOutcome::Spawned,
        wait: WaitOutcome::Exited(Some(0)),
        kill: KillOutcome::Killed,
        read,
    }
}

/// Drives a run against the script and returns the actions asked for, the
/// last of which holds the result.
fn drive(mut runner: BinaryRunner, first: RunAction, script: &Script) -> Vec<RunAction> {
    let mut actions = Vec::new();
    let mut action = first;
    loop {
        let event = match &action {
            RunAction::StageInput { .. } => RunEvent::Stage(script.stage),
            RunAction::SpawnProcess { .. } => RunEvent::Spawn(script.spawn),
            RunAction::WaitForExit { .. } => RunEvent::Wait(script.wait),
            RunAction::KillProcess => RunEvent::Kill(script.kill),
            RunAction::ReadOutput => RunEvent::Read((script.read)()),
            RunAction::Finish(_) => {
                actions.push(action);
                return actions;
            }
        };
        assert!(runner.expects(&event));
        actions.push(action);
        action = runner.step(event);
    }
}

fn run_against(program_name: &str, input: &str, script: &Script) -> RunnerResult {
    match BinaryRunner::run(program_name, input) {
        Err(error) => Err(error),
        Ok((runner, first)) => match drive(runner, first, script).pop() {
            Some(RunAction::Finish(result)) => result,
            other => panic!("the run did not finish: {:?}", other),
        },
    }
}

#[test]
fn should_return_error_on_empty_input() {
    let out = BinaryRunner::run("not found", "");

    assert!(out.is_err());
    assert_eq!(out.unwrap_err(), RunnerError::NoInput);
}

#[test]
fn empty_input_is_refused_under_any_deadline() {
    let out = BinaryRunner::run_with_deadline("cat", "", 1);
    assert_eq!(out.unwrap_err(), RunnerError::NoInput);
}

#[test]
fn run_asks_to_stage_the_input_unchanged() {
    let (_runner, first) = BinaryRunner::run("cat", "hello\n ``` \u{105}").unwrap();
    assert_eq!(first, RunAction::StageInput { input: "hello\n ``` \u{105}".to_string() });
}

#[test]
fn cat_hands_hello_back() {
    let (runner, first) = BinaryRunner::run("cat", "hello").unwrap();
    let actions = drive(runner, first, &echo_host(captured_hello));
    assert_eq!(
        actions,
        vec![
            RunAction::StageInput { input: "hello".to_string() },
            RunAction::SpawnProcess { path: "bin/cat".to_string() },
            RunAction::WaitForExit { deadline_secs: 30 },
            RunAction::ReadOutput,
            RunAction::Finish(Ok("hello".to_string())),
        ]
    );
}

#[test]
fn missing_program_is_not_found() {
    let script = Script { spawn: SpawnOutcome::Failed, ..echo_host(captured_hello) };
    assert_eq!(run_against("missing_prog", "x", &script), Err(RunnerError::NotFound));
}

#[test]
fn missing_program_is_looked_for_under_bin() {
    let script = Script { spawn: SpawnOutcome::Failed, ..echo_host(captured_hello) };
    let (runner, first) = BinaryRunner::run("missing_prog", "x").unwrap();
    let actions = drive(runner, first, &script);
    assert_eq!(actions.len(), 3);
    assert_eq!(actions[1], RunAction::SpawnProcess { path: "bin/missing_prog".to_string() });
    assert_eq!(actions[2], RunAction::Finish(Err(RunnerError::NotFound)));
}

#[test]
fn sleeping_program_times_out_after_one_second() {
    let script = Script { wait: WaitOutcome::DeadlineElapsed, ..echo_host(captured_hello) };
    let (runner, first) = BinaryRunner::run_with_deadline("sleep_forever", "x", 1).unwrap();
    let actions = drive(runner, first, &script);
    assert_eq!(
        actions,
        vec![
            RunAction::StageInput { input: "x".to_string() },
            RunAction::SpawnProcess { path: "bin/sleep_forever".to_string() },
            RunAction::WaitForExit { deadline_secs: 1 },
            RunAction::KillProcess,
            RunAction::Finish(Err(RunnerError::Timeout)),
        ]
    );
}

#[test]
fn default_deadline_is_thirty_seconds() {
    assert_eq!(DEFAULT_DEADLINE_SECS, 30);
    let (mut runner, _first) = BinaryRunner::run("cat", "x").unwrap();
    runner.step(RunEvent::Stage(StageOutcome::Staged));
    let wait = runner.step(RunEvent::Spawn(SpawnOutcome::Spawned));
    assert_eq!(wait, RunAction::WaitForExit { deadline_secs: 30 });
}

#[test]
fn failed_wait_kills_and_times_out() {
    let script = Script { wait: WaitOutcome::Failed, ..echo_host(captured_hello) };
    let (runner, first) = BinaryRunner::run("cat", "x").unwrap();
    let actions = drive(runner, first, &script);
    assert_eq!(actions[3], RunAction::KillProcess);
    assert_eq!(actions[4], RunAction::Finish(Err(RunnerError::Timeout)));
}

#[test]
fn failed_kill_is_a_typed_error() {
    let script = Script {
        wait: WaitOutcome::DeadlineElapsed,
        kill: KillOutcome::Failed,
        ..echo_host(captured_hello)
    };
    assert_eq!(
        run_against("sleep_forever", "x", &script),
        Err(RunnerError::Other("Command wasn't running".to_string()))
    );
}

#[test]
fn nonzero_exit_is_a_crash_whatever_was_written() {
    let script = Script { wait: WaitOutcome::Exited(Some(1)), ..echo_host(captured_hello) };
    let (runner, first) = BinaryRunner::run("false", "x").unwrap();
    let actions = drive(runner, first, &script);
    assert!(!actions.contains(&RunAction::ReadOutput));
    assert_eq!(actions.last(), Some(&RunAction::Finish(Err(RunnerError::Crash))));
    let negative = Script { wait: WaitOutcome::Exited(Some(-1)), ..echo_host(captured_hello) };
    assert_eq!(run_against("false", "x", &negative), Err(RunnerError::Crash));
}

#[test]
fn exit_without_status_is_a_crash() {
    let script = Script { wait: WaitOutcome::Exited(None), ..echo_host(captured_hello) };
    assert_eq!(run_against("killed", "x", &script), Err(RunnerError::Crash));
}

#[test]
fn silent_program_has_no_output() {
    assert_eq!(run_against("true", "x", &echo_host(captured_nothing)), Err(RunnerError::NoOutput));
}

#[test]
fn output_is_returned_as_written() {
    fn written() -> ReadOutcome {
        ReadOutcome::Captured(" a\tb\n\n```\u{17c}\n".to_string())
    }
    assert_eq!(
        run_against("printer", "x", &echo_host(written)),
        Ok(" a\tb\n\n```\u{17c}\n".to_string())
    );
}

#[test]
fn same_answers_give_the_same_result_twice() {
    let script = echo_host(captured_hello);
    assert_eq!(run_against("cat", "hello", &script), run_against("cat", "hello", &script));
}

#[test]
fn staging_failures_have_their_messages() {
    let write = Script { stage: StageOutcome::WriteFailed, ..echo_host(captured_hello) };
    assert_eq!(
        run_against("cat", "x", &write),
        Err(RunnerError::Other("cannot write to tmp file".to_string()))
    );
    let open = Script { stage: StageOutcome::OpenFailed, ..echo_host(captured_hello) };
    assert_eq!(
        run_against("cat", "x", &open),
        Err(RunnerError::Other("cannot open tmp file".to_string()))
    );
}

#[test]
fn staging_failure_starts_no_program() {
    let write = Script { stage: StageOutcome::WriteFailed, ..echo_host(captured_hello) };
    let (runner, first) = BinaryRunner::run("cat", "x").unwrap();
    assert_eq!(drive(runner, first, &write).len(), 2);
}

#[test]
fn reading_failures_have_their_messages() {
    fn no_stream() -> ReadOutcome {
        ReadOutcome::NoStream
    }
    fn failed() -> ReadOutcome {
        ReadOutcome::Failed
    }
    assert_eq!(
        run_against("cat", "x", &echo_host(no_stream)),
        Err(RunnerError::Other("Could not capture standard output.".to_string()))
    );
    assert_eq!(
        run_against("cat", "x", &echo_host(failed)),
        Err(RunnerError::Other("Could not read standard output.".to_string()))
    );
}

#[test]
fn two_runs_keep_their_own_inputs() {
    let (first_runner, first_action) = BinaryRunner::run("cat", "one").unwrap();
    let (second_runner, second_action) = BinaryRunner::run("cat", "two").unwrap();
    assert_eq!(first_action, RunAction::StageInput { input: "one".to_string() });
    assert_eq!(second_action, RunAction::StageInput { input: "two".to_string() });
    fn one() -> ReadOutcome {
        ReadOutcome::Captured("one".to_string())
    }
    fn two() -> ReadOutcome {
        ReadOutcome::Captured("two".to_string())
    }
    // The two runs advance in turn.
    let mut runners = [first_runner, second_runner];
    let reads: [fn() -> ReadOutcome; 2] = [one, two];
    let mut results = Vec::new();
    for step in 0..4 {
        for (runner, read) in runners.iter_mut().zip(reads.iter()) {
            let event = match step {
                0 => RunEvent::Stage(StageOutcome::Staged),
                1 => RunEvent::Spawn(SpawnOutcome::Spawned),
                2 => RunEvent::Wait(WaitOutcome::Exited(Some(0))),
                _ => RunEvent::Read(read()),
            };
            let action = runner.step(event);
            if step == 3 {
                results.push(action);
            }
        }
    }
    assert_eq!(
        results,
        vec![
            RunAction::Finish(Ok("one".to_string())),
            RunAction::Finish(Ok("two".to_string())),
        ]
    );
}

#[test]
fn staging_files_differ_between_runs() {
    assert_eq!(BinaryRunner::tmp_file_name(0), "tmp_0.txt");
    assert_eq!(BinaryRunner::tmp_file_name(7), "tmp_7.txt");
    assert_eq!(BinaryRunner::tmp_file_name(10), "tmp_10.txt");
    assert_eq!(BinaryRunner::tmp_file_name(u64::MAX), "tmp_18446744073709551615.txt");
    assert_ne!(BinaryRunner::tmp_file_name(1), BinaryRunner::tmp_file_name(11));
}

#[test]
fn events_out_of_turn_are_not_expected() {
    let (mut runner, _first) = BinaryRunner::run("cat", "x").unwrap();
    assert!(runner.expects(&RunEvent::Stage(StageOutcome::Staged)));
    assert!(!runner.expects(&RunEvent::Spawn(SpawnOutcome::Spawned)));
    assert!(!runner.expects(&RunEvent::Kill(KillOutcome::Killed)));
    runner.step(RunEvent::Stage(StageOutcome::OpenFailed));
    assert!(!runner.expects(&RunEvent::Stage(StageOutcome::Staged)));
    assert!(!runner.expects(&RunEvent::Read(ReadOutcome::NoStream)));
}

#[test]
fn each_judgement_stands_alone() {
    assert_eq!(BinaryRunner::create_tmp_file(StageOutcome::Staged), Ok(()));
    assert_eq!(BinaryRunner::find_binary(SpawnOutcome::Spawned), Ok(()));
    assert_eq!(BinaryRunner::find_binary(SpawnOutcome::Failed), Err(RunnerError::NotFound));
    assert_eq!(BinaryRunner::spawn_process("cat"), "bin/cat");
    assert_eq!(BinaryRunner::spawn_process(""), "bin/");
    assert_eq!(BinaryRunner::wait_timeout(WaitOutcome::Exited(Some(3))), Ok(Some(3)));
    assert_eq!(BinaryRunner::wait_timeout(WaitOutcome::Exited(None)), Ok(None));
    assert_eq!(
        BinaryRunner::wait_timeout(WaitOutcome::DeadlineElapsed),
        Err(RunnerError::Timeout)
    );
    assert_eq!(BinaryRunner::wait_timeout(WaitOutcome::Failed), Err(RunnerError::Timeout));
    assert_eq!(BinaryRunner::read_output(String::new()), Err(RunnerError::NoOutput));
    assert_eq!(BinaryRunner::read_output("x".to_string()), Ok("x".to_string()));
    assert_eq!(
        BinaryRunner::get_stdout(ReadOutcome::Captured(String::new())),
        Ok(String::new())
    );
}

fn script(wait: WaitOutcome, read: ReadOutcome) -> Rehearsal {
    Rehearsal {
        stage: StageOutcome::Staged,
        spawn: SpawnOutcome::Spawned,
        wait,
        kill: KillOutcome::Killed,
        read,
    }
}

#[test]
fn rehearsal_ends_as_the_run_does() {
    let hello = || ReadOutcome::Captured("hello".to_string());
    assert_eq!(
        rehearse("cat", "hello", 30, script(WaitOutcome::Exited(Some(0)), hello())),
        Ok("hello".to_string())
    );
    assert_eq!(
        rehearse("cat", "", 30, script(WaitOutcome::Exited(Some(0)), hello())),
        Err(RunnerError::NoInput)
    );
    assert_eq!(
        rehearse("sleep_forever", "x", 1, script(WaitOutcome::DeadlineElapsed, hello())),
        Err(RunnerError::Timeout)
    );
    assert_eq!(
        rehearse("false", "x", 30, script(WaitOutcome::Exited(Some(2)), hello())),
        Err(RunnerError::Crash)
    );
    assert_eq!(
        rehearse("true", "x", 30, script(WaitOutcome::Exited(Some(0)), ReadOutcome::NoStream)),
        Err(RunnerError::Other("Could not capture standard output.".to_string()))
    );
    let missing = Rehearsal {
        spawn: SpawnOutcome::Failed,
        ..script(WaitOutcome::Exited(Some(0)), hello())
    };
    assert_eq!(rehearse("missing_prog", "x", 30, missing), Err(RunnerError::NotFound));
}
