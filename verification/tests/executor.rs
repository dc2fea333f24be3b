use command_runner::command::CommandSpec;
use command_runner::executor::execute;
use command_runner::executor::outcome;
use command_runner::executor::CommandResult;
use command_runner::executor::ProcessReport;
use command_runner::executor::RunError;

fn exited(code: Option<i32>) -> Result<ProcessReport, String> {
    Ok(ProcessReport { code, stdout: Vec::new(), stderr: Vec::new() })
}

#[test]
fn exit_code_zero_is_success() {
    assert_eq!(outcome(Some(0)), CommandResult::Success);
}

#[test]
fn other_exit_codes_are_failures_with_the_code() {
    assert_eq!(outcome(Some(1)), CommandResult::Failure(1));
    assert_eq!(outcome(Some(2)), CommandResult::Failure(2));
    assert_eq!(outcome(Some(255)), CommandResult::Failure(255));
    assert_eq!(outcome(Some(-1)), CommandResult::Failure(-1));
    assert_eq!(outcome(Some(i32::MIN)), CommandResult::Failure(i32::MIN));
}

#[test]
fn missing_exit_code_is_failure_one() {
    assert_eq!(outcome(None), CommandResult::Failure(1));
}

#[test]
fn execution_launches_the_spec_it_was_given() {
    let run = execute(CommandSpec::new("ls", &["-l"]));
    assert_eq!(run.spec().command(), "ls");
    assert_eq!(run.spec().args(), &vec!["-l".to_string()]);
}

#[test]
fn echo_hi_succeeds() {
    let run = execute(CommandSpec::new("echo", &["hi"]));
    let child = Ok(ProcessReport { code: Some(0), stdout: b"hi\n".to_vec(), stderr: Vec::new() });
    assert_eq!(run.finish(child), Ok(CommandResult::Success));
}

#[test]
fn false_fails_with_one() {
    let run = execute(CommandSpec::new("false", &[]));
    assert_eq!(run.finish(exited(Some(1))), Ok(CommandResult::Failure(1)));
}

#[test]
fn script_exit_seven_fails_with_seven() {
    let run = execute(CommandSpec::shell("exit 7"));
    assert_eq!(run.spec().command(), "bash");
    assert_eq!(run.spec().args(), &vec!["-c".to_string(), "exit 7".to_string()]);
    assert_eq!(run.finish(exited(Some(7))), Ok(CommandResult::Failure(7)));
}

#[test]
fn child_killed_by_a_signal_fails_with_one() {
    let run = execute(CommandSpec::new("sleep", &["10"]));
    assert_eq!(run.finish(exited(None)), Ok(CommandResult::Failure(1)));
}

#[test]
fn missing_binary_is_a_spawn_error() {
    let run = execute(CommandSpec::new("no-such-binary", &[]));
    let child = Err("No such file or directory (os error 2)".to_string());
    assert_eq!(
        run.finish(child),
        Err(RunError::Spawn("No such file or directory (os error 2)".to_string()))
    );
}

#[test]
fn execution_ignores_what_the_child_wrote() {
    let run = execute(CommandSpec::new("sh", &[]));
    let child = Ok(ProcessReport {
        code: Some(3),
        stdout: b"out".to_vec(),
        stderr: b"err".to_vec(),
    });
    assert_eq!(run.finish(child), Ok(CommandResult::Failure(3)));
}

#[test]
fn error_message_is_the_text_it_carries() {
    assert_eq!(RunError::Spawn("denied".to_string()).message(), "denied");
    assert_eq!(RunError::Style("bad template".to_string()).message(), "bad template");
    assert_eq!(RunError::NonZeroExit("err\n".to_string()).message(), "err\n");
    assert_eq!(RunError::NonZeroExit(String::new()).message(), "");
}
