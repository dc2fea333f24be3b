use command_runner::driver::start;
use command_runner::driver::Capturing;
use command_runner::driver::Line;
use command_runner::driver::Next;
use command_runner::driver::Spinning;
use command_runner::driver::Stream;
use command_runner::driver::Turn;
use command_runner::driver::STEP_COUNT;
use command_runner::executor::ProcessReport;

fn child(code: Option<i32>, stdout: &[u8], stderr: &[u8]) -> Result<ProcessReport, String> {
    Ok(ProcessReport { code, stdout: stdout.to_vec(), stderr: stderr.to_vec() })
}

fn out(text: &str) -> Line {
    Line { stream: Stream::Stdout, text: text.to_string() }
}

fn err(text: &str) -> Line {
    Line { stream: Stream::Stderr, text: text.to_string() }
}

fn spin(turn: Turn) -> Spinning {
    match turn.next {
        Next::Spin(step) => step,
        Next::Capture(_) => panic!("a capturing step where a spinner was due"),
        Next::Exit(code) => panic!("the program ended with {} where a spinner was due", code),
    }
}

fn capture(turn: Turn) -> Capturing {
    match turn.next {
        Next::Capture(step) => step,
        Next::Spin(_) => panic!("a spinner where a capturing step was due"),
        Next::Exit(code) => panic!("the program ended with {} where a capture was due", code),
    }
}

fn exit_code(turn: &Turn) -> i32 {
    match &turn.next {
        Next::Exit(code) => *code,
        _ => panic!("the program went on where its end was due"),
    }
}

fn after_two_good_steps() -> Turn {
    let turn = spin(start()).ended(child(Some(0), b"", b""));
    spin(turn).ended(child(Some(0), b"Hello, world!\n", b""))
}

fn after_four_good_steps() -> Turn {
    let turn = capture(after_two_good_steps()).ended(child(Some(0), b"total 0\n", b""));
    capture(turn).ended(child(Some(0), b"Hello, world!\n", b""))
}

#[test]
fn program_has_five_steps() {
    assert_eq!(STEP_COUNT, 5);
}

#[test]
fn program_begins_with_ls_under_a_spinner() {
    let turn = start();
    assert!(turn.lines.is_empty());
    assert_eq!(turn.notice, None);
    let step = spin(turn);
    assert_eq!(step.run().spec().command(), "ls");
    assert_eq!(step.run().spec().args(), &vec!["-l".to_string()]);
    assert_eq!(step.run().message(), "Running command: ls -l");
    assert_eq!(step.run().tick_millis(), 100);
    assert!(step.run().exits_on_failure());
    assert_eq!(step.run().style().get_tick_str(0), "/");
}

#[test]
fn program_runs_its_five_steps_in_order_and_ends_with_zero() {
    let turn = spin(start()).ended(child(Some(0), b"", b""));
    assert_eq!(turn.notice, Some("Command completed successfully".to_string()));
    assert_eq!(turn.lines, vec![out("Command completed")]);

    let step = spin(turn);
    assert_eq!(step.run().spec().command(), "bash");
    assert_eq!(
        step.run().spec().args(),
        &vec!["-c".to_string(), "echo Hello, world!".to_string()]
    );
    assert_eq!(step.run().message(), "Running command: bash -c echo Hello, world!");
    assert!(step.run().exits_on_failure());
    let turn = step.ended(child(Some(0), b"Hello, world!\n", b""));
    assert_eq!(turn.notice, Some("Command completed successfully".to_string()));
    assert_eq!(turn.lines, vec![out("Script executed")]);

    let step = capture(turn);
    assert_eq!(step.run().spec().command(), "ls");
    assert_eq!(step.run().spec().args(), &vec!["-l".to_string()]);
    let turn = step.ended(child(Some(0), b"total 0\n", b""));
    assert_eq!(turn.notice, None);
    assert_eq!(turn.lines, vec![out("Command output:\ntotal 0\n")]);

    let step = capture(turn);
    assert_eq!(step.run().spec().command(), "bash");
    assert_eq!(
        step.run().spec().args(),
        &vec!["-c".to_string(), "echo Hello, world!".to_string()]
    );
    let turn = step.ended(child(Some(0), b"Hello, world!\n", b""));
    assert_eq!(turn.notice, None);
    assert_eq!(turn.lines, vec![out("Script output:\nHello, world!\n")]);

    let step = spin(turn);
    assert_eq!(step.run().spec().command(), "sleep");
    assert_eq!(step.run().spec().args(), &vec!["10".to_string()]);
    assert_eq!(step.run().message(), "Running command: sleep 10");
    assert!(step.run().exits_on_failure());
    let turn = step.ended(child(Some(0), b"", b""));
    assert_eq!(turn.notice, Some("Command completed successfully".to_string()));
    assert_eq!(turn.lines, vec![out("Command completed")]);
    assert_eq!(exit_code(&turn), 0);
}

#[test]
fn failing_first_step_ends_the_program_with_its_code() {
    let turn = spin(start()).ended(child(Some(2), b"", b"ls: cannot access\n"));
    assert_eq!(turn.notice, Some("Command failed with exit code: 2".to_string()));
    assert!(turn.lines.is_empty());
    assert_eq!(exit_code(&turn), 2);
}

#[test]
fn failing_script_step_ends_the_program_with_its_code() {
    let turn = spin(start()).ended(child(Some(0), b"", b""));
    let turn = spin(turn).ended(child(Some(7), b"", b""));
    assert_eq!(turn.notice, Some("Command failed with exit code: 7".to_string()));
    assert!(turn.lines.is_empty());
    assert_eq!(exit_code(&turn), 7);
}

#[test]
fn failing_last_step_ends_the_program_with_its_code() {
    let turn = spin(after_four_good_steps()).ended(child(Some(130), b"", b""));
    assert_eq!(turn.notice, Some("Command failed with exit code: 130".to_string()));
    assert!(turn.lines.is_empty());
    assert_eq!(exit_code(&turn), 130);
}

#[test]
fn child_killed_by_a_signal_ends_the_program_with_code_one() {
    let turn = spin(after_four_good_steps()).ended(child(None, b"", b""));
    assert_eq!(turn.notice, Some("Command failed with exit code: 1".to_string()));
    assert!(turn.lines.is_empty());
    assert_eq!(exit_code(&turn), 1);
}

#[test]
fn spawn_error_under_a_spinner_is_reported_and_the_program_goes_on() {
    let turn = spin(start()).ended(Err("No such file or directory (os error 2)".to_string()));
    assert_eq!(turn.notice, None);
    assert_eq!(turn.lines, vec![err("Command failed: No such file or directory (os error 2)")]);
    let step = spin(turn);
    assert_eq!(step.run().spec().command(), "bash");
    let turn = step.ended(Err("Permission denied (os error 13)".to_string()));
    assert_eq!(turn.notice, None);
    assert_eq!(turn.lines, vec![err("Script failed: Permission denied (os error 13)")]);
    assert_eq!(capture(turn).run().spec().command(), "ls");
}

#[test]
fn failing_capture_is_reported_and_the_program_goes_on() {
    let turn = capture(after_two_good_steps()).ended(child(Some(2), b"ignored", b"err"));
    assert_eq!(turn.notice, None);
    assert_eq!(turn.lines, vec![err("Command failed: err")]);

    let turn = capture(turn).ended(child(Some(1), b"", b"bash: oops\n"));
    assert_eq!(turn.lines, vec![err("Script failed: bash: oops\n")]);

    let step = spin(turn);
    assert_eq!(step.run().spec().command(), "sleep");
    let turn = step.ended(child(Some(0), b"", b""));
    assert_eq!(exit_code(&turn), 0);
}

#[test]
fn spawn_error_of_a_capture_is_reported_and_the_program_goes_on() {
    let turn = capture(after_two_good_steps())
        .ended(Err("No such file or directory (os error 2)".to_string()));
    assert_eq!(turn.lines, vec![err("Command failed: No such file or directory (os error 2)")]);
    assert_eq!(capture(turn).run().spec().command(), "bash");
}

#[test]
fn spawn_error_at_the_last_step_ends_the_program_with_zero() {
    let turn = spin(after_four_good_steps())
        .ended(Err("No such file or directory (os error 2)".to_string()));
    assert_eq!(turn.notice, None);
    assert_eq!(turn.lines, vec![err("Command failed: No such file or directory (os error 2)")]);
    assert_eq!(exit_code(&turn), 0);
}

#[test]
fn output_that_is_no_valid_text_is_reported_with_replacements() {
    let turn = capture(after_two_good_steps()).ended(child(Some(0), &[0x61, 0xff, 0x62], b""));
    assert_eq!(turn.lines, vec![out("Command output:\na\u{FFFD}b")]);
}
