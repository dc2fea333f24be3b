//! The program: five runs in a fixed order, a line of report after each, and
//! the end of it all when a child under a spinner fails.

use vstd::prelude::*;
use crate::capture::captured;
use crate::capture::run_bash_script_with_output;
use crate::capture::run_unix_command_with_output;
use crate::capture::CaptureRun;
use crate::command::shell_line;
use crate::command::CommandLine;
use crate::executor::executed;
use crate::executor::CommandResult;
use crate::executor::Fault;
use crate::executor::ProcessReport;
use crate::executor::RunError;
use crate::progress::begins;
use crate::progress::finished;
use crate::progress::notice_view;
use crate::progress::run_bash_script_with_progress;
use crate::progress::run_unix_command_with_progress;
use crate::progress::running_message;
use crate::progress::template_fault;
use crate::progress::Flow;
use crate::progress::ProgressRun;
use crate::progress::ProgressView;
use crate::progress::SPINNER_TEMPLATE;

verus! {

/// The number of runs that the program makes.
pub const STEP_COUNT: usize = 5;

/// What a step runs, by which its reports name it.
#[derive(Clone, Copy, Debug, PartialEq, Eq, Structural)]
pub enum Subject {
    Command,
    Script,
}

/// The stream that a line of report goes to.
#[derive(Clone, Copy, Debug, PartialEq, Eq, Structural)]
pub enum Stream {
    Stdout,
    Stderr,
}

/// A line of report: the host writes `text` and a line break to `stream`.
#[derive(Debug, PartialEq, Eq)]
pub struct Line {
    pub stream: Stream,
    pub text: String,
}

/// A `Line` with its text as a sequence of characters.
pub struct LineView {
    pub stream: Stream,
    pub text: Seq<char>,
}

impl View for Line {
    type V = LineView;

    open spec fn view(&self) -> LineView {
        LineView { stream: self.stream, text: self.text@ }
    }
}

/// Each line of `lines` as a `LineView`, in order.
pub open spec fn lines_view(lines: Seq<Line>) -> Seq<LineView> {
    Seq::new(lines.len(), |i: int| lines[i]@)
}

/// What the step with index `step` runs: the second and the fourth step run
/// a script, the others a command.
pub open spec fn step_subject(step: int) -> Subject {
    if step == 1 || step == 3 {
        Subject::Script
    } else {
        Subject::Command
    }
}

/// Whether the step with index `step` captures its child's output: the third
/// and the fourth step do, the others run under a spinner.
pub open spec fn step_captures(step: int) -> bool {
    step == 2 || step == 3
}

/// The invocation of the step with index `step`: `ls -l`, the script
/// `echo Hello, world!`, both once more, and `sleep 10`.
pub open spec fn step_line(step: int) -> CommandLine {
    if step == 1 || step == 3 {
        shell_line("echo Hello, world!"@)
    } else if step == 4 {
        CommandLine { command: "sleep"@, args: seq!["10"@] }
    } else {
        CommandLine { command: "ls"@, args: seq!["-l"@] }
    }
}

/// The report of a step that went well under a spinner.
pub open spec fn completed_line(subject: Subject) -> LineView {
    LineView {
        stream: Stream::Stdout,
        text: match subject {
            Subject::Command => "Command completed"@,
            Subject::Script => "Script executed"@,
        },
    }
}

/// The report of a step that gave an error: the error's text behind the
/// subject's words, on the error stream.
pub open spec fn failed_line(subject: Subject, fault: Fault) -> LineView {
    LineView {
        stream: Stream::Stderr,
        text: match subject {
            Subject::Command => "Command failed: "@,
            Subject::Script => "Script failed: "@,
        } + fault.text(),
    }
}

/// The report of a step that captured its child's output: the output on a
/// line of its own behind the subject's words.
pub open spec fn output_line(subject: Subject, output: Seq<char>) -> LineView {
    LineView {
        stream: Stream::Stdout,
        text: match subject {
            Subject::Command => "Command output:\n"@,
            Subject::Script => "Script output:\n"@,
        } + output,
    }
}

/// The report of a step under a spinner that lets the program go on.
pub open spec fn progress_line(subject: Subject, result: Result<CommandResult, Fault>) -> LineView {
    match result {
        Ok(_) => completed_line(subject),
        Err(fault) => failed_line(subject, fault),
    }
}

/// The report of a capturing step.
pub open spec fn capture_line(subject: Subject, result: Result<Seq<char>, Fault>) -> LineView {
    match result {
        Ok(output) => output_line(subject, output),
        Err(fault) => failed_line(subject, fault),
    }
}

/// How far the program gets without launching a child, and what it reports
/// on the way.
pub struct Advance {
    pub lines: Seq<LineView>,
    pub step: nat,
}

/// How the program advances when it is about to begin the step with index
/// `step`. A step has a child to launch unless it runs under a spinner and
/// the style engine objects to the spinner's template (`fault`): such a step
/// ends in the style error at once, is reported, and the next one begins.
/// The program stops at the first step with a child to launch, or behind the
/// last step.
pub open spec fn advance(step: nat, fault: Option<Seq<char>>) -> Advance
    decreases STEP_COUNT - step,
{
    if step >= STEP_COUNT || step_captures(step as int) {
        Advance { lines: Seq::empty(), step }
    } else {
        match fault {
            None => Advance { lines: Seq::empty(), step },
            Some(text) => {
                let rest = advance(step + 1, fault);
                Advance {
                    lines: seq![failed_line(step_subject(step as int), Fault::Style(text))]
                        + rest.lines,
                    step: rest.step,
                }
            },
        }
    }
}

/// The program advances over steps under a spinner only, and only where the
/// style engine objects: it writes one line of report for each of them, and
/// stops behind the last step or at a step with a child to launch.
pub proof fn lemma_advance_stops_at_a_launch(step: nat, fault: Option<Seq<char>>)
    requires
        step <= STEP_COUNT,
    ensures
        step <= advance(step, fault).step <= STEP_COUNT,
        advance(step, fault).lines.len() == advance(step, fault).step - step,
        fault is None ==> advance(step, fault).step == step,
        advance(step, fault).step < STEP_COUNT ==> fault is None || step_captures(
            advance(step, fault).step as int,
        ),
        forall|k: int|
            0 <= k < advance(step, fault).lines.len() ==> !step_captures(step + k) && (
            #[trigger] advance(step, fault).lines[k]) == failed_line(
                step_subject(step + k),
                Fault::Style(fault->0),
            ),
    decreases STEP_COUNT - step,
{
    if step < STEP_COUNT && !step_captures(step as int) && fault is Some {
        lemma_advance_stops_at_a_launch(step + 1, fault);
    }
}

/// The program while a step runs under a spinner. The host shows the
/// spinner of `run()`, launches its invocation, waits for the child to end,
/// and hands what came back to `ended`.
pub struct Spinning {
    step: usize,
    run: ProgressRun,
}

/// The program while a step runs with its output captured. The host launches
/// the invocation of `run()` with both output streams captured, waits for the
/// child to end, and hands what came back to `ended`.
pub struct Capturing {
    step: usize,
    run: CaptureRun,
}

impl Spinning {
    /// The index of the step that runs.
    pub closed spec fn step(&self) -> nat {
        self.step as nat
    }

    /// The run of the step.
    pub closed spec fn running(&self) -> ProgressView {
        self.run@
    }

    #[verifier::type_invariant]
    spec fn in_plan(&self) -> bool {
        &&& self.step < STEP_COUNT
        &&& !step_captures(self.step as int)
        &&& self.run@.exit_on_failure
    }
}

impl Capturing {
    /// The index of the step that runs.
    pub closed spec fn step(&self) -> nat {
        self.step as nat
    }

    /// The invocation of the step.
    pub closed spec fn running(&self) -> CommandLine {
        self.run@
    }

    #[verifier::type_invariant]
    spec fn in_plan(&self) -> bool {
        self.step < STEP_COUNT && step_captures(self.step as int)
    }
}

/// What the host does next.
pub enum Next {
    /// Carry the step out under its spinner.
    Spin(Spinning),
    /// Carry the step out with its output captured.
    Capture(Capturing),
    /// End the program with this exit code.
    Exit(i32),
}

/// One turn of the program: the last message of the spinner of the step that
/// has just ended, if it gets one; then the lines to write, in order; and
/// then what to do.
pub struct Turn {
    pub notice: Option<String>,
    pub lines: Vec<Line>,
    pub next: Next,
}

/// Whether `next` is what the program does when it rests at `step`: behind
/// the last step it ends with exit code 0; at a step it launches that step's
/// invocation, under a spinner that ends the program when the child fails, or
/// with the output captured.
pub open spec fn next_at(next: Next, step: nat) -> bool {
    if step >= STEP_COUNT {
        next matches Next::Exit(code) && code == 0
    } else if step_captures(step as int) {
        next matches Next::Capture(state) && state.step() == step && state.running() == step_line(
            step as int,
        )
    } else {
        next matches Next::Spin(state) && state.step() == step && state.running().line
            == step_line(step as int) && state.running().message == running_message(
            step_line(step as int),
        ) && state.running().exit_on_failure
    }
}

/// Whether `turn` writes `said` and then goes on from `step` as `advance`
/// describes.
pub open spec fn turn_from(turn: Turn, said: Seq<LineView>, step: nat) -> bool {
    let rest = advance(step, template_fault(SPINNER_TEMPLATE@));
    &&& turn.lines@.len() == said.len() + rest.lines.len()
    &&& lines_view(turn.lines@) == said + rest.lines
    &&& next_at(turn.next, rest.step)
}

/// What the step with index `step` runs.
fn subject_of(step: usize) -> (subject: Subject)
    ensures
        subject == step_subject(step as int),
{
    if step == 1 || step == 3 {
        Subject::Script
    } else {
        Subject::Command
    }
}

/// Whether the step with index `step` captures its child's output.
fn captures(step: usize) -> (yes: bool)
    ensures
        yes == step_captures(step as int),
{
    step == 2 || step == 3
}

/// Begins the step with index `step` under a spinner.
fn begin_spinner(step: usize) -> (begun: Result<ProgressRun, RunError>)
    requires
        step < STEP_COUNT,
        !step_captures(step as int),
    ensures
        begins(begun, step_line(step as int), true),
{
    if step == 0 {
        let args = ["-l"];
        assert(crate::text::texts(args@) =~= seq!["-l"@]);
        run_unix_command_with_progress("ls", args.as_slice())
    } else if step == 1 {
        run_bash_script_with_progress("echo Hello, world!")
    } else {
        let args = ["10"];
        assert(crate::text::texts(args@) =~= seq!["10"@]);
        run_unix_command_with_progress("sleep", args.as_slice())
    }
}

/// Begins the capturing step with index `step`.
fn begin_capture(step: usize) -> (run: CaptureRun)
    requires
        step_captures(step as int),
    ensures
        run@ == step_line(step as int),
{
    if step == 2 {
        let args = ["-l"];
        assert(crate::text::texts(args@) =~= seq!["-l"@]);
        run_unix_command_with_output("ls", args.as_slice())
    } else {
        run_bash_script_with_output("echo Hello, world!")
    }
}

/// Reports a step that went well under a spinner.
fn say_completed(subject: Subject) -> (line: Line)
    ensures
        line@ == completed_line(subject),
{
    let text = match subject {
        Subject::Command => "Command completed".to_owned(),
        Subject::Script => "Script executed".to_owned(),
    };
    Line { stream: Stream::Stdout, text }
}

/// Reports a step that gave an error.
fn say_failed(subject: Subject, error: &RunError) -> (line: Line)
    ensures
        line@ == failed_line(subject, error@),
{
    let mut text = match subject {
        Subject::Command => "Command failed: ".to_owned(),
        Subject::Script => "Script failed: ".to_owned(),
    };
    text.append(error.message().as_str());
    Line { stream: Stream::Stderr, text }
}

/// Reports what a step captured.
fn say_output(subject: Subject, output: &String) -> (line: Line)
    ensures
        line@ == output_line(subject, output@),
{
    let mut text = match subject {
        Subject::Command => "Command output:\n".to_owned(),
        Subject::Script => "Script output:\n".to_owned(),
    };
    text.append(output.as_str());
    Line { stream: Stream::Stdout, text }
}

/// Goes on from `step`, with `notice` for the spinner that has just stopped
/// and the lines of `written` already to be written.
fn advance_from(step: usize, notice: Option<String>, written: Vec<Line>) -> (turn: Turn)
    requires
        step <= STEP_COUNT,
    ensures
        turn.notice == notice,
        turn_from(turn, lines_view(written@), step as nat),
{
    let ghost fault = template_fault(SPINNER_TEMPLATE@);
    let ghost said = lines_view(written@);
    let ghost goal = advance(step as nat, fault);
    let mut lines = written;
    let mut at: usize = step;
    while at < STEP_COUNT
        invariant
            at <= STEP_COUNT,
            fault == template_fault(SPINNER_TEMPLATE@),
            said == lines_view(written@),
            goal == advance(step as nat, fault),
            lines_view(lines@) + advance(at as nat, fault).lines == said + goal.lines,
            advance(at as nat, fault).step == goal.step,
        decreases STEP_COUNT - at,
    {
        if captures(at) {
            let state = Capturing { step: at, run: begin_capture(at) };
            return Turn { notice, lines, next: Next::Capture(state) };
        }
        match begin_spinner(at) {
            Ok(run) => {
                let state = Spinning { step: at, run };
                return Turn { notice, lines, next: Next::Spin(state) };
            },
            Err(error) => {
                let ghost before = lines_view(lines@);
                let line = say_failed(subject_of(at), &error);
                lines.push(line);
                proof {
                    let rest = advance((at + 1) as nat, fault);
                    assert(before + (seq![line@] + rest.lines) =~= (before + seq![line@])
                        + rest.lines);
                }
                at += 1;
            },
        }
    }
    Turn { notice, lines, next: Next::Exit(0) }
}

/// Begins the program.
pub fn start() -> (turn: Turn)
    ensures
        turn.notice is None,
        turn_from(turn, Seq::empty(), 0),
{
    let lines: Vec<Line> = Vec::new();
    advance_from(0, None, lines)
}

impl Spinning {
    /// The run to carry out.
    pub fn run(&self) -> (run: &ProgressRun)
        ensures
            run@ == self.running(),
    {
        &self.run
    }

    /// Goes on after the child of the step has ended, or could not be
    /// started. The spinner gets the last message of the run. A child that
    /// failed ends the program with its exit code: nothing is written and no
    /// later step begins. Else the step is reported and the program goes on
    /// with the next one.
    pub fn ended(self, child: Result<ProcessReport, String>) -> (turn: Turn)
        ensures
            notice_view(turn.notice) == finished(true, child).notice,
            match executed(child) {
                Ok(CommandResult::Failure(code)) => turn.lines@.len() == 0 && (
                turn.next matches Next::Exit(c) && c == code),
                result => turn_from(
                    turn,
                    seq![progress_line(step_subject(self.step() as int), result)],
                    self.step() + 1,
                ),
            },
    {
        proof {
            use_type_invariant(&self);
        }
        let subject = subject_of(self.step);
        let next_step: usize = self.step + 1;
        let end = self.run.finish(child);
        let mut lines: Vec<Line> = Vec::new();
        match end.flow {
            Flow::Terminate(code) => Turn { notice: end.notice, lines, next: Next::Exit(code) },
            Flow::Continue => {
                let line = match &end.result {
                    Ok(_) => say_completed(subject),
                    Err(error) => say_failed(subject, error),
                };
                lines.push(line);
                assert(lines_view(lines@) =~= seq![progress_line(subject, executed(child))]);
                advance_from(next_step, end.notice, lines)
            },
        }
    }
}

impl Capturing {
    /// The run to carry out.
    pub fn run(&self) -> (run: &CaptureRun)
        ensures
            run@ == self.running(),
    {
        &self.run
    }

    /// Goes on after the child of the step has ended, or could not be
    /// started: the output or the error is reported, and the program goes on
    /// with the next step either way.
    pub fn ended(self, child: Result<ProcessReport, String>) -> (turn: Turn)
        ensures
            turn.notice is None,
            turn_from(
                turn,
                seq![capture_line(step_subject(self.step() as int), captured(child))],
                self.step() + 1,
            ),
    {
        proof {
            use_type_invariant(&self);
        }
        let subject = subject_of(self.step);
        let next_step: usize = self.step + 1;
        let result = self.run.finish(child);
        let line = match &result {
            Ok(output) => say_output(subject, output),
            Err(error) => say_failed(subject, error),
        };
        let mut lines: Vec<Line> = Vec::new();
        lines.push(line);
        assert(lines_view(lines@) =~= seq![capture_line(subject, captured(child))]);
        advance_from(next_step, None, lines)
    }
}

} // verus!
