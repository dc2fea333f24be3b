//! Progress mode: a spinner names the command while its child runs, and
//! tells at the end how it went. The spinner changes nothing of the outcome.

use vstd::prelude::*;
use indicatif::ProgressStyle;
use crate::text::texts;
use crate::command::shell_line;
use crate::command::CommandLine;
use crate::command::CommandSpec;
use crate::executor::execute;
use crate::executor::executed;
use crate::executor::outcome_view;
use crate::executor::CommandResult;
use crate::executor::Execution;
use crate::executor::Fault;
use crate::executor::ProcessReport;
use crate::executor::RunError;
use crate::text::decimal;
use crate::text::decimal_string;
use crate::text::join_spaced;
use crate::text::spaced;

verus! {

/// The characters that the spinner cycles through; the last one shows once
/// the run has ended.
pub const TICK_CHARS: &'static str = "/|\\- ";

/// The spinner's line: the spinning character in green, then the message.
pub const SPINNER_TEMPLATE: &'static str = "{spinner:.green} {msg}";

/// The time between two steps of the spinner, in milliseconds.
pub const TICK_MILLIS: u64 = 100;

/// `indicatif::ProgressStyle`: how a spinner looks. The library builds one
/// and hands it on, and reads nothing in it.
#[verifier::external_type_specification]
#[verifier::external_body]
pub struct ExProgressStyle(ProgressStyle);

/// What `ProgressStyle::template` objects to in `template`: the text of its
/// error, or `None` where it accepts the template.
pub uninterp spec fn template_fault(template: Seq<char>) -> Option<Seq<char>>;

/// A character that writes a decimal digit.
pub open spec fn is_digit(c: char) -> bool {
    '0' <= c <= '9'
}

/// The number of decimal digits in `text`.
pub open spec fn digit_count(text: Seq<char>) -> nat {
    text.filter(|c: char| is_digit(c)).len()
}

/// `ProgressStyle::default_spinner`: the style that spinners have before
/// anything is set. Nothing is claimed of it.
pub assume_specification[ ProgressStyle::default_spinner ]() -> ProgressStyle;

/// `ProgressStyle::tick_chars`: the style with its tick characters replaced
/// by those of `s`. It panics on fewer than two characters, which are left
/// out here. Nothing is claimed of the result.
pub assume_specification[ ProgressStyle::tick_chars ](style: ProgressStyle, s: &str) -> ProgressStyle
    requires
        s@.len() >= 2,
;

/// `ProgressStyle::template`, with its error turned into the error's text.
/// Whether the template is accepted, and the text of the error when it is
/// not, depend on the template alone: that is `template_fault`. A width
/// written in the template is parsed as a 16-bit number, and the call panics
/// when it does not fit. A width of up to four digits fits, so templates with
/// more than four digits in all are left out here.
#[verifier::external_body]
fn with_template(style: ProgressStyle, template: &str) -> (built: Result<ProgressStyle, String>)
    requires
        digit_count(template@) <= 4,
    ensures
        built is Ok <==> template_fault(template@) is None,
        built matches Err(text) ==> template_fault(template@) == Some(text@),
{
    match style.template(template) {
        Ok(style) => Ok(style),
        Err(error) => Err(error.to_string()),
    }
}

/// What the style engine's answer means for the run: its style, or the
/// style error with the engine's text.
pub fn style_outcome(built: Result<ProgressStyle, String>) -> (style: Result<
    ProgressStyle,
    RunError,
>)
    ensures
        style == match built {
            Ok(s) => Ok::<ProgressStyle, RunError>(s),
            Err(text) => Err(RunError::Style(text)),
        },
{
    match built {
        Ok(s) => Ok(s),
        Err(text) => Err(RunError::Style(text)),
    }
}

/// Inputs on which the style engine builds a style or reports an error, and
/// does not panic: at least two tick characters, and at most four digits in
/// the template.
pub open spec fn style_inputs_fit(chars: Seq<char>, template: Seq<char>) -> bool {
    chars.len() >= 2 && digit_count(template) <= 4
}

/// A text without a digit has a digit count of zero.
proof fn lemma_count_without_digits(text: Seq<char>)
    requires
        forall|i: int| 0 <= i < text.len() ==> !is_digit(#[trigger] text[i]),
    ensures
        digit_count(text) == 0,
{
    let holds_digit = |c: char| is_digit(c);
    let kept = text.filter(holds_digit);
    if kept.len() > 0 {
        text.lemma_filter_pred(holds_digit, 0);
        text.lemma_filter_contains_rev(holds_digit, kept[0]);
    }
}

/// Builds a spinner style: the default spinner with the tick characters of
/// `chars` and with `template` as its line. The style engine decides whether
/// the template is one: where it objects, the result is the style error with
/// the engine's text.
pub fn build_style(chars: &str, template: &str) -> (style: Result<ProgressStyle, RunError>)
    requires
        style_inputs_fit(chars@, template@),
    ensures
        match template_fault(template@) {
            Some(text) => style matches Err(error) && error@ == Fault::Style(text),
            None => style is Ok,
        },
{
    let style = ProgressStyle::default_spinner().tick_chars(chars);
    style_outcome(with_template(style, template))
}

/// Builds the spinner's own style, from `TICK_CHARS` and `SPINNER_TEMPLATE`.
pub fn spinner_style() -> (style: Result<ProgressStyle, RunError>)
    ensures
        match template_fault(SPINNER_TEMPLATE@) {
            Some(text) => style matches Err(error) && error@ == Fault::Style(text),
            None => style is Ok,
        },
{
    proof {
        reveal_strlit("/|\\- ");
        reveal_strlit("{spinner:.green} {msg}");
        lemma_count_without_digits(SPINNER_TEMPLATE@);
    }
    build_style(TICK_CHARS, SPINNER_TEMPLATE)
}

/// What the caller of a run does once it has ended: go on, or end the whole
/// program with the given exit code.
#[derive(Clone, Copy, Debug, PartialEq, Eq, Structural)]
pub enum Flow {
    Continue,
    Terminate(i32),
}

/// The message that the spinner shows while `line` runs.
pub open spec fn running_message(line: CommandLine) -> Seq<char> {
    "Running command: "@ + line.command + seq![' '] + spaced(line.args)
}

/// The message that the spinner ends on: none where no child ran.
pub open spec fn final_notice(result: Result<CommandResult, Fault>) -> Option<Seq<char>> {
    match result {
        Ok(CommandResult::Success) => Some("Command completed successfully"@),
        Ok(CommandResult::Failure(code)) => Some(
            "Command failed with exit code: "@ + decimal(code as int),
        ),
        Err(_) => None,
    }
}

/// What follows from a result for the caller's program: it ends, with the
/// child's code, exactly when the run exits on failure and the child failed.
pub open spec fn flow_of(exit_on_failure: bool, result: Result<CommandResult, Fault>) -> Flow {
    match result {
        Ok(CommandResult::Failure(code)) => if exit_on_failure {
            Flow::Terminate(code)
        } else {
            Flow::Continue
        },
        _ => Flow::Continue,
    }
}

/// A run under a spinner, as contracts see it.
pub struct ProgressView {
    pub line: CommandLine,
    pub style: ProgressStyle,
    pub message: Seq<char>,
    pub exit_on_failure: bool,
}

/// A run under a spinner that awaits its child. The host shows a spinner
/// with `style()` and `message()` that steps every `tick_millis()`, launches
/// `spec()`, waits for the child to end, and hands what came back to
/// `finish`.
pub struct ProgressRun {
    run: Execution,
    style: ProgressStyle,
    message: String,
    exit_on_failure: bool,
}

impl View for ProgressRun {
    type V = ProgressView;

    closed spec fn view(&self) -> ProgressView {
        ProgressView {
            line: self.run@,
            style: self.style,
            message: self.message@,
            exit_on_failure: self.exit_on_failure,
        }
    }
}

/// How a run under a spinner ended: the spinner's last message, if it gets
/// one, the result for the caller, and what the caller's program does next.
pub struct ProgressEnd {
    pub notice: Option<String>,
    pub result: Result<CommandResult, RunError>,
    pub flow: Flow,
}

/// The text of an optional message.
pub open spec fn notice_view(notice: Option<String>) -> Option<Seq<char>> {
    match notice {
        Some(text) => Some(text@),
        None => None,
    }
}

/// A `ProgressEnd` with its texts as sequences of characters.
pub struct ProgressEndView {
    pub notice: Option<Seq<char>>,
    pub result: Result<CommandResult, Fault>,
    pub flow: Flow,
}

impl View for ProgressEnd {
    type V = ProgressEndView;

    open spec fn view(&self) -> ProgressEndView {
        ProgressEndView {
            notice: notice_view(self.notice),
            result: outcome_view(self.result),
            flow: self.flow,
        }
    }
}

/// How a run under a spinner ends for each thing that can come back from the
/// launch. The result is that of the execution alone.
pub open spec fn finished(
    exit_on_failure: bool,
    child: Result<ProcessReport, String>,
) -> ProgressEndView {
    ProgressEndView {
        notice: final_notice(executed(child)),
        result: executed(child),
        flow: flow_of(exit_on_failure, executed(child)),
    }
}

/// The run that `begin_progress` starts on a style that was built.
pub open spec fn progress_of(
    line: CommandLine,
    style: ProgressStyle,
    exit_on_failure: bool,
) -> ProgressView {
    ProgressView { line, style, message: running_message(line), exit_on_failure }
}

/// Begins a run of `spec` under a spinner with the style that was built for
/// it. Without a style there is no run: the style error is the result, and
/// nothing is to be launched.
pub fn begin_progress(
    spec: CommandSpec,
    style: Result<ProgressStyle, RunError>,
    exit_on_failure: bool,
) -> (begun: Result<ProgressRun, RunError>)
    ensures
        match style {
            Ok(s) => begun matches Ok(run) && run@ == progress_of(spec@, s, exit_on_failure),
            Err(error) => begun matches Err(e) && e == error,
        },
{
    match style {
        Ok(s) => {
            proof {
                reveal_strlit(" ");
            }
            let mut message = "Running command: ".to_owned();
            message.append(spec.command());
            message.append(" ");
            let words = join_spaced(spec.args());
            message.append(words.as_str());
            assert(message@ =~= running_message(spec@));
            Ok(ProgressRun { run: execute(spec), style: s, message, exit_on_failure })
        },
        Err(error) => Err(error),
    }
}

impl ProgressRun {
    /// The invocation to launch.
    pub fn spec(&self) -> (spec: &CommandSpec)
        ensures
            spec@ == self@.line,
    {
        self.run.spec()
    }

    /// The spinner's style.
    pub fn style(&self) -> (style: &ProgressStyle)
        ensures
            *style == self@.style,
    {
        &self.style
    }

    /// The message that the spinner shows while the child runs.
    pub fn message(&self) -> (message: &str)
        ensures
            message@ == self@.message,
    {
        self.message.as_str()
    }

    /// The time between two steps of the spinner, in milliseconds.
    pub fn tick_millis(&self) -> (millis: u64)
        ensures
            millis == TICK_MILLIS,
    {
        TICK_MILLIS
    }

    /// Whether a failing child ends the caller's program.
    pub fn exits_on_failure(&self) -> (exits: bool)
        ensures
            exits == self@.exit_on_failure,
    {
        self.exit_on_failure
    }

    /// Ends the run with what the launch gave. The result is what the
    /// execution alone yields; the spinner gets its last message where a
    /// child ran.
    pub fn finish(self, child: Result<ProcessReport, String>) -> (end: ProgressEnd)
        ensures
            end@ == finished(self@.exit_on_failure, child),
    {
        let exit_on_failure = self.exit_on_failure;
        let result = self.run.finish(child);
        match result {
            Ok(CommandResult::Success) => ProgressEnd {
                notice: Some("Command completed successfully".to_owned()),
                result,
                flow: Flow::Continue,
            },
            Ok(CommandResult::Failure(code)) => {
                let mut notice = "Command failed with exit code: ".to_owned();
                notice.append(decimal_string(code).as_str());
                let flow = if exit_on_failure {
                    Flow::Terminate(code)
                } else {
                    Flow::Continue
                };
                ProgressEnd { notice: Some(notice), result, flow }
            },
            Err(_) => ProgressEnd { notice: None, result, flow: Flow::Continue },
        }
    }
}

/// Begins a run of `command` with `args` under a spinner. A failing child
/// is reported to the caller and ends nothing.
pub fn run_command_with_progress(command: &str, args: &[&str]) -> (begun: Result<
    ProgressRun,
    RunError,
>)
    ensures
        begins(begun, CommandLine { command: command@, args: texts(args@) }, false),
{
    begin_progress(CommandSpec::new(command, args), spinner_style(), false)
}

/// Begins a run under a spinner of an executable found on the search path.
/// A failing child ends the caller's program with the child's exit code.
pub fn run_unix_command_with_progress(command: &str, args: &[&str]) -> (begun: Result<
    ProgressRun,
    RunError,
>)
    ensures
        begins(begun, CommandLine { command: command@, args: texts(args@) }, true),
{
    begin_progress(CommandSpec::new(command, args), spinner_style(), true)
}

/// Begins a run of `script` through the shell, under a spinner. A failing
/// child ends the caller's program with the child's exit code.
pub fn run_bash_script_with_progress(script: &str) -> (begun: Result<ProgressRun, RunError>)
    ensures
        begins(begun, shell_line(script@), true),
{
    begin_progress(CommandSpec::shell(script), spinner_style(), true)
}

/// What beginning a run of `line` under the spinner's own style comes to:
/// the style error, with the engine's text, where the engine objects to the
/// spinner's template, and else the run of `line` with its message.
pub open spec fn begins(
    begun: Result<ProgressRun, RunError>,
    line: CommandLine,
    exit_on_failure: bool,
) -> bool {
    match template_fault(SPINNER_TEMPLATE@) {
        Some(text) => begun matches Err(error) && error@ == Fault::Style(text),
        None => begun matches Ok(run) && run@.line == line && run@.message == running_message(line)
            && run@.exit_on_failure == exit_on_failure,
    }
}

} // verus!
