//! Capture mode: the child's output comes back as text.

use vstd::prelude::*;
use std::borrow::Cow;
use vstd::utf8::decode_utf8;
use vstd::utf8::valid_utf8;
use crate::text::texts;
use crate::command::shell_line;
use crate::command::CommandLine;
use crate::command::CommandSpec;
use crate::executor::Fault;
use crate::executor::ProcessReport;
use crate::executor::RunError;

verus! {

/// The text that `String::from_utf8_lossy` makes of `bytes`: the characters
/// that they encode, with a replacement character for each run of bytes that
/// is no valid UTF-8.
pub uninterp spec fn lossy_text(bytes: Seq<u8>) -> Seq<char>;

/// `String::from_utf8_lossy`. Its result is a function of the bytes alone,
/// named `lossy_text`; of bytes that are valid UTF-8 it is their decoding,
/// unchanged, as the function's documentation says. The call fails on no
/// input.
pub assume_specification<'a>[ String::from_utf8_lossy ](bytes: &'a [u8]) -> (text: Cow<'a, str>)
    ensures
        text@ == lossy_text(bytes@),
        valid_utf8(bytes@) ==> text@ == decode_utf8(bytes@),
;

/// Decodes `bytes` to a text of its own, with a replacement character where
/// they are no valid UTF-8.
pub fn decode_lossy(bytes: &[u8]) -> (text: String)
    ensures
        text@ == lossy_text(bytes@),
        valid_utf8(bytes@) ==> text@ == decode_utf8(bytes@),
{
    match String::from_utf8_lossy(bytes) {
        Cow::Borrowed(text) => text.to_owned(),
        Cow::Owned(text) => text,
    }
}

/// What a capturing run yields for each thing that can come back from the
/// launch: the child's standard output as text when it left with code 0, its
/// standard error as the text of an error when it left otherwise, or the
/// spawn error.
pub open spec fn captured(child: Result<ProcessReport, String>) -> Result<Seq<char>, Fault> {
    match child {
        Ok(report) => if report.code == Some(0i32) {
            Ok(lossy_text(report.stdout@))
        } else {
            Err(Fault::NonZeroExit(lossy_text(report.stderr@)))
        },
        Err(text) => Err(Fault::Spawn(text@)),
    }
}

/// A result of a capturing run with its text and its error as sequences of
/// characters.
pub open spec fn text_view(result: Result<String, RunError>) -> Result<Seq<char>, Fault> {
    match result {
        Ok(text) => Ok(text@),
        Err(error) => Err(error@),
    }
}

/// A capturing run that awaits its child: the host launches `spec()` with
/// both output streams captured, waits for the child to end, and hands what
/// came back to `finish`.
pub struct CaptureRun {
    spec: CommandSpec,
}

impl View for CaptureRun {
    type V = CommandLine;

    closed spec fn view(&self) -> CommandLine {
        self.spec@
    }
}

/// Begins the capturing execution of `spec`.
pub fn execute_capturing(spec: CommandSpec) -> (run: CaptureRun)
    ensures
        run@ == spec@,
{
    CaptureRun { spec }
}

impl CaptureRun {
    /// The invocation to launch.
    pub fn spec(&self) -> (spec: &CommandSpec)
        ensures
            spec@ == self@,
    {
        &self.spec
    }

    /// Ends the run with what the launch gave. The exit code itself is not
    /// kept: a child that left with another code than 0 is told from one
    /// that left with 0 only by the error. Output that is valid UTF-8 comes
    /// back as the text that it encodes.
    pub fn finish(self, child: Result<ProcessReport, String>) -> (result: Result<String, RunError>)
        ensures
            text_view(result) == captured(child),
            child matches Ok(report) ==> (report.code == Some(0i32) && valid_utf8(report.stdout@)
                ==> (result matches Ok(text) && text@ == decode_utf8(report.stdout@))),
            child matches Ok(report) ==> (report.code != Some(0i32) && valid_utf8(report.stderr@)
                ==> (result matches Err(RunError::NonZeroExit(text)) && text@ == decode_utf8(
                report.stderr@,
            ))),
    {
        match child {
            Ok(report) => {
                match report.code {
                    Some(0) => Ok(decode_lossy(report.stdout.as_slice())),
                    _ => Err(RunError::NonZeroExit(decode_lossy(report.stderr.as_slice()))),
                }
            },
            Err(text) => Err(RunError::Spawn(text)),
        }
    }
}

/// Begins a capturing run of `command` with `args`.
pub fn run_command_with_output(command: &str, args: &[&str]) -> (run: CaptureRun)
    ensures
        run@.command == command@,
        run@.args == texts(args@),
{
    execute_capturing(CommandSpec::new(command, args))
}

/// Begins a capturing run of an executable found on the search path.
pub fn run_unix_command_with_output(command: &str, args: &[&str]) -> (run: CaptureRun)
    ensures
        run@.command == command@,
        run@.args == texts(args@),
{
    run_command_with_output(command, args)
}

/// Begins a capturing run of `script` through the shell.
pub fn run_bash_script_with_output(script: &str) -> (run: CaptureRun)
    ensures
        run@ == shell_line(script@),
{
    execute_capturing(CommandSpec::shell(script))
}

} // verus!
