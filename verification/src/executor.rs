//! What a finished child means: its exit status as an outcome, and the
//! failure to start it as an error of its own.

use vstd::prelude::*;
use crate::command::CommandLine;
use crate::command::CommandSpec;

verus! {

/// How a child that ran to its end left: with exit code 0, or with another.
#[derive(Clone, Copy, Debug, PartialEq, Eq, Structural)]
pub enum CommandResult {
    Success,
    Failure(i32),
}

/// What the operating system hands back for a child that was started and has
/// ended: its exit code, absent when the platform reports none (a child
/// killed by a signal), and all that it wrote to its two output streams.
#[derive(Debug, PartialEq, Eq)]
pub struct ProcessReport {
    pub code: Option<i32>,
    pub stdout: Vec<u8>,
    pub stderr: Vec<u8>,
}

/// Why a run gave its caller no outcome.
#[derive(Debug, PartialEq, Eq)]
pub enum RunError {
    /// The child could not be started; the text is the operating system's.
    Spawn(String),
    /// The spinner's style could not be built; the text is the style engine's.
    Style(String),
    /// The child ended with a code other than 0 while its output was being
    /// captured; the text is what it wrote to its error stream.
    NonZeroExit(String),
}

/// A `RunError` with its text as a sequence of characters.
pub enum Fault {
    Spawn(Seq<char>),
    Style(Seq<char>),
    NonZeroExit(Seq<char>),
}

impl Fault {
    /// The text that the error carries.
    pub open spec fn text(self) -> Seq<char> {
        match self {
            Fault::Spawn(text) => text,
            Fault::Style(text) => text,
            Fault::NonZeroExit(text) => text,
        }
    }
}

impl View for RunError {
    type V = Fault;

    open spec fn view(&self) -> Fault {
        match self {
            RunError::Spawn(text) => Fault::Spawn(text@),
            RunError::Style(text) => Fault::Style(text@),
            RunError::NonZeroExit(text) => Fault::NonZeroExit(text@),
        }
    }
}

impl RunError {
    /// The error's message: the text that it carries, as it stands.
    pub fn message(&self) -> (text: String)
        ensures
            text@ == self@.text(),
    {
        match self {
            RunError::Spawn(text) => text.clone(),
            RunError::Style(text) => text.clone(),
            RunError::NonZeroExit(text) => text.clone(),
        }
    }
}

/// The outcome that an exit code stands for: 0 is success, any other code is
/// a failure with that code, and a missing code is a failure with code 1.
pub open spec fn outcome_of(code: Option<i32>) -> CommandResult {
    match code {
        Some(c) => if c == 0 {
            CommandResult::Success
        } else {
            CommandResult::Failure(c)
        },
        None => CommandResult::Failure(1),
    }
}

/// What an execution yields for each thing that can come back from the
/// launch: the outcome of the child's exit code, or the spawn error.
pub open spec fn executed(child: Result<ProcessReport, String>) -> Result<CommandResult, Fault> {
    match child {
        Ok(report) => Ok(outcome_of(report.code)),
        Err(text) => Err(Fault::Spawn(text@)),
    }
}

/// A result of an execution with its error seen as a `Fault`.
pub open spec fn outcome_view(result: Result<CommandResult, RunError>) -> Result<
    CommandResult,
    Fault,
> {
    match result {
        Ok(outcome) => Ok(outcome),
        Err(error) => Err(error@),
    }
}

/// Reads an exit code as an outcome.
pub fn outcome(code: Option<i32>) -> (result: CommandResult)
    ensures
        result == outcome_of(code),
        result matches CommandResult::Failure(c) ==> c != 0,
{
    match code {
        Some(c) => {
            if c == 0 {
                CommandResult::Success
            } else {
                CommandResult::Failure(c)
            }
        },
        None => CommandResult::Failure(1),
    }
}

/// An execution that awaits its child: the host launches `spec()`, waits for
/// the child to end, and hands what came back to `finish`.
pub struct Execution {
    spec: CommandSpec,
}

impl View for Execution {
    type V = CommandLine;

    closed spec fn view(&self) -> CommandLine {
        self.spec@
    }
}

/// Begins the execution of `spec`.
pub fn execute(spec: CommandSpec) -> (run: Execution)
    ensures
        run@ == spec@,
{
    Execution { spec }
}

impl Execution {
    /// The invocation to launch.
    pub fn spec(&self) -> (spec: &CommandSpec)
        ensures
            spec@ == self@,
    {
        &self.spec
    }

    /// Ends the execution with what the launch gave: a spawn error when the
    /// child could not be started, else the outcome of its exit code.
    pub fn finish(self, child: Result<ProcessReport, String>) -> (result: Result<
        CommandResult,
        RunError,
    >)
        ensures
            outcome_view(result) == executed(child),
    {
        match child {
            Ok(report) => Ok(outcome(report.code)),
            Err(text) => Err(RunError::Spawn(text)),
        }
    }
}

} // verus!
