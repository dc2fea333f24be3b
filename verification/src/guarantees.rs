//! What holds of every run, whatever the child does.

use vstd::prelude::*;
use crate::capture::captured;
use crate::capture::lossy_text;
use crate::executor::executed;
use crate::executor::CommandResult;
use crate::executor::Fault;
use crate::executor::ProcessReport;
use crate::progress::finished;
use crate::progress::Flow;

verus! {

/// A child that leaves with exit code 0 is a success to the execution, and
/// the capturing run yields its standard output, decoded, and nothing else.
pub proof fn lemma_zero_exit_succeeds(report: ProcessReport)
    requires
        report.code == Some(0i32),
    ensures
        executed(Ok(report)) == Ok::<CommandResult, Fault>(CommandResult::Success),
        captured(Ok(report)) == Ok::<Seq<char>, Fault>(lossy_text(report.stdout@)),
{
}

/// A child that leaves with another exit code than 0 is a failure with that
/// code to the execution, and the capturing run yields an error that carries
/// its standard error, decoded, and not the code. Under a spinner the child
/// ends the program with its code where the run exits on failure, and only
/// there.
pub proof fn lemma_nonzero_exit_fails(report: ProcessReport, code: i32)
    requires
        report.code == Some(code),
        code != 0,
    ensures
        executed(Ok(report)) == Ok::<CommandResult, Fault>(CommandResult::Failure(code)),
        captured(Ok(report)) == Err::<Seq<char>, Fault>(
            Fault::NonZeroExit(lossy_text(report.stderr@)),
        ),
        finished(true, Ok(report)).flow == Flow::Terminate(code),
        finished(false, Ok(report)).flow == Flow::Continue,
{
}

/// A child whose exit code the platform cannot report is a failure with code
/// 1 to the execution, and an error to the capturing run.
pub proof fn lemma_missing_code_fails(report: ProcessReport)
    requires
        report.code is None,
    ensures
        executed(Ok(report)) == Ok::<CommandResult, Fault>(CommandResult::Failure(1)),
        captured(Ok(report)) == Err::<Seq<char>, Fault>(
            Fault::NonZeroExit(lossy_text(report.stderr@)),
        ),
{
}

/// A failure of an execution never carries the code 0.
pub proof fn lemma_failure_code_is_nonzero(child: Result<ProcessReport, String>)
    ensures
        executed(child) matches Ok(CommandResult::Failure(code)) ==> code != 0,
{
}

/// A child that could not be started is a spawn error in every mode, with
/// the operating system's text: never an outcome, never captured output, and
/// no reason to end the program.
pub proof fn lemma_spawn_error_is_no_outcome(text: String, exit_on_failure: bool)
    ensures
        executed(Err(text)) == Err::<CommandResult, Fault>(Fault::Spawn(text@)),
        captured(Err(text)) == Err::<Seq<char>, Fault>(Fault::Spawn(text@)),
        finished(exit_on_failure, Err(text)).result == Err::<CommandResult, Fault>(
            Fault::Spawn(text@),
        ),
        finished(exit_on_failure, Err(text)).notice is None,
        finished(exit_on_failure, Err(text)).flow == Flow::Continue,
{
}

/// The spinner changes nothing: a run under a spinner yields what the
/// execution alone yields for the same child.
pub proof fn lemma_progress_keeps_outcome(exit_on_failure: bool, child: Result<ProcessReport, String>)
    ensures
        finished(exit_on_failure, child).result == executed(child),
{
}

/// A run that exits on failure ends the program exactly when its child
/// failed, and then with the child's exit code; a run that does not never
/// ends it.
pub proof fn lemma_failure_ends_program(exit_on_failure: bool, child: Result<ProcessReport, String>)
    ensures
        finished(exit_on_failure, child).flow == match executed(child) {
            Ok(CommandResult::Failure(code)) if exit_on_failure => Flow::Terminate(code),
            _ => Flow::Continue,
        },
        finished(exit_on_failure, child).flow matches Flow::Terminate(code) ==> code != 0,
{
}

} // verus!
