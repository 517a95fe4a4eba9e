//! How a run ends, and the exit status that stands for it.

use crate::kind::Tool;
use vstd::prelude::*;

verus! {

/// Why a run stopped without generating anything.
#[derive(Clone, Copy, Debug, PartialEq, Eq, Structural)]
pub enum AbortReason {
    /// The kind has no fallback and its generator is not installed.
    MissingDependency,
    /// The generator is not installed and the user declined the fallback.
    Declined,
}

/// The terminal state of a strategy that ran without a hard failure.
#[derive(Clone, Copy, Debug, PartialEq, Eq, Structural)]
pub enum ExecutionOutcome {
    GeneratedViaTool,
    GeneratedViaFallback,
    Aborted(AbortReason),
}

/// A hard failure. It ends the run where it occurs.
#[derive(Debug, PartialEq, Eq)]
pub enum Error {
    /// The invocation is malformed.
    Usage,
    /// The generator was found and spawned, and did not succeed.
    ToolExecution(Tool),
    /// The directory or file at this path could not be created.
    Io(String),
}

pub enum ErrorView {
    Usage,
    ToolExecution(Tool),
    Io(Seq<char>),
}

impl View for Error {
    type V = ErrorView;

    open spec fn view(&self) -> ErrorView {
        match *self {
            Error::Usage => ErrorView::Usage,
            Error::ToolExecution(tool) => ErrorView::ToolExecution(tool),
            Error::Io(path) => ErrorView::Io(path@),
        }
    }
}

/// The view of a run's result.
pub open spec fn verdict_view(verdict: Result<ExecutionOutcome, Error>) -> Result<
    ExecutionOutcome,
    ErrorView,
> {
    match verdict {
        Ok(outcome) => Ok(outcome),
        Err(error) => Err(error@),
    }
}

/// Whether a result counts as a generated project.
pub open spec fn spec_generated(verdict: Result<ExecutionOutcome, ErrorView>) -> bool {
    verdict == Ok::<ExecutionOutcome, ErrorView>(ExecutionOutcome::GeneratedViaTool) || verdict
        == Ok::<ExecutionOutcome, ErrorView>(ExecutionOutcome::GeneratedViaFallback)
}

/// Exit status of the process: zero exactly for a generated project.
pub open spec fn spec_exit_code(verdict: Result<ExecutionOutcome, ErrorView>) -> int {
    if spec_generated(verdict) {
        0
    } else {
        1
    }
}

/// Maps the result of a run to the exit status of the process.
pub fn exit_code(verdict: &Result<ExecutionOutcome, Error>) -> (code: i32)
    ensures
        code == spec_exit_code(verdict_view(*verdict)),
{
    match verdict {
        Ok(ExecutionOutcome::GeneratedViaTool) => 0,
        Ok(ExecutionOutcome::GeneratedViaFallback) => 0,
        _ => 1,
    }
}

} // verus!
