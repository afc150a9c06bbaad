//! Error taxonomy of the orchestration workflow. Every variant is fatal to
//! the run; absence of an optional credential is deliberately not an error.

use vstd::prelude::*;

verus! {

/// A fatal failure of the orchestration workflow.
///
/// `Decode`: the committed output bytes do not match the fixed schema.
/// `Execution`: the target program trapped or the backend was unreachable.
/// `Proving`: the backend reported a proving failure.
/// `Submission`: an asynchronous prove request was rejected on submission.
/// `Verification`: the proof does not attest the claimed outputs.
/// `Timeout`: an asynchronous wait exceeded its bound.
/// `Consistency`: the decoded outputs disagree with the reference computation.
/// `Io`: persisting the fixture failed.
#[derive(Clone, Copy, Debug, PartialEq, Eq, Structural)]
pub enum RunError {
    Decode,
    Execution,
    Proving,
    Submission,
    Verification,
    Timeout,
    Consistency,
    Io,
}

/// A bad invocation: the mutually exclusive mode flags were violated. It is
/// reported before any work begins, with no partial work attempted.
#[derive(Clone, Copy, Debug, PartialEq, Eq, Structural)]
pub struct UsageError;

} // verus!
