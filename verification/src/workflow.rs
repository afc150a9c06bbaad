//! The three orchestration paths over a proving backend. The backend's own
//! work (running the program, producing and checking proofs) happens outside
//! this crate; each path is driven here as a machine from state and reported
//! event to the next state, so every run order the driver can produce is
//! covered by the contracts, whatever the backend reports.

use vstd::prelude::*;

use crate::codec::spec_decode;
use crate::codec::decode_public_values;
use crate::codec::PublicOutput;
use crate::errors::RunError;
use crate::fib::fib_pair;
use crate::fib::fibonacci;
use crate::hexstr::spec_hex;
use crate::hexstr::to_hex;

verus! {

/// A completed proof: the opaque proof bytes and the public output bytes
/// that were committed during proving.
#[derive(Clone, Debug, PartialEq, Eq)]
pub struct ProofArtifact {
    pub proof_bytes: Vec<u8>,
    pub public_values: Vec<u8>,
}

/// The opaque token returned by an asynchronous submission, used exactly
/// once to wait for the corresponding artifact.
#[derive(Clone, Debug, PartialEq, Eq)]
pub struct RequestId {
    pub bytes: Vec<u8>,
}

/// What the backend reported for an execute request: the committed output
/// bytes and a total instruction count, or a trap.
#[derive(Clone, Debug, PartialEq, Eq)]
pub enum ExecutionOutcome {
    Completed { output: Vec<u8>, cycles: u64 },
    Trapped,
}

/// A checked execution: the decoded outputs, already found consistent with
/// the reference computation, and the resource usage to report.
#[derive(Clone, Copy, Debug, PartialEq, Eq, Structural)]
pub struct ExecutionReport {
    pub output: PublicOutput,
    pub cycles: u64,
}

/// Concludes the execution path. A trap is an execution error; output bytes
/// off the schema are a decode error; decoded values that disagree with the
/// independently recomputed Fibonacci pair are a consistency error, distinct
/// from both, and never downgraded; otherwise the checked report is
/// returned.
pub fn conclude_execution(outcome: ExecutionOutcome) -> (r: Result<ExecutionReport, RunError>)
    ensures
        match outcome {
            ExecutionOutcome::Trapped => r == Err::<ExecutionReport, RunError>(
                RunError::Execution,
            ),
            ExecutionOutcome::Completed { output, cycles } => match spec_decode(output@) {
                None => r == Err::<ExecutionReport, RunError>(RunError::Decode),
                Some(o) => if (o.a, o.b) == fib_pair(o.n as nat) {
                    r == Ok::<ExecutionReport, RunError>(ExecutionReport { output: o, cycles })
                } else {
                    r == Err::<ExecutionReport, RunError>(RunError::Consistency)
                },
            },
        },
        r matches Ok(rep) ==> (rep.output.a, rep.output.b) == fib_pair(rep.output.n as nat),
{
    match outcome {
        ExecutionOutcome::Trapped => Err(RunError::Execution),
        ExecutionOutcome::Completed { output, cycles } => {
            let decoded = match decode_public_values(&output) {
                Ok(o) => o,
                Err(e) => {
                    return Err(e);
                },
            };
            let (expected_a, expected_b) = fibonacci(decoded.n);
            if decoded.a == expected_a && decoded.b == expected_b {
                Ok(ExecutionReport { output: decoded, cycles })
            } else {
                Err(RunError::Consistency)
            }
        },
    }
}

/// Phase of a synchronous proving run: setup, then a blocking prove, then
/// verification of the artifact, which is never skipped.
#[derive(Clone, Debug, PartialEq, Eq)]
pub enum SyncPhase {
    SettingUp,
    Proving,
    Verifying(ProofArtifact),
    Complete(ProofArtifact),
    Aborted(RunError),
}

/// What the backend reported during a synchronous proving run.
#[derive(Clone, Debug, PartialEq, Eq)]
pub enum SyncEvent {
    KeysReady,
    ProofProduced(ProofArtifact),
    ProveFailed,
    ProofAccepted,
    ProofRejected,
}

/// The next phase of a synchronous run: setup completion starts proving, a
/// produced proof moves to verification, acceptance completes with that same
/// artifact, and a prove or verification failure aborts. An event that does
/// not belong to the current phase changes nothing.
pub open spec fn sync_step_spec(p: SyncPhase, e: SyncEvent) -> SyncPhase {
    match (p, e) {
        (SyncPhase::SettingUp, SyncEvent::KeysReady) => SyncPhase::Proving,
        (SyncPhase::Proving, SyncEvent::ProofProduced(a)) => SyncPhase::Verifying(a),
        (SyncPhase::Proving, SyncEvent::ProveFailed) => SyncPhase::Aborted(RunError::Proving),
        (SyncPhase::Verifying(a), SyncEvent::ProofAccepted) => SyncPhase::Complete(a),
        (SyncPhase::Verifying(_), SyncEvent::ProofRejected) => SyncPhase::Aborted(
            RunError::Verification,
        ),
        (other, _) => other,
    }
}

/// Advances a synchronous proving run by one reported event.
pub fn sync_step(p: SyncPhase, e: SyncEvent) -> (r: SyncPhase)
    ensures
        r == sync_step_spec(p, e),
{
    match (p, e) {
        (SyncPhase::SettingUp, SyncEvent::KeysReady) => SyncPhase::Proving,
        (SyncPhase::Proving, SyncEvent::ProofProduced(a)) => SyncPhase::Verifying(a),
        (SyncPhase::Proving, SyncEvent::ProveFailed) => SyncPhase::Aborted(RunError::Proving),
        (SyncPhase::Verifying(a), SyncEvent::ProofAccepted) => SyncPhase::Complete(a),
        (SyncPhase::Verifying(_), SyncEvent::ProofRejected) => SyncPhase::Aborted(
            RunError::Verification,
        ),
        (other, _) => other,
    }
}

/// The phase a synchronous run reaches from setup after a sequence of
/// reported events.
pub open spec fn sync_run(events: Seq<SyncEvent>) -> SyncPhase
    decreases events.len(),
{
    if events.len() == 0 {
        SyncPhase::SettingUp
    } else {
        sync_step_spec(sync_run(events.drop_last()), events.last())
    }
}

/// A synchronous run whose backend completes setup, produces a proof and
/// accepts it ends complete, carrying exactly the artifact that was
/// produced.
pub proof fn lemma_sync_happy_path(a: ProofArtifact)
    ensures
        sync_run(
            seq![SyncEvent::KeysReady, SyncEvent::ProofProduced(a), SyncEvent::ProofAccepted],
        ) == SyncPhase::Complete(a),
{
    reveal_with_fuel(sync_run, 4);
    let e = seq![SyncEvent::KeysReady, SyncEvent::ProofProduced(a), SyncEvent::ProofAccepted];
    assert(e.drop_last().drop_last().drop_last() =~= Seq::<SyncEvent>::empty());
    assert(e.drop_last().drop_last().last() == SyncEvent::KeysReady);
    assert(e.drop_last().last() == SyncEvent::ProofProduced(a));
    assert(e.last() == SyncEvent::ProofAccepted);
}

/// Verification never begins before a proof artifact is fully received: a
/// run can only be verifying or complete with an artifact its backend
/// earlier reported as produced.
pub proof fn lemma_sync_verifies_only_produced_proofs(events: Seq<SyncEvent>, a: ProofArtifact)
    requires
        sync_run(events) == SyncPhase::Verifying(a) || sync_run(events) == SyncPhase::Complete(a),
    ensures
        exists|i: int| 0 <= i < events.len() && events[i] == SyncEvent::ProofProduced(a),
    decreases events.len(),
{
    let pre = events.drop_last();
    let prev = sync_run(pre);
    if prev == SyncPhase::Verifying(a) || prev == SyncPhase::Complete(a) {
        lemma_sync_verifies_only_produced_proofs(pre, a);
        let i = choose|i: int| 0 <= i < pre.len() && pre[i] == SyncEvent::ProofProduced(a);
        assert(events[i] == SyncEvent::ProofProduced(a));
    } else {
        assert(events.last() == SyncEvent::ProofProduced(a));
        assert(events[events.len() - 1] == SyncEvent::ProofProduced(a));
    }
}

/// Verification is never skipped: a synchronous run completes only by the
/// backend accepting the artifact out of the verifying phase.
pub proof fn lemma_sync_completion_requires_acceptance(events: Seq<SyncEvent>, a: ProofArtifact)
    requires
        sync_run(events) == SyncPhase::Complete(a),
    ensures
        exists|i: int|
            0 <= i < events.len() && events[i] == SyncEvent::ProofAccepted && sync_run(
                events.take(i),
            ) == SyncPhase::Verifying(a),
    decreases events.len(),
{
    let pre = events.drop_last();
    let prev = sync_run(pre);
    if prev == SyncPhase::Complete(a) {
        lemma_sync_completion_requires_acceptance(pre, a);
        let i = choose|i: int|
            0 <= i < pre.len() && pre[i] == SyncEvent::ProofAccepted && sync_run(pre.take(i))
                == SyncPhase::Verifying(a);
        assert(events[i] == SyncEvent::ProofAccepted);
        assert(events.take(i) =~= pre.take(i));
    } else {
        let i = events.len() - 1;
        assert(events[i] == SyncEvent::ProofAccepted);
        assert(events.take(i) =~= pre);
    }
}

/// State of an asynchronous proving run: idle until submission, then
/// tracking the request until the backend delivers the artifact or the run
/// fails.
#[derive(Clone, Debug, PartialEq, Eq)]
pub enum AsyncPhase {
    Idle,
    Submitted(RequestId),
    Completed(ProofArtifact),
    Failed(RunError),
}

/// What the backend reported during an asynchronous proving run.
#[derive(Clone, Debug, PartialEq, Eq)]
pub enum AsyncEvent {
    Accepted(RequestId),
    Rejected,
    Delivered(ProofArtifact),
    TimedOut,
    ProvingFailed,
}

/// The next state of an asynchronous run: an accepted submission records its
/// request identifier, a rejected one is a submission error; a tracked
/// request completes with the delivered artifact, or fails on a timeout or
/// a backend-reported proving failure. An event that does not belong to the
/// current state changes nothing.
pub open spec fn async_step_spec(p: AsyncPhase, e: AsyncEvent) -> AsyncPhase {
    match (p, e) {
        (AsyncPhase::Idle, AsyncEvent::Accepted(id)) => AsyncPhase::Submitted(id),
        (AsyncPhase::Idle, AsyncEvent::Rejected) => AsyncPhase::Failed(RunError::Submission),
        (AsyncPhase::Submitted(_), AsyncEvent::Delivered(a)) => AsyncPhase::Completed(a),
        (AsyncPhase::Submitted(_), AsyncEvent::TimedOut) => AsyncPhase::Failed(RunError::Timeout),
        (AsyncPhase::Submitted(_), AsyncEvent::ProvingFailed) => AsyncPhase::Failed(
            RunError::Proving,
        ),
        (other, _) => other,
    }
}

/// Advances an asynchronous proving run by one reported event.
pub fn async_step(p: AsyncPhase, e: AsyncEvent) -> (r: AsyncPhase)
    ensures
        r == async_step_spec(p, e),
{
    match (p, e) {
        (AsyncPhase::Idle, AsyncEvent::Accepted(id)) => AsyncPhase::Submitted(id),
        (AsyncPhase::Idle, AsyncEvent::Rejected) => AsyncPhase::Failed(RunError::Submission),
        (AsyncPhase::Submitted(_), AsyncEvent::Delivered(a)) => AsyncPhase::Completed(a),
        (AsyncPhase::Submitted(_), AsyncEvent::TimedOut) => AsyncPhase::Failed(RunError::Timeout),
        (AsyncPhase::Submitted(_), AsyncEvent::ProvingFailed) => AsyncPhase::Failed(
            RunError::Proving,
        ),
        (other, _) => other,
    }
}

/// The state an asynchronous run reaches from idle after a sequence of
/// reported events.
pub open spec fn async_run(events: Seq<AsyncEvent>) -> AsyncPhase
    decreases events.len(),
{
    if events.len() == 0 {
        AsyncPhase::Idle
    } else {
        async_step_spec(async_run(events.drop_last()), events.last())
    }
}

/// An asynchronous run whose submission is accepted and whose backend then
/// delivers an artifact completes with exactly that artifact.
pub proof fn lemma_async_happy_path(id: RequestId, a: ProofArtifact)
    ensures
        async_run(seq![AsyncEvent::Accepted(id), AsyncEvent::Delivered(a)])
            == AsyncPhase::Completed(a),
{
    reveal_with_fuel(async_run, 3);
    let e = seq![AsyncEvent::Accepted(id), AsyncEvent::Delivered(a)];
    assert(e.drop_last().drop_last() =~= Seq::<AsyncEvent>::empty());
    assert(e.drop_last().last() == AsyncEvent::Accepted(id));
    assert(e.last() == AsyncEvent::Delivered(a));
}

/// A wait that times out before the backend delivers fails with a timeout
/// error and nothing else.
pub proof fn lemma_async_timeout(id: RequestId)
    ensures
        async_run(seq![AsyncEvent::Accepted(id), AsyncEvent::TimedOut]) == AsyncPhase::Failed(
            RunError::Timeout,
        ),
{
    reveal_with_fuel(async_run, 3);
    let e = seq![AsyncEvent::Accepted(id), AsyncEvent::TimedOut];
    assert(e.drop_last().drop_last() =~= Seq::<AsyncEvent>::empty());
    assert(e.drop_last().last() == AsyncEvent::Accepted(id));
    assert(e.last() == AsyncEvent::TimedOut);
}

/// A run is tracking a request only after its submission was accepted with
/// exactly that request identifier.
pub proof fn lemma_async_tracked_was_accepted(events: Seq<AsyncEvent>, id: RequestId)
    requires
        async_run(events) == AsyncPhase::Submitted(id),
    ensures
        exists|j: int| 0 <= j < events.len() && events[j] == AsyncEvent::Accepted(id),
    decreases events.len(),
{
    let pre = events.drop_last();
    let prev = async_run(pre);
    if prev == AsyncPhase::Submitted(id) {
        lemma_async_tracked_was_accepted(pre, id);
        let j = choose|j: int| 0 <= j < pre.len() && pre[j] == AsyncEvent::Accepted(id);
        assert(events[j] == AsyncEvent::Accepted(id));
    } else {
        assert(events[events.len() - 1] == AsyncEvent::Accepted(id));
    }
}

/// A completed asynchronous run holds an artifact the backend delivered,
/// and the delivery came strictly after an accepted submission.
pub proof fn lemma_async_completion_order(events: Seq<AsyncEvent>, a: ProofArtifact)
    requires
        async_run(events) == AsyncPhase::Completed(a),
    ensures
        exists|i: int, j: int|
            #![trigger events[i], events[j]]
            0 <= j < i < events.len() && events[i] == AsyncEvent::Delivered(a) && (events[j]
                matches AsyncEvent::Accepted(_)),
    decreases events.len(),
{
    let pre = events.drop_last();
    let prev = async_run(pre);
    if prev == AsyncPhase::Completed(a) {
        lemma_async_completion_order(pre, a);
        let (i, j) = choose|i: int, j: int|
            #![trigger pre[i], pre[j]]
            0 <= j < i < pre.len() && pre[i] == AsyncEvent::Delivered(a) && (pre[j]
                matches AsyncEvent::Accepted(_));
        assert(events[i] == AsyncEvent::Delivered(a) && (events[j]
            matches AsyncEvent::Accepted(_)));
        assert(0 <= j < i < events.len());
    } else {
        assert(prev matches AsyncPhase::Submitted(_));
        let id = prev->Submitted_0;
        assert(prev == AsyncPhase::Submitted(id));
        lemma_async_tracked_was_accepted(pre, id);
        let j = choose|j: int| 0 <= j < pre.len() && pre[j] == AsyncEvent::Accepted(id);
        let i = events.len() - 1;
        assert(events[i] == AsyncEvent::Delivered(a));
        assert(events[j] matches AsyncEvent::Accepted(_));
        assert(0 <= j < i < events.len());
    }
}

/// The display rendering of a request identifier surfaced to the operator:
/// the lowercase hex of its bytes.
pub fn request_id_display(id: &RequestId) -> (r: String)
    ensures
        r@ == spec_hex(id.bytes@),
{
    to_hex(&id.bytes)
}

} // verus!
