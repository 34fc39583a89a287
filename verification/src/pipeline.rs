//! The update pipeline's state machine. Fetching, verifying and launching are
//! performed outside; this module decides, from the current state and the
//! outcome of the step just performed, what may happen next. Launch is only
//! ever enabled by a passed verification.

use crate::verify::VerifyError;
use vstd::prelude::*;

verus! {

/// How a download failed: the transport broke, or the local file could not be
/// written. A failed fetch aborts the whole cycle; there is no retry.
#[derive(Clone, Copy, Debug, PartialEq, Eq, Structural)]
pub enum FetchError {
    Network,
    Io,
}

/// Why the pipeline ended in `Failed`. The distinction exists for
/// diagnostics; every reason equally keeps the binary from being launched.
#[derive(Clone, Copy, Debug, PartialEq, Eq, Structural)]
pub enum FailureReason {
    BinaryFetch(FetchError),
    SignatureFetch(FetchError),
    Verification(VerifyError),
    Launch,
}

/// The pipeline's states. `Done` and `Failed` are terminal; `Launching` is
/// the only state from which the binary may be spawned.
#[derive(Clone, Copy, Debug, PartialEq, Eq, Structural)]
pub enum PipelineState {
    Idle,
    FetchingBinary,
    FetchingSignature,
    Verifying,
    Launching,
    Done,
    Failed(FailureReason),
}

/// The outcome of the step the caller just performed, handed back to the
/// state machine to decide the next state.
#[derive(Clone, Copy, Debug, PartialEq, Eq, Structural)]
pub enum PipelineEvent {
    Started,
    BinaryFetched,
    BinaryFetchFailed(FetchError),
    SignatureFetched,
    SignatureFetchFailed(FetchError),
    VerificationPassed,
    VerificationFailed(VerifyError),
    Launched,
    LaunchFailed,
}

/// The transition relation. Each state advances only on the event that
/// belongs to it and fails directly on that step's failure; an event that
/// does not belong to the state changes nothing, and the terminal states
/// absorb everything.
pub open spec fn spec_step(state: PipelineState, event: PipelineEvent) -> PipelineState {
    match (state, event) {
        (PipelineState::Idle, PipelineEvent::Started) => PipelineState::FetchingBinary,
        (PipelineState::FetchingBinary, PipelineEvent::BinaryFetched) => PipelineState::FetchingSignature,
        (PipelineState::FetchingBinary, PipelineEvent::BinaryFetchFailed(e)) => PipelineState::Failed(
            FailureReason::BinaryFetch(e),
        ),
        (PipelineState::FetchingSignature, PipelineEvent::SignatureFetched) => PipelineState::Verifying,
        (PipelineState::FetchingSignature, PipelineEvent::SignatureFetchFailed(e)) => PipelineState::Failed(
            FailureReason::SignatureFetch(e),
        ),
        (PipelineState::Verifying, PipelineEvent::VerificationPassed) => PipelineState::Launching,
        (PipelineState::Verifying, PipelineEvent::VerificationFailed(e)) => PipelineState::Failed(
            FailureReason::Verification(e),
        ),
        (PipelineState::Launching, PipelineEvent::Launched) => PipelineState::Done,
        (PipelineState::Launching, PipelineEvent::LaunchFailed) => PipelineState::Failed(
            FailureReason::Launch,
        ),
        _ => state,
    }
}

/// A state from which the pipeline moves no further.
pub open spec fn spec_is_terminal(state: PipelineState) -> bool {
    state is Done || state is Failed
}

/// Advances the pipeline by one step.
pub fn step(state: PipelineState, event: PipelineEvent) -> (r: PipelineState)
    ensures
        r == spec_step(state, event),
{
    match (state, event) {
        (PipelineState::Idle, PipelineEvent::Started) => PipelineState::FetchingBinary,
        (PipelineState::FetchingBinary, PipelineEvent::BinaryFetched) => PipelineState::FetchingSignature,
        (PipelineState::FetchingBinary, PipelineEvent::BinaryFetchFailed(e)) => PipelineState::Failed(
            FailureReason::BinaryFetch(e),
        ),
        (PipelineState::FetchingSignature, PipelineEvent::SignatureFetched) => PipelineState::Verifying,
        (PipelineState::FetchingSignature, PipelineEvent::SignatureFetchFailed(e)) => PipelineState::Failed(
            FailureReason::SignatureFetch(e),
        ),
        (PipelineState::Verifying, PipelineEvent::VerificationPassed) => PipelineState::Launching,
        (PipelineState::Verifying, PipelineEvent::VerificationFailed(e)) => PipelineState::Failed(
            FailureReason::Verification(e),
        ),
        (PipelineState::Launching, PipelineEvent::Launched) => PipelineState::Done,
        (PipelineState::Launching, PipelineEvent::LaunchFailed) => PipelineState::Failed(
            FailureReason::Launch,
        ),
        _ => state,
    }
}

/// Whether the pipeline has reached a terminal state.
pub fn is_terminal(state: PipelineState) -> (r: bool)
    ensures
        r == spec_is_terminal(state),
{
    match state {
        PipelineState::Done => true,
        PipelineState::Failed(_) => true,
        _ => false,
    }
}

/// The launch step is reachable only through the `Verifying` state on a
/// passed verification: no event takes any other state into `Launching`.
pub proof fn lemma_no_launch_without_verification(state: PipelineState, event: PipelineEvent)
    ensures
        spec_step(state, event) is Launching && !(state is Launching) ==> state is Verifying
            && event is VerificationPassed,
{
}

/// The terminal states absorb every further event: nothing leaves `Done` or
/// `Failed`. In particular the binary is never launched out of `Failed`.
pub proof fn lemma_terminal_is_absorbing(state: PipelineState, event: PipelineEvent)
    requires
        spec_is_terminal(state),
    ensures
        spec_step(state, event) == state,
{
}

/// What the pipeline hands back once it has finished: the path of the
/// verified binary, or the reason it failed. No partially verified state is
/// ever exposed.
pub enum PipelineResult {
    Verified(String),
    Failure(FailureReason),
}

/// The result a finished pipeline surfaces: `Done` yields the verified
/// binary's path, `Failed` its reason; a pipeline still under way yields
/// nothing.
pub fn outcome(state: PipelineState, verified_path: String) -> (r: Option<PipelineResult>)
    ensures
        state is Done ==> (r matches Some(PipelineResult::Verified(b)) && b@ == verified_path@),
        state matches PipelineState::Failed(reason) ==> (r matches Some(
            PipelineResult::Failure(q),
        ) && q == reason),
        !spec_is_terminal(state) ==> r is None,
    {
    match state {
        PipelineState::Done => Some(PipelineResult::Verified(verified_path)),
        PipelineState::Failed(reason) => Some(PipelineResult::Failure(reason)),
        _ => None,
    }
}

} // verus!
