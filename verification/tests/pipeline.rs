use update_loader::pipeline::{
    is_terminal, outcome, step, FailureReason, FetchError, PipelineEvent, PipelineResult,
    PipelineState,
};
use update_loader::verify::VerifyError;

#[test]
fn happy_path_reaches_done_through_verification() {
    let s = step(PipelineState::Idle, PipelineEvent::Started);
    assert_eq!(s, PipelineState::FetchingBinary);
    let s = step(s, PipelineEvent::BinaryFetched);
    assert_eq!(s, PipelineState::FetchingSignature);
    let s = step(s, PipelineEvent::SignatureFetched);
    assert_eq!(s, PipelineState::Verifying);
    let s = step(s, PipelineEvent::VerificationPassed);
    assert_eq!(s, PipelineState::Launching);
    let s = step(s, PipelineEvent::Launched);
    assert_eq!(s, PipelineState::Done);
    assert!(is_terminal(s));
}

#[test]
fn each_failure_goes_straight_to_failed() {
    assert_eq!(
        step(PipelineState::FetchingBinary, PipelineEvent::BinaryFetchFailed(FetchError::Network)),
        PipelineState::Failed(FailureReason::BinaryFetch(FetchError::Network)),
    );
    assert_eq!(
        step(
            PipelineState::FetchingSignature,
            PipelineEvent::SignatureFetchFailed(FetchError::Io),
        ),
        PipelineState::Failed(FailureReason::SignatureFetch(FetchError::Io)),
    );
    assert_eq!(
        step(
            PipelineState::Verifying,
            PipelineEvent::VerificationFailed(VerifyError::UntrustedIssuer),
        ),
        PipelineState::Failed(FailureReason::Verification(VerifyError::UntrustedIssuer)),
    );
    assert_eq!(
        step(PipelineState::Launching, PipelineEvent::LaunchFailed),
        PipelineState::Failed(FailureReason::Launch),
    );
}

#[test]
fn launching_is_only_entered_from_verifying() {
    let events = [
        PipelineEvent::Started,
        PipelineEvent::BinaryFetched,
        PipelineEvent::BinaryFetchFailed(FetchError::Network),
        PipelineEvent::SignatureFetched,
        PipelineEvent::SignatureFetchFailed(FetchError::Io),
        PipelineEvent::VerificationPassed,
        PipelineEvent::VerificationFailed(VerifyError::SignatureInvalid),
        PipelineEvent::Launched,
        PipelineEvent::LaunchFailed,
    ];
    let states = [
        PipelineState::Idle,
        PipelineState::FetchingBinary,
        PipelineState::FetchingSignature,
        PipelineState::Verifying,
        PipelineState::Done,
        PipelineState::Failed(FailureReason::Launch),
        PipelineState::Failed(FailureReason::Verification(VerifyError::MissingSignature)),
    ];
    for state in states {
        for event in events {
            let next = step(state, event);
            if next == PipelineState::Launching {
                assert_eq!(state, PipelineState::Verifying);
                assert_eq!(event, PipelineEvent::VerificationPassed);
            }
        }
    }
}

#[test]
fn terminal_states_absorb_every_event() {
    let terminals = [
        PipelineState::Done,
        PipelineState::Failed(FailureReason::BinaryFetch(FetchError::Network)),
    ];
    let events = [
        PipelineEvent::Started,
        PipelineEvent::BinaryFetched,
        PipelineEvent::SignatureFetched,
        PipelineEvent::VerificationPassed,
        PipelineEvent::Launched,
    ];
    for state in terminals {
        assert!(is_terminal(state));
        for event in events {
            assert_eq!(step(state, event), state);
        }
    }
}

#[test]
fn unexpected_events_change_nothing() {
    assert_eq!(
        step(PipelineState::Idle, PipelineEvent::VerificationPassed),
        PipelineState::Idle,
    );
    assert_eq!(
        step(PipelineState::FetchingBinary, PipelineEvent::Launched),
        PipelineState::FetchingBinary,
    );
    assert_eq!(
        step(PipelineState::Verifying, PipelineEvent::BinaryFetched),
        PipelineState::Verifying,
    );
}

#[test]
fn outcome_is_surfaced_only_in_terminal_states() {
    let path = String::from("latest.exe");
    assert!(matches!(
        outcome(PipelineState::Done, path.clone()),
        Some(PipelineResult::Verified(p)) if p == "latest.exe"
    ));
    assert!(matches!(
        outcome(PipelineState::Failed(FailureReason::Launch), path.clone()),
        Some(PipelineResult::Failure(FailureReason::Launch))
    ));
    assert!(outcome(PipelineState::Verifying, path.clone()).is_none());
    assert!(outcome(PipelineState::Idle, path).is_none());
}
