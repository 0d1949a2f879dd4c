use acme_provision::errors::ProvisionError;
use acme_provision::status::{ChallengeStatus, OrderStatus};
use acme_provision::workflow::{RunAction, RunEvent, RunState, Workflow};

fn successful_run_events() -> Vec<RunEvent> {
    vec![
        RunEvent::ResponderStarted,
        RunEvent::AccountRegistered,
        RunEvent::OrderCreated,
        RunEvent::AuthorizationsFetched,
        RunEvent::ChallengePolled(ChallengeStatus::Processing),
        RunEvent::ChallengePolled(ChallengeStatus::Valid),
        RunEvent::ValidationsConfirmed,
        RunEvent::FinalizeSubmitted,
        RunEvent::FinalizePolled(OrderStatus::Valid),
        RunEvent::CertDownloaded,
        RunEvent::CleanupDone,
    ]
}

#[test]
fn full_issue_run_ends_done_and_cleaned() {
    // One domain, one authorization whose challenge becomes Valid after two
    // polls, finalization Valid after one poll, certificate downloaded.
    let mut w = Workflow::new(5, 5);
    let events = successful_run_events();
    w.drive(&events);
    assert_eq!(w.state, RunState::Done);
    assert!(w.succeeded());
    assert!(w.halted());
    assert!(!w.dir_exists);
    assert!(!w.listener_bound);
    assert_eq!(w.reported_error(), None);
}

#[test]
fn full_issue_run_intermediate_states() {
    let mut w = Workflow::new(5, 5);
    w.step(RunEvent::ResponderStarted);
    assert_eq!(w.state, RunState::ChallengeServerUp);
    assert!(w.dir_exists);
    assert!(w.listener_bound);
    w.step(RunEvent::AccountRegistered);
    assert_eq!(w.state, RunState::AccountReady);
    w.step(RunEvent::OrderCreated);
    assert_eq!(w.state, RunState::OrderOpen);
    w.step(RunEvent::AuthorizationsFetched);
    assert_eq!(w.state, RunState::AuthorizationsPending { retries_left: 5 });
    assert_eq!(w.next_action(), RunAction::AnswerChallenges);
    w.step(RunEvent::ChallengePolled(ChallengeStatus::Processing));
    assert_eq!(w.state, RunState::AuthorizationsPending { retries_left: 4 });
    w.step(RunEvent::ChallengePolled(ChallengeStatus::Valid));
    assert_eq!(w.state, RunState::AuthorizationsPending { retries_left: 4 });
    w.step(RunEvent::ValidationsConfirmed);
    assert_eq!(w.state, RunState::AuthorizationsValid);
    assert_eq!(w.next_action(), RunAction::SubmitFinalize);
    w.step(RunEvent::FinalizeSubmitted);
    assert_eq!(w.state, RunState::Finalizing { retries_left: 5 });
    w.step(RunEvent::FinalizePolled(OrderStatus::Valid));
    assert_eq!(w.state, RunState::CertIssued);
    w.step(RunEvent::CertDownloaded);
    assert_eq!(w.state, RunState::Cleanup { failure: None });
    assert_eq!(w.next_action(), RunAction::RunCleanup);
    w.step(RunEvent::CleanupDone);
    assert_eq!(w.state, RunState::Done);
    assert_eq!(w.next_action(), RunAction::Halt);
}

#[test]
fn stuck_in_processing_times_out_and_cleans_up() {
    // The challenge status never leaves Processing within the retry
    // budget: the run fails with AuthorizationTimeout, and the directory
    // and listener are still released.
    let mut w = Workflow::new(3, 5);
    w.drive(&vec![
        RunEvent::ResponderStarted,
        RunEvent::AccountRegistered,
        RunEvent::OrderCreated,
        RunEvent::AuthorizationsFetched,
    ]);
    for _ in 0..3 {
        w.step(RunEvent::ChallengePolled(ChallengeStatus::Processing));
        assert!(matches!(w.state, RunState::AuthorizationsPending { .. }));
    }
    w.step(RunEvent::ChallengePolled(ChallengeStatus::Processing));
    assert_eq!(
        w.state,
        RunState::Cleanup {
            failure: Some(ProvisionError::AuthorizationTimeout)
        }
    );
    assert_eq!(w.next_action(), RunAction::RunCleanup);
    w.step(RunEvent::CleanupDone);
    assert_eq!(
        w.state,
        RunState::Failed {
            error: ProvisionError::AuthorizationTimeout
        }
    );
    assert_eq!(w.reported_error(), Some(ProvisionError::AuthorizationTimeout));
    assert!(!w.dir_exists);
    assert!(!w.listener_bound);
}

#[test]
fn invalid_challenge_fails_and_never_finalizes() {
    let mut w = Workflow::new(5, 5);
    w.drive(&vec![
        RunEvent::ResponderStarted,
        RunEvent::AccountRegistered,
        RunEvent::OrderCreated,
        RunEvent::AuthorizationsFetched,
    ]);
    w.step(RunEvent::ChallengePolled(ChallengeStatus::Invalid));
    assert_eq!(
        w.state,
        RunState::Cleanup {
            failure: Some(ProvisionError::ChallengeRejected)
        }
    );
    // Even seeing later protocol events, the run never asks to finalize
    // and keeps reporting the rejection.
    let stray = vec![
        RunEvent::ValidationsConfirmed,
        RunEvent::FinalizeSubmitted,
        RunEvent::FinalizePolled(OrderStatus::Valid),
    ];
    for e in stray {
        assert_ne!(w.next_action(), RunAction::SubmitFinalize);
        w.step(e);
    }
    assert_ne!(w.next_action(), RunAction::SubmitFinalize);
    w.step(RunEvent::CleanupDone);
    assert_eq!(
        w.state,
        RunState::Failed {
            error: ProvisionError::ChallengeRejected
        }
    );
    assert_ne!(w.next_action(), RunAction::SubmitFinalize);
}

#[test]
fn responder_bind_failure_aborts_before_authority_contact() {
    let mut w = Workflow::new(5, 5);
    w.step(RunEvent::ResponderFailed);
    assert_eq!(
        w.state,
        RunState::Cleanup {
            failure: Some(ProvisionError::ListenerBindFailed)
        }
    );
    w.step(RunEvent::CleanupDone);
    assert_eq!(
        w.reported_error(),
        Some(ProvisionError::ListenerBindFailed)
    );
}

#[test]
fn directory_failure_is_fatal() {
    let mut w = Workflow::new(5, 5);
    w.drive(&vec![
        RunEvent::ResponderStarted,
        RunEvent::DirectoryFailed,
        RunEvent::CleanupDone,
    ]);
    assert_eq!(
        w.state,
        RunState::Failed {
            error: ProvisionError::DirectoryUnreachable
        }
    );
    assert!(!w.dir_exists);
    assert!(!w.listener_bound);
}

#[test]
fn account_failure_is_fatal() {
    let mut w = Workflow::new(5, 5);
    w.drive(&vec![
        RunEvent::ResponderStarted,
        RunEvent::AccountFailed,
        RunEvent::CleanupDone,
    ]);
    assert_eq!(
        w.reported_error(),
        Some(ProvisionError::AccountRegistrationFailed)
    );
}

#[test]
fn missing_http_challenge_is_fatal() {
    let mut w = Workflow::new(5, 5);
    w.drive(&vec![
        RunEvent::ResponderStarted,
        RunEvent::AccountRegistered,
        RunEvent::OrderCreated,
        RunEvent::AuthorizationsFetched,
        RunEvent::ChallengeMissing,
        RunEvent::CleanupDone,
    ]);
    assert_eq!(w.reported_error(), Some(ProvisionError::NoHttpChallenge));
}

#[test]
fn finalize_budget_exhaustion_times_out() {
    let mut w = Workflow::new(5, 1);
    w.drive(&vec![
        RunEvent::ResponderStarted,
        RunEvent::AccountRegistered,
        RunEvent::OrderCreated,
        RunEvent::AuthorizationsFetched,
        RunEvent::ChallengePolled(ChallengeStatus::Valid),
        RunEvent::ValidationsConfirmed,
        RunEvent::FinalizeSubmitted,
    ]);
    w.step(RunEvent::FinalizePolled(OrderStatus::Processing));
    assert_eq!(w.state, RunState::Finalizing { retries_left: 0 });
    w.step(RunEvent::FinalizePolled(OrderStatus::Processing));
    assert_eq!(
        w.state,
        RunState::Cleanup {
            failure: Some(ProvisionError::FinalizationTimeout)
        }
    );
    w.step(RunEvent::CleanupDone);
    assert_eq!(
        w.reported_error(),
        Some(ProvisionError::FinalizationTimeout)
    );
    assert!(!w.listener_bound);
}

#[test]
fn cert_download_failure_is_fatal_but_cleaned() {
    let mut w = Workflow::new(5, 5);
    w.drive(&vec![
        RunEvent::ResponderStarted,
        RunEvent::AccountRegistered,
        RunEvent::OrderCreated,
        RunEvent::AuthorizationsFetched,
        RunEvent::ChallengePolled(ChallengeStatus::Valid),
        RunEvent::ValidationsConfirmed,
        RunEvent::FinalizeSubmitted,
        RunEvent::FinalizePolled(OrderStatus::Valid),
        RunEvent::CertFailed,
        RunEvent::CleanupDone,
    ]);
    assert_eq!(w.reported_error(), Some(ProvisionError::CertDownloadFailed));
    assert!(!w.dir_exists);
    assert!(!w.listener_bound);
}

#[test]
fn abort_goes_through_cleanup() {
    let mut w = Workflow::new(5, 5);
    w.drive(&vec![RunEvent::ResponderStarted, RunEvent::AccountRegistered]);
    w.abort(ProvisionError::AccountRegistrationFailed);
    assert_eq!(
        w.state,
        RunState::Cleanup {
            failure: Some(ProvisionError::AccountRegistrationFailed)
        }
    );
    // Aborting an ended run changes nothing.
    w.step(RunEvent::CleanupDone);
    let before = w.state;
    w.abort(ProvisionError::CertDownloadFailed);
    assert_eq!(w.state, before);
}

#[test]
fn mismatched_events_change_nothing() {
    let mut w = Workflow::new(5, 5);
    w.step(RunEvent::FinalizePolled(OrderStatus::Valid));
    assert_eq!(w.state, RunState::Idle);
    w.step(RunEvent::CleanupDone);
    assert_eq!(w.state, RunState::Idle);
}

#[test]
fn describe_names_each_failure() {
    assert_eq!(
        ProvisionError::AuthorizationTimeout.describe(),
        "timed out waiting on authorizations"
    );
    assert_eq!(
        ProvisionError::KeyCertMismatch.describe(),
        "private key does not match certificate"
    );
}
