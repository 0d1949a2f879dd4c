//! The provisioning workflow: an explicit state machine over one run's
//! lifecycle, with bounded polling budgets for authorization and
//! finalization.
//!
//! The machine owns every decision of a run; the unverified driver
//! performs the outside work one action at a time (start the responder,
//! talk to the authority, write proof files) and reports what it observed
//! as an event. Cleanup is part of the machine itself: a run can only end
//! in `Done` or `Failed` by passing through `Cleanup`, so the transient
//! listener and the challenge directory are released on every exit path.

use vstd::prelude::*;

use crate::errors::ProvisionError;
use crate::status::{ChallengeStatus, OrderStatus};

verus! {

/// One step of the run's lifecycle. `retries_left` counts the polls the
/// stage may still spend before it times out.
#[derive(Clone, Copy, Debug, PartialEq, Eq)]
pub enum RunState {
    /// Nothing started yet.
    Idle,
    /// Challenge directory created, port-80 responder bound.
    ChallengeServerUp,
    /// Account registered and re-authenticated with the authority.
    AccountReady,
    /// An order for the domain is open.
    OrderOpen,
    /// Authorizations fetched; proofs are being answered and polled.
    AuthorizationsPending { retries_left: u32 },
    /// Every authorization on the order is satisfied.
    AuthorizationsValid,
    /// The CSR is submitted; the order status is being polled.
    Finalizing { retries_left: u32 },
    /// The authority issued the certificate; it remains to download it.
    CertIssued,
    /// Stopping the responder and removing the challenge directory,
    /// keeping the failure to report, if any.
    Cleanup { failure: Option<ProvisionError> },
    /// The run ended with a downloaded certificate and released resources.
    Done,
    /// The run ended without a certificate; resources are released.
    Failed { error: ProvisionError },
}

/// One observation the driver reports back after performing an action.
#[derive(Clone, Copy, Debug, PartialEq, Eq, Structural)]
pub enum RunEvent {
    /// Challenge directory created and the port-80 responder bound.
    ResponderStarted,
    /// The responder could not bind its port (the directory may already
    /// have been created; cleanup removes it either way).
    ResponderFailed,
    /// The authority's directory endpoint could not be resolved or parsed.
    DirectoryFailed,
    /// Account registered and re-authenticated.
    AccountRegistered,
    /// Account registration or re-authentication was refused.
    AccountFailed,
    /// A new order was opened for the domain.
    OrderCreated,
    /// The order's outstanding authorizations were fetched.
    AuthorizationsFetched,
    /// A non-blocking check found every authorization satisfied.
    ValidationsConfirmed,
    /// An authorization offered no HTTP-01 challenge.
    ChallengeMissing,
    /// A challenge status observed after writing the proof, asking the
    /// authority to validate, and waiting one poll interval.
    ChallengePolled(ChallengeStatus),
    /// The CSR was submitted for the ready order.
    FinalizeSubmitted,
    /// An order status observed while polling finalization.
    FinalizePolled(OrderStatus),
    /// The issued certificate was downloaded.
    CertDownloaded,
    /// The issued certificate could not be downloaded.
    CertFailed,
    /// The responder is stopped and the challenge directory removed.
    CleanupDone,
}

/// What the driver must do next for a given state.
#[derive(Clone, Copy, Debug, PartialEq, Eq, Structural)]
pub enum RunAction {
    /// Create the challenge directory and bind the port-80 responder.
    StartResponder,
    /// Resolve the authority's directory, register and re-authenticate.
    ConnectAndRegister,
    /// Open an order for the domain.
    CreateOrder,
    /// Fetch the order's authorizations.
    FetchAuthorizations,
    /// Answer still-pending challenges, ask for validation, poll once, or
    /// confirm that all authorizations are satisfied.
    AnswerChallenges,
    /// Generate a key, build the CSR and submit it.
    SubmitFinalize,
    /// Re-fetch the order status once.
    PollFinalize,
    /// Download the issued certificate.
    DownloadCert,
    /// Stop the responder and remove the challenge directory.
    RunCleanup,
    /// Nothing: the run is over.
    Halt,
}

/// One provisioning run: its lifecycle state, the polling budgets it was
/// configured with, and a model of the two transient resources it owns.
#[derive(Clone, Copy, Debug)]
pub struct Workflow {
    pub state: RunState,
    /// How many authorization polls may still be spent before the run
    /// fails with `AuthorizationTimeout`.
    pub auth_budget: u32,
    /// How many finalization polls may still be spent before the run
    /// fails with `FinalizationTimeout`.
    pub fin_budget: u32,
    /// Whether the challenge directory currently exists on disk.
    pub dir_exists: bool,
    /// Whether the port-80 challenge responder is currently bound.
    pub listener_bound: bool,
}

impl Workflow {
    /// Both transient resources of the run are released.
    pub open spec fn resources_released(self) -> bool {
        !self.dir_exists && !self.listener_bound
    }

    /// A run never reaches a terminal state while it still holds the
    /// challenge directory or the bound port.
    pub open spec fn cleaned_when_terminal(self) -> bool {
        (self.state is Done || self.state is Failed) ==> self.resources_released()
    }

    /// The failure the run carries, if any: already reported, or still to
    /// be reported once cleanup finishes.
    pub open spec fn failure_of(self) -> Option<ProvisionError> {
        match self.state {
            RunState::Cleanup { failure } => failure,
            RunState::Failed { error } => Some(error),
            _ => None,
        }
    }

    /// The run has failed: it is cleaning up after an error or has
    /// reported one.
    pub open spec fn failing(self) -> bool {
        self.failure_of() is Some
    }

    /// The transition function: the state after one observed event.
    /// An event that does not belong to the current state changes nothing.
    pub open spec fn spec_step(self, e: RunEvent) -> Workflow {
        match (self.state, e) {
            (RunState::Idle, RunEvent::ResponderStarted) => Workflow {
                state: RunState::ChallengeServerUp,
                dir_exists: true,
                listener_bound: true,
                ..self
            },
            (RunState::Idle, RunEvent::ResponderFailed) => Workflow {
                state: RunState::Cleanup {
                    failure: Some(ProvisionError::ListenerBindFailed),
                },
                dir_exists: true,
                listener_bound: false,
                ..self
            },
            (RunState::ChallengeServerUp, RunEvent::DirectoryFailed) => self.to_cleanup(
                ProvisionError::DirectoryUnreachable,
            ),
            (RunState::ChallengeServerUp, RunEvent::AccountRegistered) => Workflow {
                state: RunState::AccountReady,
                ..self
            },
            (RunState::ChallengeServerUp, RunEvent::AccountFailed) => self.to_cleanup(
                ProvisionError::AccountRegistrationFailed,
            ),
            (RunState::AccountReady, RunEvent::OrderCreated) => Workflow {
                state: RunState::OrderOpen,
                ..self
            },
            (RunState::OrderOpen, RunEvent::AuthorizationsFetched) => Workflow {
                state: RunState::AuthorizationsPending { retries_left: self.auth_budget },
                ..self
            },
            (
                RunState::AuthorizationsPending { .. },
                RunEvent::ValidationsConfirmed,
            ) => Workflow { state: RunState::AuthorizationsValid, ..self },
            (RunState::AuthorizationsPending { .. }, RunEvent::ChallengeMissing) => self
                .to_cleanup(ProvisionError::NoHttpChallenge),
            (
                RunState::AuthorizationsPending { retries_left },
                RunEvent::ChallengePolled(s),
            ) => if s is Invalid {
                self.to_cleanup(ProvisionError::ChallengeRejected)
            } else if s is Valid {
                self
            } else if retries_left == 0 {
                self.to_cleanup(ProvisionError::AuthorizationTimeout)
            } else {
                Workflow {
                    state: RunState::AuthorizationsPending {
                        retries_left: (retries_left - 1) as u32,
                    },
                    ..self
                }
            },
            (RunState::AuthorizationsValid, RunEvent::FinalizeSubmitted) => Workflow {
                state: RunState::Finalizing { retries_left: self.fin_budget },
                ..self
            },
            (RunState::Finalizing { retries_left }, RunEvent::FinalizePolled(s)) => if s
                is Valid {
                Workflow { state: RunState::CertIssued, ..self }
            } else if s is Invalid || retries_left == 0 {
                self.to_cleanup(ProvisionError::FinalizationTimeout)
            } else {
                Workflow {
                    state: RunState::Finalizing { retries_left: (retries_left - 1) as u32 },
                    ..self
                }
            },
            (RunState::CertIssued, RunEvent::CertDownloaded) => Workflow {
                state: RunState::Cleanup { failure: None },
                ..self
            },
            (RunState::CertIssued, RunEvent::CertFailed) => self.to_cleanup(
                ProvisionError::CertDownloadFailed,
            ),
            (RunState::Cleanup { failure }, RunEvent::CleanupDone) => Workflow {
                state: match failure {
                    None => RunState::Done,
                    Some(error) => RunState::Failed { error },
                },
                dir_exists: false,
                listener_bound: false,
                ..self
            },
            _ => self,
        }
    }

    /// The state that abandons the run with the given failure and turns to
    /// releasing its resources.
    pub open spec fn to_cleanup(self, error: ProvisionError) -> Workflow {
        Workflow { state: RunState::Cleanup { failure: Some(error) }, ..self }
    }

    /// The action the driver must perform in a given state.
    pub open spec fn spec_next_action(self) -> RunAction {
        match self.state {
            RunState::Idle => RunAction::StartResponder,
            RunState::ChallengeServerUp => RunAction::ConnectAndRegister,
            RunState::AccountReady => RunAction::CreateOrder,
            RunState::OrderOpen => RunAction::FetchAuthorizations,
            RunState::AuthorizationsPending { .. } => RunAction::AnswerChallenges,
            RunState::AuthorizationsValid => RunAction::SubmitFinalize,
            RunState::Finalizing { .. } => RunAction::PollFinalize,
            RunState::CertIssued => RunAction::DownloadCert,
            RunState::Cleanup { .. } => RunAction::RunCleanup,
            RunState::Done => RunAction::Halt,
            RunState::Failed { .. } => RunAction::Halt,
        }
    }

    /// The state a run reaches after a whole sequence of observed events.
    pub open spec fn spec_run(self, events: Seq<RunEvent>) -> Workflow
        decreases events.len(),
    {
        if events.len() == 0 {
            self
        } else {
            self.spec_step(events[0]).spec_run(events.drop_first())
        }
    }

    /// A fresh run with the given polling budgets, before anything was
    /// started.
    pub fn new(auth_budget: u32, fin_budget: u32) -> (w: Workflow)
        ensures
            w == (Workflow {
                state: RunState::Idle,
                auth_budget,
                fin_budget,
                dir_exists: false,
                listener_bound: false,
            }),
    {
        Workflow {
            state: RunState::Idle,
            auth_budget,
            fin_budget,
            dir_exists: false,
            listener_bound: false,
        }
    }

    /// Advances the run by one observed event.
    pub fn step(&mut self, e: RunEvent)
        ensures
            *final(self) == old(self).spec_step(e),
    {
        match (self.state, e) {
            (RunState::Idle, RunEvent::ResponderStarted) => {
                self.state = RunState::ChallengeServerUp;
                self.dir_exists = true;
                self.listener_bound = true;
            },
            (RunState::Idle, RunEvent::ResponderFailed) => {
                self.state = RunState::Cleanup {
                    failure: Some(ProvisionError::ListenerBindFailed),
                };
                self.dir_exists = true;
                self.listener_bound = false;
            },
            (RunState::ChallengeServerUp, RunEvent::DirectoryFailed) => {
                self.state = RunState::Cleanup {
                    failure: Some(ProvisionError::DirectoryUnreachable),
                };
            },
            (RunState::ChallengeServerUp, RunEvent::AccountRegistered) => {
                self.state = RunState::AccountReady;
            },
            (RunState::ChallengeServerUp, RunEvent::AccountFailed) => {
                self.state = RunState::Cleanup {
                    failure: Some(ProvisionError::AccountRegistrationFailed),
                };
            },
            (RunState::AccountReady, RunEvent::OrderCreated) => {
                self.state = RunState::OrderOpen;
            },
            (RunState::OrderOpen, RunEvent::AuthorizationsFetched) => {
                self.state = RunState::AuthorizationsPending {
                    retries_left: self.auth_budget,
                };
            },
            (RunState::AuthorizationsPending { .. }, RunEvent::ValidationsConfirmed) => {
                self.state = RunState::AuthorizationsValid;
            },
            (RunState::AuthorizationsPending { .. }, RunEvent::ChallengeMissing) => {
                self.state = RunState::Cleanup {
                    failure: Some(ProvisionError::NoHttpChallenge),
                };
            },
            (RunState::AuthorizationsPending { retries_left }, RunEvent::ChallengePolled(s)) => {
                if matches!(s, ChallengeStatus::Invalid) {
                    self.state = RunState::Cleanup {
                        failure: Some(ProvisionError::ChallengeRejected),
                    };
                } else if matches!(s, ChallengeStatus::Valid) {
                } else if retries_left == 0 {
                    self.state = RunState::Cleanup {
                        failure: Some(ProvisionError::AuthorizationTimeout),
                    };
                } else {
                    self.state = RunState::AuthorizationsPending {
                        retries_left: retries_left - 1,
                    };
                }
            },
            (RunState::AuthorizationsValid, RunEvent::FinalizeSubmitted) => {
                self.state = RunState::Finalizing { retries_left: self.fin_budget };
            },
            (RunState::Finalizing { retries_left }, RunEvent::FinalizePolled(s)) => {
                if matches!(s, OrderStatus::Valid) {
                    self.state = RunState::CertIssued;
                } else if matches!(s, OrderStatus::Invalid) || retries_left == 0 {
                    self.state = RunState::Cleanup {
                        failure: Some(ProvisionError::FinalizationTimeout),
                    };
                } else {
                    self.state = RunState::Finalizing { retries_left: retries_left - 1 };
                }
            },
            (RunState::CertIssued, RunEvent::CertDownloaded) => {
                self.state = RunState::Cleanup { failure: None };
            },
            (RunState::CertIssued, RunEvent::CertFailed) => {
                self.state = RunState::Cleanup {
                    failure: Some(ProvisionError::CertDownloadFailed),
                };
            },
            (RunState::Cleanup { failure }, RunEvent::CleanupDone) => {
                self.state = match failure {
                    None => RunState::Done,
                    Some(error) => RunState::Failed { error },
                };
                self.dir_exists = false;
                self.listener_bound = false;
            },
            _ => {},
        }
    }

    /// Abandons the run with a failure the driver met outside the listed
    /// observations; a run already cleaning up or ended is unchanged.
    pub fn abort(&mut self, error: ProvisionError)
        ensures
            *final(self) == old(self).spec_abort(error),
    {
        match self.state {
            RunState::Cleanup { .. } | RunState::Done | RunState::Failed { .. } => {},
            _ => {
                self.state = RunState::Cleanup { failure: Some(error) };
            },
        }
    }

    /// What `abort` leaves behind.
    pub open spec fn spec_abort(self, error: ProvisionError) -> Workflow {
        match self.state {
            RunState::Cleanup { .. } | RunState::Done | RunState::Failed { .. } => self,
            _ => self.to_cleanup(error),
        }
    }

    /// The action the driver must perform next.
    pub fn next_action(&self) -> (r: RunAction)
        ensures
            r == self.spec_next_action(),
    {
        match self.state {
            RunState::Idle => RunAction::StartResponder,
            RunState::ChallengeServerUp => RunAction::ConnectAndRegister,
            RunState::AccountReady => RunAction::CreateOrder,
            RunState::OrderOpen => RunAction::FetchAuthorizations,
            RunState::AuthorizationsPending { .. } => RunAction::AnswerChallenges,
            RunState::AuthorizationsValid => RunAction::SubmitFinalize,
            RunState::Finalizing { .. } => RunAction::PollFinalize,
            RunState::CertIssued => RunAction::DownloadCert,
            RunState::Cleanup { .. } => RunAction::RunCleanup,
            RunState::Done => RunAction::Halt,
            RunState::Failed { .. } => RunAction::Halt,
        }
    }

    /// The run is over: nothing is left for the driver to do.
    pub fn halted(&self) -> (r: bool)
        ensures
            r == (self.state is Done || self.state is Failed),
    {
        matches!(self.state, RunState::Done | RunState::Failed { .. })
    }

    /// The run ended with a certificate.
    pub fn succeeded(&self) -> (r: bool)
        ensures
            r == (self.state is Done),
    {
        matches!(self.state, RunState::Done)
    }

    /// The failure reported by a run that ended in `Failed`.
    pub fn reported_error(&self) -> (r: Option<ProvisionError>)
        ensures
            r == (match self.state {
                RunState::Failed { error } => Some(error),
                _ => None::<ProvisionError>,
            }),
    {
        match self.state {
            RunState::Failed { error } => Some(error),
            _ => None,
        }
    }

    /// Advances the run through a whole sequence of observed events.
    pub fn drive(&mut self, events: &Vec<RunEvent>)
        ensures
            *final(self) == old(self).spec_run(events@),
    {
        let mut i: usize = 0;
        while i < events.len()
            invariant
                i <= events@.len(),
                *self == old(self).spec_run(events@.take(i as int)),
            decreases events@.len() - i,
        {
            proof {
                lemma_run_snoc(*old(self), events@.take(i as int), events@[i as int]);
                assert(events@.take(i as int).push(events@[i as int]) =~= events@.take(
                    i as int + 1,
                ));
            }
            self.step(events[i]);
            i = i + 1;
        }
        proof {
            assert(events@.take(events@.len() as int) =~= events@);
        }
    }
}

/// No single event moves a run into `Done` or `Failed` while it still
/// holds the challenge directory or the bound port: the only way in is
/// `CleanupDone`, which releases both.
pub proof fn lemma_step_keeps_terminal_clean(w: Workflow, e: RunEvent)
    requires
        w.cleaned_when_terminal(),
    ensures
        w.spec_step(e).cleaned_when_terminal(),
{
}

/// After cleanup the challenge directory does not exist and the port-80
/// responder is no longer bound, whether the run succeeded or failed; the
/// run then reports its outcome and nothing else.
pub proof fn lemma_cleanup_releases_resources(w: Workflow)
    requires
        w.state is Cleanup,
    ensures
        w.spec_step(RunEvent::CleanupDone).resources_released(),
        w.state->Cleanup_failure is None ==> w.spec_step(RunEvent::CleanupDone).state is Done,
        w.state->Cleanup_failure is Some ==> w.spec_step(RunEvent::CleanupDone).state == (
        RunState::Failed { error: w.state->Cleanup_failure->0 }),
{
}

/// Whatever events a run sees, it never reaches `Done` or `Failed` with
/// the challenge directory still present or the port still bound.
pub proof fn lemma_run_keeps_terminal_clean(w: Workflow, events: Seq<RunEvent>)
    requires
        w.cleaned_when_terminal(),
    ensures
        w.spec_run(events).cleaned_when_terminal(),
    decreases events.len(),
{
    if events.len() != 0 {
        lemma_step_keeps_terminal_clean(w, events[0]);
        lemma_run_keeps_terminal_clean(w.spec_step(events[0]), events.drop_first());
    }
}

/// A failure is absorbing: once a run is cleaning up after an error or
/// has reported one, every later event leaves it failing with the same
/// error, and the driver is never asked to finalize again.
pub proof fn lemma_failure_absorbing(w: Workflow, events: Seq<RunEvent>)
    requires
        w.failing(),
    ensures
        w.spec_run(events).failing(),
        w.spec_run(events).failure_of() == w.failure_of(),
        w.spec_run(events).spec_next_action() != RunAction::SubmitFinalize,
    decreases events.len(),
{
    if events.len() != 0 {
        lemma_failure_absorbing(w.spec_step(events[0]), events.drop_first());
    }
}

/// The driver is asked to submit the CSR for finalization only while the
/// run stands in `AuthorizationsValid`, and the only way into that state
/// is the observation that every authorization on the order is satisfied:
/// finalization is never requested before validations are confirmed.
pub proof fn lemma_finalize_only_after_confirmation(w: Workflow, e: RunEvent)
    ensures
        w.spec_next_action() == RunAction::SubmitFinalize ==> w.state is AuthorizationsValid,
        w.spec_step(e).state is AuthorizationsValid && !(w.state is AuthorizationsValid)
            ==> w.state is AuthorizationsPending && e == RunEvent::ValidationsConfirmed,
{
}

/// A run that observes an Invalid challenge status turns to cleanup
/// carrying `ChallengeRejected`; from then on, whatever else it observes,
/// it stays failing with that error — so it can only terminate in
/// `Failed { ChallengeRejected }` — and it never submits the CSR for
/// finalization.
pub proof fn lemma_invalid_challenge_never_finalizes(w: Workflow, events: Seq<RunEvent>)
    requires
        w.state is AuthorizationsPending,
    ensures
        ({
            let after = w.spec_step(RunEvent::ChallengePolled(ChallengeStatus::Invalid));
            &&& after.failure_of() == Some(ProvisionError::ChallengeRejected)
            &&& forall|i: int|
                0 <= i <= events.len() ==> (#[trigger] after.spec_run(
                    events.take(i),
                )).failure_of() == Some(ProvisionError::ChallengeRejected)
            &&& forall|i: int|
                0 <= i <= events.len() ==> (#[trigger] after.spec_run(
                    events.take(i),
                )).spec_next_action() != RunAction::SubmitFinalize
        }),
{
    let after = w.spec_step(RunEvent::ChallengePolled(ChallengeStatus::Invalid));
    assert(after.failure_of() == Some(ProvisionError::ChallengeRejected));
    assert forall|i: int| 0 <= i <= events.len() implies (#[trigger] after.spec_run(
        events.take(i),
    )).failure_of() == Some(ProvisionError::ChallengeRejected) && (after.spec_run(
        events.take(i),
    )).spec_next_action() != RunAction::SubmitFinalize by {
        lemma_failure_absorbing(after, events.take(i));
    }
}

/// A run whose authorization poll budget is exhausted fails with
/// `AuthorizationTimeout` on the next still-pending observation, is sent
/// to cleanup, and once cleanup finishes it has released the directory
/// and the port and reports exactly `AuthorizationTimeout`.
pub proof fn lemma_authorization_timeout_still_cleans_up(w: Workflow, s: ChallengeStatus)
    requires
        w.state == (RunState::AuthorizationsPending { retries_left: 0u32 }),
        !s.is_terminal(),
    ensures
        ({
            let after = w.spec_step(RunEvent::ChallengePolled(s));
            &&& after.state == (RunState::Cleanup {
                failure: Some(ProvisionError::AuthorizationTimeout),
            })
            &&& after.spec_next_action() == RunAction::RunCleanup
            &&& after.spec_step(RunEvent::CleanupDone).state == (RunState::Failed {
                error: ProvisionError::AuthorizationTimeout,
            })
            &&& after.spec_step(RunEvent::CleanupDone).resources_released()
        }),
{
}

/// Running one more event equals running the prefix and stepping once.
pub proof fn lemma_run_snoc(w: Workflow, events: Seq<RunEvent>, e: RunEvent)
    ensures
        w.spec_run(events.push(e)) == w.spec_run(events).spec_step(e),
    decreases events.len(),
{
    if events.len() == 0 {
        assert(events.push(e)[0] == e);
        assert(events.push(e).drop_first() =~= Seq::<RunEvent>::empty());
        assert(w.spec_run(events.push(e)) == w.spec_step(e).spec_run(
            Seq::<RunEvent>::empty(),
        ));
        assert(w.spec_step(e).spec_run(Seq::<RunEvent>::empty()) == w.spec_step(e));
        assert(w.spec_run(events) == w);
    } else {
        assert(events.push(e)[0] == events[0]);
        assert(events.push(e).drop_first() =~= events.drop_first().push(e));
        assert(w.spec_run(events.push(e)) == w.spec_step(events[0]).spec_run(
            events.drop_first().push(e),
        ));
        lemma_run_snoc(w.spec_step(events[0]), events.drop_first(), e);
        assert(w.spec_run(events) == w.spec_step(events[0]).spec_run(events.drop_first()));
    }
}

} // verus!
