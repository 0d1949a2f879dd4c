//! The rotation scheduler's decision rule: the provisioning workflow runs
//! once at startup and then on a fixed interval well inside the
//! certificate's validity window. Only a successful run swaps the
//! listener's active configuration; a failed run keeps the older, still
//! valid certificate and the schedule retries on its next tick.

use vstd::prelude::*;

use crate::errors::ProvisionError;
use crate::install::TlsConfig;

verus! {

/// What the scheduler decided about one rotation attempt.
#[derive(Clone, Copy, Debug, PartialEq, Eq, Structural)]
pub enum RotationDecision {
    /// A fresh certificate came out of the run; the listener must swap to
    /// the new configuration.
    Swapped,
    /// The run failed but an older certificate is still live; keep
    /// serving with it and retry on the next tick.
    Retained(ProvisionError),
    /// The mandatory first run failed before any certificate existed;
    /// there is nothing to serve traffic with, fatal at startup.
    Aborted(ProvisionError),
}

/// The single swappable cell holding the listener's active TLS
/// configuration: one writer (the scheduler), readers never observe a
/// half-updated pair because the whole configuration is replaced at once.
pub struct RotationCell {
    active: Option<TlsConfig>,
}

impl View for RotationCell {
    type V = Option<TlsConfig>;

    closed spec fn view(&self) -> Option<TlsConfig> {
        self.active
    }
}

impl RotationCell {
    /// The cell before the first run: no certificate yet.
    pub fn new() -> (c: RotationCell)
        ensures
            c@ is None,
    {
        RotationCell { active: None }
    }

    /// The configuration currently served, if any.
    pub fn current(&self) -> (r: Option<&TlsConfig>)
        ensures
            r is Some <==> self@ is Some,
            r matches Some(c) ==> *c == self@->0,
    {
        self.active.as_ref()
    }

    /// Applies one workflow run's outcome. A successful run swaps the
    /// active configuration for the new one; a failed run never touches
    /// it: an existing certificate is retained and the failure reported
    /// for retry, and a failure before any certificate exists is reported
    /// as fatal.
    pub fn apply(&mut self, outcome: Result<TlsConfig, ProvisionError>) -> (d: RotationDecision)
        ensures
            outcome matches Ok(c) ==> final(self)@ == Some(c) && d == RotationDecision::Swapped,
            outcome is Err ==> final(self)@ == old(self)@,
            outcome matches Err(e) ==> d == (if old(self)@ is Some {
                RotationDecision::Retained(e)
            } else {
                RotationDecision::Aborted(e)
            }),
    {
        match outcome {
            Ok(config) => {
                self.active = Some(config);
                RotationDecision::Swapped
            },
            Err(error) => match &self.active {
                Some(_) => RotationDecision::Retained(error),
                None => RotationDecision::Aborted(error),
            },
        }
    }
}

} // verus!
