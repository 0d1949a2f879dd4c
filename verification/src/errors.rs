//! Failure taxonomy of a provisioning run. Any failure is contained to its
//! run: the rotation scheduler keeps the previous certificate and retries on
//! the next scheduled tick.

use vstd::prelude::*;

verus! {

/// Everything that can end a provisioning run without a certificate.
#[derive(Clone, Copy, Debug, PartialEq, Eq, Structural)]
pub enum ProvisionError {
    /// The authority's directory endpoint could not be resolved or parsed.
    DirectoryUnreachable,
    /// Account registration or re-authentication was refused.
    AccountRegistrationFailed,
    /// The authorization offered no HTTP-01 challenge.
    NoHttpChallenge,
    /// The authority checked the proof and reported the challenge Invalid.
    ChallengeRejected,
    /// The authorization poll budget ran out before a terminal status.
    AuthorizationTimeout,
    /// The order did not become Valid while finalizing: the poll budget
    /// ran out, or the authority moved the order to Invalid.
    FinalizationTimeout,
    /// The issued certificate could not be downloaded.
    CertDownloadFailed,
    /// The transient challenge listener could not bind its port.
    ListenerBindFailed,
    /// The private key does not correspond to the leaf certificate.
    KeyCertMismatch,
}

impl ProvisionError {
    /// A short operator-facing description of the failure.
    pub fn describe(&self) -> String {
        match self {
            ProvisionError::DirectoryUnreachable => "authority directory unreachable".to_string(),
            ProvisionError::AccountRegistrationFailed => "account registration failed".to_string(),
            ProvisionError::NoHttpChallenge => "no HTTP-01 challenge offered".to_string(),
            ProvisionError::ChallengeRejected => "challenge rejected by authority".to_string(),
            ProvisionError::AuthorizationTimeout => "timed out waiting on authorizations".to_string(),
            ProvisionError::FinalizationTimeout => "timed out finalizing the order".to_string(),
            ProvisionError::CertDownloadFailed => "certificate download failed".to_string(),
            ProvisionError::ListenerBindFailed => "challenge listener could not bind".to_string(),
            ProvisionError::KeyCertMismatch => "private key does not match certificate".to_string(),
        }
    }
}

} // verus!
