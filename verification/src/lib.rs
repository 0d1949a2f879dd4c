//! Automated TLS certificate provisioning and rotation over the ACME
//! protocol (HTTP-01 challenge).
//!
//! The crate verifies the decision logic of the workflow: the provisioning
//! state machine with its bounded polling budgets, the model of the
//! challenge directory served by the transient HTTP responder, the
//! certificate installer's key/certificate consistency check, and the
//! rotation scheduler's swap-or-retain rule. The network and filesystem
//! work around it is driven by an unverified binary that feeds observed
//! events back into the state machine.

pub mod api;
pub mod challenge;
pub mod errors;
pub mod install;
pub mod schedule;
pub mod status;
pub mod workflow;
