//! Verified core of a Kubernetes operator that reconciles repository
//! configuration, autolink references and team permissions against a remote
//! code-hosting provider.
//!
//! The crate holds the decision logic of the operator: structural diffing of
//! desired against actual state, the per-kind reconciliation plans, finalizer
//! sequencing, requeue policy, status and event construction, and provider
//! error classification. The surrounding process (cluster watches, HTTP
//! transport, telemetry) lives outside the verified core and consumes these
//! functions through plain values.

pub mod controller;
pub mod diff;
pub mod domain;
pub mod events;
pub mod github_service;
pub mod model;

use vstd::prelude::*;

verus! {

/// Whether one of the given strings reads as `w`.
pub open spec fn strings_contain(strings: Seq<String>, w: Seq<char>) -> bool {
    exists|i: int| 0 <= i < strings.len() && strings[i]@ == w
}

/// Executable mirror of [`strings_contain`].
pub fn contains_string(strings: &Vec<String>, w: &String) -> (r: bool)
    ensures
        r == strings_contain(strings@, w@),
{
    let mut i: usize = 0;
    while i < strings.len()
        invariant
            i <= strings@.len(),
            forall|j: int| 0 <= j < i ==> strings@[j]@ != w@,
        decreases strings@.len() - i,
    {
        if strings[i].eq(w) {
            proof {
                assert(strings@[i as int]@ == w@);
            }
            return true;
        }
        i = i + 1;
    }
    false
}

/// Errors surfaced by the reconcilers. Payload details from the transport are
/// carried as plain text.
pub enum ControllerError {
    SerializationError(String),
    KubeError(String),
    ConfigurationError,
    HttpError(String),
    IoError(String),
    PrometheusError(String),
    FinalizerError(String),
    IllegalDocument,
    UseCaseError,
    CrdNotFound(String),
    AlreadyExists,
    NotFound,
    GitHubError(String),
}

} // verus!
