//! The repository Apply use case: fetch or create the remote repository,
//! diff it against the configured spec, and update it only where it
//! differs.

use vstd::prelude::*;

use crate::diff::repository_differs_from_spec;
use crate::diff::updated_with_spec;
use crate::model::AutoConfigureSpec;
use crate::model::RepositoryResponse;
use crate::model::RepositorySpec;
use crate::model::response_auto_configured;
use crate::model::response_of;

verus! {

/// The update payload a repository reconciliation works with: the spec's
/// declared configuration with the provider's preconditions enabled.
pub open spec fn configured_payload(spec: RepositorySpec) -> RepositoryResponse {
    response_auto_configured(response_of(spec))
}

/// Build the update payload from the declared spec: project the spec onto
/// the provider's payload shape, then enable additional settings if
/// necessary.
pub fn configured_update_payload(spec: &RepositorySpec) -> (r: RepositoryResponse)
    ensures
        r == configured_payload(*spec),
{
    let mut payload = spec.to_response();
    payload.auto_configure();
    payload
}

/// The first step of a repository Apply reconciliation, decided from what
/// the fetch returned.
pub enum RepositoryApplyPlan {
    /// The remote repository is missing: create it carrying the payload and
    /// publish the created event; then reconcile against the response with
    /// [`repository_update_action`].
    CreateThenReconcile { payload: RepositoryResponse },
    /// The remote repository exists: issue the carried update if and only
    /// if one is owed, publishing the updated event with it.
    Reconcile { update: Option<RepositoryResponse> },
}

/// Decide a repository Apply from the configured spec and the fetch result:
/// a missing repository is created, an existing one is updated exactly when
/// it differs from the spec, with the payload carrying only the spec's
/// configuration.
pub fn plan_repository_apply(spec: &RepositorySpec, fetched: &Option<RepositoryResponse>) -> (p:
    RepositoryApplyPlan)
    ensures
        (fetched is None ==> (p matches RepositoryApplyPlan::CreateThenReconcile { payload }
            && payload == configured_payload(*spec))),
        (fetched matches Some(actual) ==> (p matches RepositoryApplyPlan::Reconcile { update }
            && ((update is Some) == repository_differs_from_spec(*actual, configured_payload(*spec)))
            && (update matches Some(u) ==> u == configured_payload(*spec)))),
{
    let payload = configured_update_payload(spec);
    match fetched {
        Option::None => RepositoryApplyPlan::CreateThenReconcile { payload },
        Option::Some(actual) => RepositoryApplyPlan::Reconcile {
            update: repository_update_action(actual, &payload),
        },
    }
}

/// The update owed against an actual configuration: the full payload if and
/// only if the actual differs from it, nothing otherwise.
pub fn repository_update_action(actual: &RepositoryResponse, payload: &RepositoryResponse) -> (r:
    Option<RepositoryResponse>)
    ensures
        (r is Some) == repository_differs_from_spec(*actual, *payload),
        (r matches Some(u) ==> u == *payload),
{
    if actual.differ_from_spec(payload) {
        Some(*payload)
    } else {
        None
    }
}

/// A spec that enables secret scanning without mentioning advanced
/// security still produces an update payload that asserts advanced
/// security enabled: the provider requires it as a precondition, and
/// auto-configuration supplies it.
pub proof fn lemma_auto_configure_asserts_advanced_security(spec: RepositorySpec)
    requires
        spec.security_and_analysis matches Some(sa) && sa.secret_scanning == Some(
            crate::model::SecurityAndAnalysisStatusResponse {
                status: crate::model::Status::Enabled,
            },
        ) && sa.advanced_security is None,
    ensures
        configured_payload(spec).security_and_analysis matches Some(c) && c.advanced_security
            == Some(
            crate::model::SecurityAndAnalysisStatusResponse {
                status: crate::model::Status::Enabled,
            },
        ),
{
}

/// Two successive successful Apply reconciliations with no spec change
/// issue no second update: after the provider applied the payload, the
/// reported state no longer differs from the spec, so the next run's update
/// action is empty and only reads remain.
pub proof fn lemma_repository_apply_idempotent(spec: RepositorySpec, before: RepositoryResponse)
    ensures
        !repository_differs_from_spec(
            updated_with_spec(before, configured_payload(spec)),
            configured_payload(spec),
        ),
{
    crate::diff::lemma_updated_no_longer_differs(before, configured_payload(spec));
}

} // verus!
