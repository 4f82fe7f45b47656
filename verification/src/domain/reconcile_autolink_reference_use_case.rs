//! The autolink-reference Apply use case.
//!
//! The provider identifies autolinks by a surrogate id and offers only
//! create and delete, so mutation means delete-then-create and the id is
//! persisted in the status to survive restarts. With a persisted id the
//! reconciliation looks the reference up by id; without one it looks for
//! the natural key (`key_prefix`) in the repository's reference list and
//! adopts a pre-existing reference rather than duplicating it.

use vstd::prelude::*;

use crate::diff::autolink_differs_from_spec;
use crate::model::AutolinkReferenceRequest;
use crate::model::AutolinkReferenceResponse;
use crate::model::AutolinkReferenceSpec;
use crate::model::autolink_reference::request_of_response;
use crate::model::autolink_reference::request_of_spec;
use crate::model::autolink_reference::responses_have_key;

verus! {

/// What an autolink Apply reconciliation does, decided from the persisted
/// id and the remote state.
pub enum AutolinkApplyPlan {
    /// The remote reference matches the spec: no call, the id is retained.
    Keep { id: u32 },
    /// The remote reference differs: delete `delete_id`, then create
    /// `request`; the created reference's id becomes the new status id and
    /// the updated event is published.
    Recreate { delete_id: u32, request: AutolinkReferenceRequest },
    /// No remote reference stands for this spec: create `request`; the
    /// created reference's id becomes the status id and the created event
    /// is published.
    Create { request: AutolinkReferenceRequest },
    /// A remote reference already carries the natural key: its id is
    /// adopted as the status id, without any call or event.
    Adopt { id: u32 },
}

/// The decision table of an Apply that holds a persisted id, keyed on what
/// the lookup by that id returned.
pub open spec fn autolink_decision_with_id(
    spec: AutolinkReferenceSpec,
    id: u32,
    lookup: Option<AutolinkReferenceResponse>,
) -> AutolinkApplyPlan {
    match lookup {
        Option::None => AutolinkApplyPlan::Create { request: request_of_spec(spec) },
        Option::Some(actual) => {
            if autolink_differs_from_spec(request_of_response(actual), request_of_spec(spec)) {
                AutolinkApplyPlan::Recreate { delete_id: id, request: request_of_spec(spec) }
            } else {
                AutolinkApplyPlan::Keep { id }
            }
        },
    }
}

/// Decide an Apply that holds a persisted id: keep a matching remote
/// reference, replace a differing one, re-create a vanished one.
pub fn plan_autolink_apply_with_id(
    spec: &AutolinkReferenceSpec,
    id: u32,
    lookup: &Option<AutolinkReferenceResponse>,
) -> (p: AutolinkApplyPlan)
    ensures
        p == autolink_decision_with_id(*spec, id, *lookup),
{
    match lookup {
        Option::None => AutolinkApplyPlan::Create { request: spec.to_request() },
        Option::Some(actual) => {
            let actual_request = actual.to_request();
            let spec_request = spec.to_request();
            if spec_request.differ_from_spec(&actual_request) {
                AutolinkApplyPlan::Recreate { delete_id: id, request: spec_request }
            } else {
                AutolinkApplyPlan::Keep { id }
            }
        },
    }
}

/// Decide an Apply without a persisted id: adopt the first remote
/// reference that carries the spec's natural key, create the reference
/// when none does. No branch deletes anything.
pub fn plan_autolink_apply_without_id(
    spec: &AutolinkReferenceSpec,
    existing: &Vec<AutolinkReferenceResponse>,
) -> (p: AutolinkApplyPlan)
    ensures
        (!responses_have_key(existing@, spec.key_prefix@) ==> p
            == (AutolinkApplyPlan::Create { request: request_of_spec(*spec) })),
        (responses_have_key(existing@, spec.key_prefix@) ==> (p matches AutolinkApplyPlan::Adopt {
            id,
        } && (exists|i: int|
            {
                &&& 0 <= i < existing@.len()
                &&& (#[trigger] existing@[i]).key_prefix@ == spec.key_prefix@
                &&& existing@[i].id == id
                &&& (forall|j: int| 0 <= j < i ==> existing@[j].key_prefix@ != spec.key_prefix@)
            }))),
        !(p is Recreate),
        !(p is Keep),
{
    let mut i: usize = 0;
    while i < existing.len()
        invariant
            i <= existing@.len(),
            forall|j: int| 0 <= j < i ==> existing@[j].key_prefix@ != spec.key_prefix@,
        decreases existing@.len() - i,
    {
        if existing[i].key_prefix.eq(&spec.key_prefix) {
            let found = AutolinkApplyPlan::Adopt { id: existing[i].id };
            proof {
                assert((existing@[i as int]).key_prefix@ == spec.key_prefix@);
            }
            return found;
        }
        i = i + 1;
    }
    proof {
        assert(!responses_have_key(existing@, spec.key_prefix@));
    }
    AutolinkApplyPlan::Create { request: spec.to_request() }
}

/// The id to persist in the status after an Apply attempt: the attempt's
/// resulting id when it succeeded, the previously persisted id when it
/// failed. A failed Apply never parts with a persisted id — only a
/// successful Cleanup does.
pub fn autolink_id_to_persist(previous: &Option<u32>, outcome: &Option<u32>) -> (r: Option<u32>)
    ensures
        r == (match *outcome {
            Option::Some(id) => Some(id),
            Option::None => *previous,
        }),
{
    match outcome {
        Option::Some(id) => Some(*id),
        Option::None => *previous,
    }
}

/// A persisted id survives a reconciliation that finds its remote
/// reference matching the spec: the plan keeps exactly that id.
pub proof fn lemma_autolink_id_preserved(
    spec: AutolinkReferenceSpec,
    id: u32,
    actual: AutolinkReferenceResponse,
)
    requires
        !autolink_differs_from_spec(request_of_response(actual), request_of_spec(spec)),
    ensures
        autolink_decision_with_id(spec, id, Some(actual)) == (AutolinkApplyPlan::Keep { id }),
{
}

/// When the spec differs from the remote reference, the plan replaces the
/// reference under the same natural key: the create request carries the
/// spec's `key_prefix`, so the id the provider assigns is its current id
/// for that key.
pub proof fn lemma_autolink_recreate_keeps_natural_key(
    spec: AutolinkReferenceSpec,
    id: u32,
    actual: AutolinkReferenceResponse,
)
    requires
        autolink_differs_from_spec(request_of_response(actual), request_of_spec(spec)),
    ensures
        autolink_decision_with_id(spec, id, Some(actual)) matches AutolinkApplyPlan::Recreate {
            delete_id,
            request,
        } && delete_id == id && request.key_prefix@ == spec.key_prefix@,
{
}

/// When the persisted id's remote reference has vanished, the plan creates
/// the reference anew under the spec's own natural key, so the id the
/// provider assigns belongs to that key prefix.
pub proof fn lemma_autolink_create_keeps_natural_key(spec: AutolinkReferenceSpec, id: u32)
    ensures
        autolink_decision_with_id(spec, id, Option::<AutolinkReferenceResponse>::None)
            matches AutolinkApplyPlan::Create { request } && request.key_prefix@
            == spec.key_prefix@,
{
}

/// The reconciler's scope is one reference: whatever the remote state, a
/// plan deletes at most the reference its own status id points at — never
/// an unrelated autolink.
pub proof fn lemma_autolink_plan_deletes_only_own_id(
    spec: AutolinkReferenceSpec,
    id: u32,
    lookup: Option<AutolinkReferenceResponse>,
)
    ensures
        autolink_decision_with_id(spec, id, lookup) matches AutolinkApplyPlan::Recreate {
            delete_id,
            ..
        } ==> delete_id == id,
{
}

} // verus!
