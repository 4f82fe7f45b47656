//! The autolink-reference Cleanup use case: delete the remote reference the
//! status points at, treating an already absent reference as success, and
//! publish the deleted event.

use vstd::prelude::*;

use crate::github_service::RemoteDeleteResult;
use crate::github_service::delete_call_succeeded;
use crate::model::AutolinkReferenceStatus;

verus! {

/// The remote reference a Cleanup must delete: the id persisted in the
/// status, if any. Without one there is nothing to delete and Cleanup
/// succeeds immediately.
pub fn autolink_cleanup_target(status: &Option<AutolinkReferenceStatus>) -> (r: Option<u32>)
    ensures
        r == (match *status {
            Option::None => None::<u32>,
            Option::Some(st) => st.id,
        }),
{
    match status {
        Option::None => None,
        Option::Some(st) => st.id,
    }
}

/// Whether the Cleanup succeeded, given what the delete call came back
/// with. A `Missing` answer counts as success: the goal of the delete is
/// already met.
pub fn autolink_cleanup_succeeded(result: &RemoteDeleteResult) -> (r: bool)
    ensures
        r == delete_call_succeeded(*result),
{
    result.is_success()
}

/// Cleanup is idempotent: a repeated Cleanup deletes the same id again, and
/// whether the provider reports the reference deleted now or already
/// missing — as it will from the second attempt on — the outcome is
/// success.
pub proof fn lemma_autolink_cleanup_idempotent()
    ensures
        delete_call_succeeded(RemoteDeleteResult::Deleted),
        delete_call_succeeded(RemoteDeleteResult::Missing),
{
}

} // verus!
