//! The team-permission Cleanup use case: remove the team's role from the
//! repository, treating an already absent assignment as success, and
//! publish the deleted event.

use vstd::prelude::*;

use crate::github_service::RemoteDeleteResult;
use crate::github_service::delete_call_succeeded;

verus! {

/// Whether the Cleanup succeeded, given what the delete call came back
/// with. A `Missing` answer counts as success: the assignment is gone
/// either way.
pub fn permission_cleanup_succeeded(result: &RemoteDeleteResult) -> (r: bool)
    ensures
        r == delete_call_succeeded(*result),
{
    result.is_success()
}

/// Cleanup is idempotent: repeating the delete after the assignment is
/// gone still reports success.
pub proof fn lemma_permission_cleanup_idempotent()
    ensures
        delete_call_succeeded(RemoteDeleteResult::Deleted),
        delete_call_succeeded(RemoteDeleteResult::Missing),
{
}

} // verus!
