//! Cleanup of the aggregate repository resource. Like the per-kind
//! repository Cleanup, archiving is a reserved hook that reports success
//! without a remote call.

use vstd::prelude::*;

verus! {

/// What archiving an aggregate repository can fail with.
pub enum ArchiveGitHubRepositoryUseCaseError {
    Error,
}

/// Archive the remote repository on Cleanup: a no-op returning success.
pub fn archive_github_repository() -> (r: Result<(), ArchiveGitHubRepositoryUseCaseError>)
    ensures
        r is Ok,
{
    Ok(())
}

} // verus!
