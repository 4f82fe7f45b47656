//! The repository Cleanup use case. Archiving on delete is a reserved
//! hook: it performs no remote call and reports success, so a deleted
//! repository resource releases its finalizer without touching the remote
//! repository.

use vstd::prelude::*;

use crate::ControllerError;

verus! {

/// Archive the remote repository on Cleanup: a no-op returning success.
pub fn archive_repository() -> (r: Result<(), ControllerError>)
    ensures
        r is Ok,
{
    Ok(())
}

} // verus!
