//! The team-permission Apply use case: fetch the team's current role on the
//! repository and put the declared role in place when it is absent or
//! different.

use vstd::prelude::*;

verus! {

/// Whether the declared role must be written: yes when the team has no role
/// on the repository yet, and when its current role is a different one.
pub open spec fn permission_needs_update(declared: Seq<char>, current: Option<String>) -> bool {
    match current {
        Option::None => true,
        Option::Some(c) => c@ != declared,
    }
}

/// Decide a permission Apply from the declared role and the fetched current
/// role: issue the PUT if and only if it is owed, publishing the updated
/// event with it.
pub fn permission_update_needed(declared: &String, current: &Option<String>) -> (r: bool)
    ensures
        r == permission_needs_update(declared@, *current),
{
    match current {
        Option::None => true,
        Option::Some(c) => !c.eq(declared),
    }
}

/// A permission Apply is idempotent: once the provider reports the declared
/// role, a further reconciliation issues no write.
pub proof fn lemma_permission_apply_idempotent(declared: String, current: String)
    requires
        current@ == declared@,
    ensures
        !permission_needs_update(declared@, Some(current)),
{
}

} // verus!
