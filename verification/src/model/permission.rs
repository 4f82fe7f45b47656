//! Team permissions on a repository.

use vstd::prelude::*;

use crate::model::Condition;

verus! {

/// Desired role of one team on one repository. `full_name` and
/// `full_team_name` (of the form `org/team_slug`) are immutable.
pub struct RepositoryPermissionSpec {
    pub full_name: String,
    pub full_team_name: String,
    pub permission: String,
}

/// Observed status of a permission resource.
pub struct RepositoryPermissionStatus {
    pub conditions: Vec<Condition>,
    pub healthy: Option<bool>,
}

/// The role of a team as the provider reports it.
pub struct RepositoryPermissionResponse {
    pub full_team_name: String,
    pub permission: String,
}

impl From<RepositoryPermissionSpec> for RepositoryPermissionResponse {
    fn from(spec: RepositoryPermissionSpec) -> (r: Self) {
        RepositoryPermissionResponse {
            full_team_name: spec.full_team_name,
            permission: spec.permission,
        }
    }
}

impl vstd::std_specs::convert::FromSpecImpl<RepositoryPermissionSpec>
    for RepositoryPermissionResponse {
    open spec fn obeys_from_spec() -> bool {
        true
    }

    open spec fn from_spec(spec: RepositoryPermissionSpec) -> Self {
        RepositoryPermissionResponse {
            full_team_name: spec.full_team_name,
            permission: spec.permission,
        }
    }
}

} // verus!
