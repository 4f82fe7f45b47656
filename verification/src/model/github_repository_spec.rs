//! The aggregate repository resource in the shape the read use case returns:
//! the repository configuration as a provider response plus the autolink
//! references found on it.

use vstd::prelude::*;

use crate::model::repository::RepositoryResponse;
use crate::model::repository::TeamPermission;
use crate::model::github_repository::AutolinkReference;

verus! {

/// Desired or observed state of a repository with its satellite resources.
pub struct GitHubRepositorySpec {
    pub full_name: String,
    pub repository: Option<RepositoryResponse>,
    pub autolink_references: Option<Vec<AutolinkReference>>,
    pub permissions: Option<Vec<TeamPermission>>,
}

} // verus!
