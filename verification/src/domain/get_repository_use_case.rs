//! The read-only repository use case: compose the fetched repository and
//! its autolink references into one full view.

use vstd::prelude::*;

use crate::model::AutolinkReferenceResponse;
use crate::model::RepositoryFullView;
use crate::model::RepositoryResponse;

verus! {

/// Compose the full view of a repository that was found: its configuration
/// and the autolink references fetched for it, with an empty reference list
/// reported as no list at all.
pub fn build_repository_full_view(
    full_name: String,
    repository: RepositoryResponse,
    autolink_references: Vec<AutolinkReferenceResponse>,
) -> (v: RepositoryFullView)
    ensures
        v.full_name == full_name,
        v.repository == Some(repository),
        (if autolink_references@.len() == 0 {
            v.autolink_references is None
        } else {
            v.autolink_references == Some(autolink_references)
        }),
{
    let autolink_references = if autolink_references.is_empty() {
        None
    } else {
        Some(autolink_references)
    };
    RepositoryFullView { full_name, repository: Some(repository), autolink_references }
}

} // verus!
