//! The read-only aggregate use case: compose the fetched repository and
//! its autolink references into the aggregate resource shape.

use vstd::prelude::*;

use crate::model::AutolinkReferenceResponse;
use crate::model::GitHubRepositorySpec;
use crate::model::RepositoryResponse;
use crate::model::github_repository::AutolinkReference;

verus! {

/// What a read-only aggregate fetch can fail with.
pub enum GetGitHubRepositoryUseCaseError {
    Error,
}

/// The declared shape of one provider-reported autolink reference: the
/// surrogate id is dropped, the natural fields are kept.
pub open spec fn reference_of_response(response: AutolinkReferenceResponse) -> AutolinkReference {
    AutolinkReference {
        key_prefix: response.key_prefix,
        url_template: response.url_template,
        is_alphanumeric: response.is_alphanumeric,
    }
}

impl From<AutolinkReferenceResponse> for AutolinkReference {
    fn from(value: AutolinkReferenceResponse) -> (r: Self) {
        AutolinkReference {
            key_prefix: value.key_prefix,
            url_template: value.url_template,
            is_alphanumeric: value.is_alphanumeric,
        }
    }
}

impl vstd::std_specs::convert::FromSpecImpl<AutolinkReferenceResponse> for AutolinkReference {
    open spec fn obeys_from_spec() -> bool {
        true
    }

    open spec fn from_spec(value: AutolinkReferenceResponse) -> Self {
        reference_of_response(value)
    }
}

/// Project a list of provider-reported autolink references onto their
/// declared shape, in order.
pub fn to_autolink_references(items: &Vec<AutolinkReferenceResponse>) -> (r: Vec<AutolinkReference>)
    ensures
        r@.len() == items@.len(),
        forall|k: int| 0 <= k < r@.len() ==> r@[k] == reference_of_response(#[trigger] items@[k]),
{
    let mut refs: Vec<AutolinkReference> = Vec::new();
    let mut i: usize = 0;
    while i < items.len()
        invariant
            i <= items@.len(),
            refs@.len() == i,
            forall|k: int|
                0 <= k < i ==> refs@[k] == reference_of_response(#[trigger] items@[k]),
        decreases items@.len() - i,
    {
        let item = &items[i];
        refs.push(
            AutolinkReference {
                key_prefix: item.key_prefix.clone(),
                url_template: item.url_template.clone(),
                is_alphanumeric: item.is_alphanumeric,
            },
        );
        i = i + 1;
    }
    refs
}

/// Compose the aggregate shape of a repository that was found: its
/// configuration and the declared shape of its autolink references, with an
/// empty reference list reported as no list at all. No permissions are
/// fetched here.
pub fn build_github_repository_spec(
    full_name: String,
    repository: RepositoryResponse,
    autolink_references: Vec<AutolinkReference>,
) -> (r: GitHubRepositorySpec)
    ensures
        r.full_name == full_name,
        r.repository == Some(repository),
        (if autolink_references@.len() == 0 {
            r.autolink_references is None
        } else {
            r.autolink_references == Some(autolink_references)
        }),
        r.permissions is None,
{
    let autolink_references = if autolink_references.is_empty() {
        None
    } else {
        Some(autolink_references)
    };
    GitHubRepositorySpec {
        full_name,
        repository: Some(repository),
        autolink_references,
        permissions: None,
    }
}

} // verus!
