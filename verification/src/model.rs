//! Shared domain model items: the condition type recorded in every status,
//! the aggregate repository view, and the trait for specs that enable
//! additional settings before they are sent to the provider.

pub mod autolink_reference;
pub mod github_repository;
pub mod github_repository_spec;
pub mod permission;
pub mod repository;
pub mod update_repository;

pub use autolink_reference::AutolinkReferenceRequest;
pub use autolink_reference::AutolinkReferenceResponse;
pub use autolink_reference::AutolinkReferenceSpec;
pub use autolink_reference::AutolinkReferenceStatus;
pub use github_repository_spec::GitHubRepositorySpec;
pub use permission::RepositoryPermissionResponse;
pub use permission::RepositoryPermissionSpec;
pub use permission::RepositoryPermissionStatus;
pub use repository::RepositoryResponse;
pub use repository::RepositorySpec;
pub use repository::RepositoryStatus;
pub use repository::SecurityAndAnalysisResponse;
pub use repository::SecurityAndAnalysisStatusResponse;
pub use repository::Status;
pub use repository::TeamPermission;
pub use repository::response_auto_configured;
pub use repository::response_of;
pub use repository::security_auto_configured;
pub use update_repository::Repository;
pub use update_repository::UpdateRepository;
pub use update_repository::feature_requests_change;
pub use update_repository::security_requests_change;
pub use update_repository::switch_requests_change;
pub use update_repository::switches_request_change;

use vstd::prelude::*;

verus! {

/// One entry of `.status.conditions`, mirroring the cluster's condition
/// convention: a `type`, a `status` of `True`/`False`/`Unknown`, machine and
/// human readable outcome fields, a timestamp, and the generation the entry
/// was computed from.
pub struct Condition {
    pub type_: String,
    pub status: String,
    pub reason: String,
    pub message: String,
    pub last_transition_time: String,
    pub observed_generation: Option<i64>,
}

/// A repository together with the autolink references configured on it, as
/// returned by the read-only use case.
pub struct RepositoryFullView {
    pub full_name: String,
    pub repository: Option<RepositoryResponse>,
    pub autolink_references: Option<Vec<AutolinkReferenceResponse>>,
}

/// A spec that may enable additional settings before being compared with or
/// sent to the provider. Each implementation fixes the exact relation between
/// the spec before and after the adjustment.
pub trait AutoConfigureSpec: Sized {
    /// The relation that `auto_configure` establishes between the value
    /// before (`pre`) and after (`post`) the call.
    spec fn auto_configured(pre: Self, post: Self) -> bool;

    /// Enable additional settings if necessary.
    fn auto_configure(&mut self)
        ensures
            Self::auto_configured(*old(self), *final(self)),
    ;
}

} // verus!
