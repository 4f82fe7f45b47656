//! The use cases of the operator: for each custom-resource kind the
//! decisions its Apply and Cleanup reconciliations take, as functions from
//! the observed state to the side effects owed. The surrounding runtime
//! performs the provider calls and feeds their results back in.

pub mod archive_github_repository_use_case;
pub mod archive_repository_use_case;
pub mod delete_autolink_reference_use_case;
pub mod delete_permissions_use_case;
pub mod get_github_repository_use_case;
pub mod get_repository_use_case;
pub mod reconcile_autolink_reference_use_case;
pub mod reconcile_github_repository_use_case;
pub mod reconcile_permissions_use_case;
pub mod reconcile_repository_use_case;
