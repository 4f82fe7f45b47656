//! The aggregate repository resource: one object that declares the
//! repository configuration together with its autolink references.

use vstd::prelude::*;

verus! {

/// Desired state of a repository with all of its satellite settings.
pub struct GitHubRepositorySpec {
    pub full_name: String,
    pub actions: Option<ActionsSettings>,
    pub delete_branch_on_merge: Option<bool>,
    pub allow_auto_merge: Option<bool>,
    pub allow_squash_merge: Option<bool>,
    pub allow_merge_commit: Option<bool>,
    pub allow_rebase_merge: Option<bool>,
    pub allow_update_branch: Option<bool>,
    pub autolink_references: Option<Vec<AutolinkReference>>,
    pub security_and_analysis: Option<SecurityAndAnalysis>,
}

/// Workflow settings of a repository.
pub struct ActionsSettings {
    pub access: Option<AccessSettings>,
}

/// Who may use the repository's workflows.
#[derive(Clone, Copy, PartialEq, Eq, Structural, Debug)]
pub enum AccessSettings {
    NoAccess,
    Organization,
    Enterprise,
}

/// One autolink reference as declared on the aggregate resource.
pub struct AutolinkReference {
    pub key_prefix: String,
    pub url_template: String,
    pub is_alphanumeric: bool,
}

/// The security features declared on the aggregate resource.
pub struct SecurityAndAnalysis {
    pub secret_scanning: Option<Status>,
    pub secret_scanning_push_protection: Option<Status>,
    pub dependabot_security_updates: Option<Status>,
    pub secret_scanning_validity_checks: Option<Status>,
}

/// Whether a feature is switched on.
#[derive(Clone, Copy, PartialEq, Eq, Structural, Debug)]
pub enum Status {
    Enabled,
    Disabled,
}

/// Whether one of the declared references carries the given key prefix.
pub open spec fn references_have_key(
    references: Seq<AutolinkReference>,
    key_prefix: Seq<char>,
) -> bool {
    exists|i: int| 0 <= i < references.len() && references[i].key_prefix@ == key_prefix
}

impl AutolinkReference {
    /// A copy of this reference with the same fields.
    pub fn duplicate(&self) -> (r: Self)
        ensures
            r == *self,
    {
        AutolinkReference {
            key_prefix: self.key_prefix.clone(),
            url_template: self.url_template.clone(),
            is_alphanumeric: self.is_alphanumeric,
        }
    }
}

} // verus!
