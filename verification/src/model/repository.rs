//! Desired and actual repository configuration.
//!
//! `RepositorySpec` is the user's declared (sparse) configuration;
//! `RepositoryResponse` is the shape the provider reports and the payload an
//! update carries. Unset optional fields of a spec express no opinion.

use vstd::prelude::*;

use crate::model::AutoConfigureSpec;
use crate::model::Condition;

verus! {

/// Desired configuration of the repository named `full_name`
/// (immutable, of the form `owner/name`).
pub struct RepositorySpec {
    pub full_name: String,
    pub security_and_analysis: Option<SecurityAndAnalysisResponse>,
    pub delete_branch_on_merge: Option<bool>,
    pub allow_auto_merge: Option<bool>,
    pub allow_squash_merge: Option<bool>,
    pub allow_merge_commit: Option<bool>,
    pub allow_rebase_merge: Option<bool>,
    pub allow_update_branch: Option<bool>,
}

/// Observed status of a repository resource.
pub struct RepositoryStatus {
    pub conditions: Vec<Condition>,
    pub healthy: Option<bool>,
}

/// Repository configuration as reported by the provider, and as carried by
/// create and update calls.
#[derive(Clone, Copy, Debug)]
pub struct RepositoryResponse {
    pub security_and_analysis: Option<SecurityAndAnalysisResponse>,
    pub delete_branch_on_merge: Option<bool>,
    pub allow_auto_merge: Option<bool>,
    pub allow_squash_merge: Option<bool>,
    pub allow_merge_commit: Option<bool>,
    pub allow_rebase_merge: Option<bool>,
    pub allow_update_branch: Option<bool>,
}

/// The security features of a repository, each independently optional.
#[derive(Clone, Copy, Debug)]
pub struct SecurityAndAnalysisResponse {
    pub advanced_security: Option<SecurityAndAnalysisStatusResponse>,
    pub secret_scanning: Option<SecurityAndAnalysisStatusResponse>,
    pub secret_scanning_push_protection: Option<SecurityAndAnalysisStatusResponse>,
    pub dependabot_security_updates: Option<SecurityAndAnalysisStatusResponse>,
    pub secret_scanning_validity_checks: Option<SecurityAndAnalysisStatusResponse>,
}

/// The switch of one security feature.
#[derive(Clone, Copy, PartialEq, Eq, Structural, Debug)]
pub struct SecurityAndAnalysisStatusResponse {
    pub status: Status,
}

/// Whether a feature is switched on.
#[derive(Clone, Copy, PartialEq, Eq, Structural, Debug)]
pub enum Status {
    Enabled,
    Disabled,
}

/// The role of one team on a repository. `permission` must be one of `pull`,
/// `triage`, `push`, `maintain`, `admin` or the name of an existing custom
/// repository role within the organisation.
pub struct TeamPermission {
    pub org: String,
    pub team_slug: String,
    pub permission: String,
}

/// The adjustment applied to an optional security-and-analysis block: when
/// secret scanning is enabled but advanced security is unset, advanced
/// security is enabled as well, because the provider requires it as a
/// precondition; everything else is left as it is.
pub open spec fn security_auto_configured(
    pre: SecurityAndAnalysisResponse,
) -> SecurityAndAnalysisResponse {
    if pre.secret_scanning matches Some(s) && s.status is Enabled
        && pre.advanced_security is None {
        SecurityAndAnalysisResponse {
            advanced_security: Some(
                SecurityAndAnalysisStatusResponse { status: Status::Enabled },
            ),
            ..pre
        }
    } else {
        pre
    }
}

impl AutoConfigureSpec for Option<SecurityAndAnalysisResponse> {
    open spec fn auto_configured(pre: Self, post: Self) -> bool {
        match pre {
            Option::None => post is None,
            Option::Some(s) => post == Some(security_auto_configured(s)),
        }
    }

    fn auto_configure(&mut self) {
        match self {
            Option::None => {},
            Option::Some(s) => {
                let enable: bool = match (&s.secret_scanning, &s.advanced_security) {
                    (
                        Option::Some(SecurityAndAnalysisStatusResponse { status: Status::Enabled }),
                        Option::None,
                    ) => true,
                    _ => false,
                };
                if enable {
                    s.advanced_security = Some(
                        SecurityAndAnalysisStatusResponse { status: Status::Enabled },
                    );
                }
            },
        }
    }
}

impl AutoConfigureSpec for RepositorySpec {
    open spec fn auto_configured(pre: Self, post: Self) -> bool {
        &&& Option::<SecurityAndAnalysisResponse>::auto_configured(
            pre.security_and_analysis,
            post.security_and_analysis,
        )
        &&& post.full_name == pre.full_name
        &&& post.delete_branch_on_merge == pre.delete_branch_on_merge
        &&& post.allow_auto_merge == pre.allow_auto_merge
        &&& post.allow_squash_merge == pre.allow_squash_merge
        &&& post.allow_merge_commit == pre.allow_merge_commit
        &&& post.allow_rebase_merge == pre.allow_rebase_merge
        &&& post.allow_update_branch == pre.allow_update_branch
    }

    /// Enable additional settings if necessary.
    fn auto_configure(&mut self) {
        self.security_and_analysis.auto_configure();
    }
}

/// The adjustment [`AutoConfigureSpec`] applies to a repository payload:
/// the security block is adjusted, every other field stays.
pub open spec fn response_auto_configured(pre: RepositoryResponse) -> RepositoryResponse {
    RepositoryResponse {
        security_and_analysis: match pre.security_and_analysis {
            Option::None => None,
            Option::Some(sa) => Some(security_auto_configured(sa)),
        },
        ..pre
    }
}

impl AutoConfigureSpec for RepositoryResponse {
    open spec fn auto_configured(pre: Self, post: Self) -> bool {
        post == response_auto_configured(pre)
    }

    /// Enable additional settings if necessary.
    fn auto_configure(&mut self) {
        self.security_and_analysis.auto_configure();
    }
}

/// The update payload carrying exactly the configuration a spec declares.
pub open spec fn response_of(spec: RepositorySpec) -> RepositoryResponse {
    RepositoryResponse {
        security_and_analysis: spec.security_and_analysis,
        delete_branch_on_merge: spec.delete_branch_on_merge,
        allow_auto_merge: spec.allow_auto_merge,
        allow_squash_merge: spec.allow_squash_merge,
        allow_merge_commit: spec.allow_merge_commit,
        allow_rebase_merge: spec.allow_rebase_merge,
        allow_update_branch: spec.allow_update_branch,
    }
}

impl RepositorySpec {
    /// The update payload carrying exactly the configuration this spec
    /// declares.
    pub fn to_response(&self) -> (r: RepositoryResponse)
        ensures
            r == response_of(*self),
    {
        RepositoryResponse {
            security_and_analysis: self.security_and_analysis,
            delete_branch_on_merge: self.delete_branch_on_merge,
            allow_auto_merge: self.allow_auto_merge,
            allow_squash_merge: self.allow_squash_merge,
            allow_merge_commit: self.allow_merge_commit,
            allow_rebase_merge: self.allow_rebase_merge,
            allow_update_branch: self.allow_update_branch,
        }
    }
}

impl<'a> From<&'a RepositorySpec> for RepositoryResponse {
    fn from(spec: &'a RepositorySpec) -> (r: Self) {
        spec.to_response()
    }
}

impl<'a> vstd::std_specs::convert::FromSpecImpl<&'a RepositorySpec> for RepositoryResponse {
    open spec fn obeys_from_spec() -> bool {
        true
    }

    open spec fn from_spec(spec: &'a RepositorySpec) -> Self {
        RepositoryResponse {
            security_and_analysis: spec.security_and_analysis,
            delete_branch_on_merge: spec.delete_branch_on_merge,
            allow_auto_merge: spec.allow_auto_merge,
            allow_squash_merge: spec.allow_squash_merge,
            allow_merge_commit: spec.allow_merge_commit,
            allow_rebase_merge: spec.allow_rebase_merge,
            allow_update_branch: spec.allow_update_branch,
        }
    }
}

} // verus!
