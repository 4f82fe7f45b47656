//! A partial update of repository settings: every set field requests a
//! change, every unset field leaves the current value alone.

use vstd::prelude::*;

use crate::model::github_repository::SecurityAndAnalysis;
use crate::model::github_repository::Status;

verus! {

/// The fields an update may carry.
pub struct UpdateRepository {
    pub delete_branch_on_merge: Option<bool>,
    pub allow_auto_merge: Option<bool>,
    pub allow_squash_merge: Option<bool>,
    pub allow_merge_commit: Option<bool>,
    pub allow_rebase_merge: Option<bool>,
    pub allow_update_branch: Option<bool>,
    pub security_and_analysis: Option<SecurityAndAnalysis>,
}

/// The settings of a repository as currently known, with every switch
/// resolved to a concrete value.
pub struct Repository {
    pub delete_branch_on_merge: bool,
    pub allow_auto_merge: bool,
    pub allow_squash_merge: bool,
    pub allow_merge_commit: bool,
    pub allow_rebase_merge: bool,
    pub allow_update_branch: bool,
    pub security_and_analysis: SecurityAndAnalysis,
}

/// Whether an optional feature request asks for a state other than the
/// current one. An unset request asks for nothing.
pub open spec fn feature_requests_change(current: Option<Status>, requested: Option<Status>) -> bool {
    match requested {
        Option::None => false,
        Option::Some(v) => current != Some(v),
    }
}

/// Whether an optional boolean request asks for a state other than the
/// current one.
pub open spec fn switch_requests_change(current: bool, requested: Option<bool>) -> bool {
    match requested {
        Option::None => false,
        Option::Some(v) => current != v,
    }
}

/// Whether the security block of an update asks for any change against the
/// current security settings.
pub open spec fn security_requests_change(
    current: SecurityAndAnalysis,
    requested: Option<SecurityAndAnalysis>,
) -> bool {
    match requested {
        Option::None => false,
        Option::Some(u) => {
            ||| feature_requests_change(current.dependabot_security_updates, u.dependabot_security_updates)
            ||| feature_requests_change(current.secret_scanning, u.secret_scanning)
            ||| feature_requests_change(
                current.secret_scanning_push_protection,
                u.secret_scanning_push_protection,
            )
            ||| feature_requests_change(
                current.secret_scanning_validity_checks,
                u.secret_scanning_validity_checks,
            )
        },
    }
}

/// Whether any merge-policy switch of an update asks for a change against
/// the current settings.
pub open spec fn switches_request_change(current: Repository, update: UpdateRepository) -> bool {
    ||| switch_requests_change(current.delete_branch_on_merge, update.delete_branch_on_merge)
    ||| switch_requests_change(current.allow_auto_merge, update.allow_auto_merge)
    ||| switch_requests_change(current.allow_squash_merge, update.allow_squash_merge)
    ||| switch_requests_change(current.allow_merge_commit, update.allow_merge_commit)
    ||| switch_requests_change(current.allow_rebase_merge, update.allow_rebase_merge)
    ||| switch_requests_change(current.allow_update_branch, update.allow_update_branch)
}

impl UpdateRepository {
    /// Whether the update carries any merge-policy switch at all.
    pub fn any_set(&self) -> (r: bool)
        ensures
            r == {
                ||| self.delete_branch_on_merge is Some
                ||| self.allow_auto_merge is Some
                ||| self.allow_squash_merge is Some
                ||| self.allow_merge_commit is Some
                ||| self.allow_rebase_merge is Some
                ||| self.allow_update_branch is Some
            },
    {
        self.delete_branch_on_merge.is_some() || self.allow_auto_merge.is_some()
            || self.allow_squash_merge.is_some() || self.allow_merge_commit.is_some()
            || self.allow_rebase_merge.is_some() || self.allow_update_branch.is_some()
    }
}

impl Repository {
    /// Whether the update asks for any change against the current state: a
    /// single set field that mismatches — a security setting or a
    /// merge-policy switch — decides.
    pub fn changed(&self, other: &UpdateRepository) -> (r: bool)
        ensures
            r == (security_requests_change(self.security_and_analysis, other.security_and_analysis)
                || switches_request_change(*self, *other)),
    {
        let security_and_analysis_changed: bool = match &other.security_and_analysis {
            Option::None => false,
            Option::Some(u) => {
                feature_changed(&self.security_and_analysis.dependabot_security_updates, &u.dependabot_security_updates)
                    || feature_changed(&self.security_and_analysis.secret_scanning, &u.secret_scanning)
                    || feature_changed(
                        &self.security_and_analysis.secret_scanning_push_protection,
                        &u.secret_scanning_push_protection,
                    )
                    || feature_changed(
                        &self.security_and_analysis.secret_scanning_validity_checks,
                        &u.secret_scanning_validity_checks,
                    )
            },
        };
        let fields_changed: bool = switch_changed(self.delete_branch_on_merge, &other.delete_branch_on_merge)
            || switch_changed(self.allow_auto_merge, &other.allow_auto_merge)
            || switch_changed(self.allow_squash_merge, &other.allow_squash_merge)
            || switch_changed(self.allow_merge_commit, &other.allow_merge_commit)
            || switch_changed(self.allow_rebase_merge, &other.allow_rebase_merge)
            || switch_changed(self.allow_update_branch, &other.allow_update_branch);
        security_and_analysis_changed || fields_changed
    }
}

/// Executable mirror of [`feature_requests_change`].
fn feature_changed(current: &Option<Status>, requested: &Option<Status>) -> (r: bool)
    ensures
        r == feature_requests_change(*current, *requested),
{
    match (requested, current) {
        (Option::None, _) => false,
        (Option::Some(_), Option::None) => true,
        (Option::Some(v), Option::Some(c)) => *c != *v,
    }
}

/// Executable mirror of [`switch_requests_change`].
fn switch_changed(current: bool, requested: &Option<bool>) -> (r: bool)
    ensures
        r == switch_requests_change(current, *requested),
{
    match requested {
        Option::None => false,
        Option::Some(v) => current != *v,
    }
}

} // verus!
