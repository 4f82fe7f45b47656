//! Structural diff of an actual value against a sparse spec.
//!
//! The spec is a subset assertion, not an equality: unset optional fields of
//! the spec put no constraint on the actual value, a set scalar must be met
//! exactly, and a set nested block recurses field by field — a block the
//! actual value lacks while the spec asserts it counts as a difference. This
//! keeps fields the user declared no opinion on from causing spurious
//! updates.

use vstd::prelude::*;

use crate::model::AutolinkReferenceRequest;
use crate::model::RepositoryResponse;
use crate::model::SecurityAndAnalysisResponse;
use crate::model::SecurityAndAnalysisStatusResponse;

verus! {

/// Whether an actual scalar misses a sparse scalar constraint: the spec must
/// be set, and the actual value must be absent or different.
pub open spec fn scalar_differs_from_spec<T>(actual: Option<T>, spec: Option<T>) -> bool {
    match spec {
        Option::None => false,
        Option::Some(s) => match actual {
            Option::None => true,
            Option::Some(a) => a != s,
        },
    }
}

/// Whether an actual security block misses the spec's security constraints.
pub open spec fn security_differs_from_spec(
    actual: Option<SecurityAndAnalysisResponse>,
    spec: Option<SecurityAndAnalysisResponse>,
) -> bool {
    match spec {
        Option::None => false,
        Option::Some(s) => match actual {
            Option::None => true,
            Option::Some(a) => {
                ||| scalar_differs_from_spec(a.advanced_security, s.advanced_security)
                ||| scalar_differs_from_spec(a.secret_scanning, s.secret_scanning)
                ||| scalar_differs_from_spec(
                    a.secret_scanning_push_protection,
                    s.secret_scanning_push_protection,
                )
                ||| scalar_differs_from_spec(
                    a.dependabot_security_updates,
                    s.dependabot_security_updates,
                )
                ||| scalar_differs_from_spec(
                    a.secret_scanning_validity_checks,
                    s.secret_scanning_validity_checks,
                )
            },
        },
    }
}

/// Whether an actual repository configuration misses any constraint of a
/// sparse repository spec.
pub open spec fn repository_differs_from_spec(
    actual: RepositoryResponse,
    spec: RepositoryResponse,
) -> bool {
    ||| security_differs_from_spec(actual.security_and_analysis, spec.security_and_analysis)
    ||| scalar_differs_from_spec(actual.delete_branch_on_merge, spec.delete_branch_on_merge)
    ||| scalar_differs_from_spec(actual.allow_auto_merge, spec.allow_auto_merge)
    ||| scalar_differs_from_spec(actual.allow_squash_merge, spec.allow_squash_merge)
    ||| scalar_differs_from_spec(actual.allow_merge_commit, spec.allow_merge_commit)
    ||| scalar_differs_from_spec(actual.allow_rebase_merge, spec.allow_rebase_merge)
    ||| scalar_differs_from_spec(actual.allow_update_branch, spec.allow_update_branch)
}

/// Whether an actual autolink reference differs from the declared one. All
/// fields of an autolink request are mandatory, so this is field equality
/// over `(key_prefix, url_template, is_alphanumeric)`.
pub open spec fn autolink_differs_from_spec(
    actual: AutolinkReferenceRequest,
    spec: AutolinkReferenceRequest,
) -> bool {
    ||| actual.key_prefix@ != spec.key_prefix@
    ||| actual.url_template@ != spec.url_template@
    ||| actual.is_alphanumeric != spec.is_alphanumeric
}

/// Executable mirror of [`scalar_differs_from_spec`] for feature switches.
fn feature_differs(
    actual: &Option<SecurityAndAnalysisStatusResponse>,
    spec: &Option<SecurityAndAnalysisStatusResponse>,
) -> (r: bool)
    ensures
        r == scalar_differs_from_spec(*actual, *spec),
{
    match (spec, actual) {
        (Option::None, _) => false,
        (Option::Some(_), Option::None) => true,
        (Option::Some(s), Option::Some(a)) => a.status != s.status,
    }
}

/// Executable mirror of [`scalar_differs_from_spec`] for boolean switches.
fn switch_differs(actual: &Option<bool>, spec: &Option<bool>) -> (r: bool)
    ensures
        r == scalar_differs_from_spec(*actual, *spec),
{
    match (spec, actual) {
        (Option::None, _) => false,
        (Option::Some(_), Option::None) => true,
        (Option::Some(s), Option::Some(a)) => *a != *s,
    }
}

impl RepositoryResponse {
    /// Whether this (actual) configuration misses any constraint of the
    /// given sparse spec. The first difference found decides.
    pub fn differ_from_spec(&self, spec: &RepositoryResponse) -> (r: bool)
        ensures
            r == repository_differs_from_spec(*self, *spec),
    {
        let security: bool = match (&spec.security_and_analysis, &self.security_and_analysis) {
            (Option::None, _) => false,
            (Option::Some(_), Option::None) => true,
            (Option::Some(s), Option::Some(a)) => {
                feature_differs(&a.advanced_security, &s.advanced_security)
                    || feature_differs(&a.secret_scanning, &s.secret_scanning)
                    || feature_differs(
                        &a.secret_scanning_push_protection,
                        &s.secret_scanning_push_protection,
                    )
                    || feature_differs(
                        &a.dependabot_security_updates,
                        &s.dependabot_security_updates,
                    )
                    || feature_differs(
                        &a.secret_scanning_validity_checks,
                        &s.secret_scanning_validity_checks,
                    )
            },
        };
        security || switch_differs(&self.delete_branch_on_merge, &spec.delete_branch_on_merge)
            || switch_differs(&self.allow_auto_merge, &spec.allow_auto_merge)
            || switch_differs(&self.allow_squash_merge, &spec.allow_squash_merge)
            || switch_differs(&self.allow_merge_commit, &spec.allow_merge_commit)
            || switch_differs(&self.allow_rebase_merge, &spec.allow_rebase_merge)
            || switch_differs(&self.allow_update_branch, &spec.allow_update_branch)
    }
}

impl AutolinkReferenceRequest {
    /// Whether this (actual) reference differs from the declared one.
    pub fn differ_from_spec(&self, spec: &AutolinkReferenceRequest) -> (r: bool)
        ensures
            r == autolink_differs_from_spec(*self, *spec),
    {
        self.key_prefix != spec.key_prefix || self.url_template != spec.url_template
            || self.is_alphanumeric != spec.is_alphanumeric
    }
}

/// A value never differs from itself taken as a spec: the diff is reflexive.
pub proof fn lemma_differ_from_spec_reflexive(x: RepositoryResponse)
    ensures
        !repository_differs_from_spec(x, x),
{
}

/// Whether `stronger` asserts every constraint `weaker` asserts (with the
/// same required values), and possibly more: enabling previously unset spec
/// fields moves a spec up this order.
pub open spec fn spec_constrains_at_least(
    stronger: RepositoryResponse,
    weaker: RepositoryResponse,
) -> bool {
    &&& (weaker.security_and_analysis matches Some(w) ==> {
        &&& stronger.security_and_analysis is Some
        &&& {
            let s = stronger.security_and_analysis->0;
            &&& (w.advanced_security is Some ==> s.advanced_security == w.advanced_security)
            &&& (w.secret_scanning is Some ==> s.secret_scanning == w.secret_scanning)
            &&& (w.secret_scanning_push_protection is Some ==> s.secret_scanning_push_protection
                == w.secret_scanning_push_protection)
            &&& (w.dependabot_security_updates is Some ==> s.dependabot_security_updates
                == w.dependabot_security_updates)
            &&& (w.secret_scanning_validity_checks is Some ==> s.secret_scanning_validity_checks
                == w.secret_scanning_validity_checks)
        }
    })
    &&& (weaker.delete_branch_on_merge is Some ==> stronger.delete_branch_on_merge
        == weaker.delete_branch_on_merge)
    &&& (weaker.allow_auto_merge is Some ==> stronger.allow_auto_merge == weaker.allow_auto_merge)
    &&& (weaker.allow_squash_merge is Some ==> stronger.allow_squash_merge
        == weaker.allow_squash_merge)
    &&& (weaker.allow_merge_commit is Some ==> stronger.allow_merge_commit
        == weaker.allow_merge_commit)
    &&& (weaker.allow_rebase_merge is Some ==> stronger.allow_rebase_merge
        == weaker.allow_rebase_merge)
    &&& (weaker.allow_update_branch is Some ==> stronger.allow_update_branch
        == weaker.allow_update_branch)
}

/// The diff is monotone in the spec: an actual value that satisfies a
/// stronger spec satisfies every weaker one, so enabling a previously unset
/// spec field never makes a previously satisfying actual value satisfy the
/// remaining constraints less.
pub proof fn lemma_differ_from_spec_monotone(
    actual: RepositoryResponse,
    stronger: RepositoryResponse,
    weaker: RepositoryResponse,
)
    requires
        spec_constrains_at_least(stronger, weaker),
        !repository_differs_from_spec(actual, stronger),
    ensures
        !repository_differs_from_spec(actual, weaker),
{
}

/// The configuration the provider reports after applying the update payload
/// of `spec` on top of `actual`: every field the spec sets now holds the
/// spec's value, every other field keeps the actual value.
pub open spec fn updated_with_spec(
    actual: RepositoryResponse,
    spec: RepositoryResponse,
) -> RepositoryResponse {
    RepositoryResponse {
        security_and_analysis: match spec.security_and_analysis {
            Option::None => actual.security_and_analysis,
            Option::Some(s) => {
                let a = match actual.security_and_analysis {
                    Option::None => SecurityAndAnalysisResponse {
                        advanced_security: None,
                        secret_scanning: None,
                        secret_scanning_push_protection: None,
                        dependabot_security_updates: None,
                        secret_scanning_validity_checks: None,
                    },
                    Option::Some(a) => a,
                };
                Some(
                    SecurityAndAnalysisResponse {
                        advanced_security: if s.advanced_security is Some {
                            s.advanced_security
                        } else {
                            a.advanced_security
                        },
                        secret_scanning: if s.secret_scanning is Some {
                            s.secret_scanning
                        } else {
                            a.secret_scanning
                        },
                        secret_scanning_push_protection: if s.secret_scanning_push_protection
                            is Some {
                            s.secret_scanning_push_protection
                        } else {
                            a.secret_scanning_push_protection
                        },
                        dependabot_security_updates: if s.dependabot_security_updates is Some {
                            s.dependabot_security_updates
                        } else {
                            a.dependabot_security_updates
                        },
                        secret_scanning_validity_checks: if s.secret_scanning_validity_checks
                            is Some {
                            s.secret_scanning_validity_checks
                        } else {
                            a.secret_scanning_validity_checks
                        },
                    },
                )
            },
        },
        delete_branch_on_merge: if spec.delete_branch_on_merge is Some {
            spec.delete_branch_on_merge
        } else {
            actual.delete_branch_on_merge
        },
        allow_auto_merge: if spec.allow_auto_merge is Some {
            spec.allow_auto_merge
        } else {
            actual.allow_auto_merge
        },
        allow_squash_merge: if spec.allow_squash_merge is Some {
            spec.allow_squash_merge
        } else {
            actual.allow_squash_merge
        },
        allow_merge_commit: if spec.allow_merge_commit is Some {
            spec.allow_merge_commit
        } else {
            actual.allow_merge_commit
        },
        allow_rebase_merge: if spec.allow_rebase_merge is Some {
            spec.allow_rebase_merge
        } else {
            actual.allow_rebase_merge
        },
        allow_update_branch: if spec.allow_update_branch is Some {
            spec.allow_update_branch
        } else {
            actual.allow_update_branch
        },
    }
}

/// A provider state that has the spec's update payload applied no longer
/// differs from the spec: a successful reconciliation converges.
pub proof fn lemma_updated_no_longer_differs(
    actual: RepositoryResponse,
    spec: RepositoryResponse,
)
    ensures
        !repository_differs_from_spec(updated_with_spec(actual, spec), spec),
{
}

} // verus!
