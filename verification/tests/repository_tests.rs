use github_operator::domain::reconcile_repository_use_case::RepositoryApplyPlan;
use github_operator::domain::reconcile_repository_use_case::configured_update_payload;
use github_operator::domain::reconcile_repository_use_case::plan_repository_apply;
use github_operator::domain::reconcile_repository_use_case::repository_update_action;
use github_operator::domain::archive_repository_use_case::archive_repository;
use github_operator::model::RepositoryResponse;
use github_operator::model::RepositorySpec;
use github_operator::model::SecurityAndAnalysisResponse;
use github_operator::model::SecurityAndAnalysisStatusResponse;
use github_operator::model::Status;

fn spec_for(full_name: &str) -> RepositorySpec {
    RepositorySpec {
        full_name: full_name.to_owned(),
        security_and_analysis: None,
        delete_branch_on_merge: None,
        allow_auto_merge: None,
        allow_squash_merge: None,
        allow_merge_commit: None,
        allow_rebase_merge: None,
        allow_update_branch: None,
    }
}

fn empty_response() -> RepositoryResponse {
    RepositoryResponse {
        security_and_analysis: None,
        delete_branch_on_merge: None,
        allow_auto_merge: None,
        allow_squash_merge: None,
        allow_merge_commit: None,
        allow_rebase_merge: None,
        allow_update_branch: None,
    }
}

/// Declared `delete_branch_on_merge: true`, provider reports `false`:
/// exactly one update, carrying `delete_branch_on_merge: true`.
#[test]
fn differing_repository_gets_one_update() {
    let spec = RepositorySpec { delete_branch_on_merge: Some(true), ..spec_for("acme/api") };
    let actual = RepositoryResponse { delete_branch_on_merge: Some(false), ..empty_response() };
    let plan = plan_repository_apply(&spec, &Some(actual));
    match plan {
        RepositoryApplyPlan::Reconcile { update } => {
            let update = update.expect("an update is owed");
            assert_eq!(update.delete_branch_on_merge, Some(true));
        }
        _ => panic!("an existing repository is reconciled, not created"),
    }
}

/// Provider already reports the declared value: no update call.
#[test]
fn matching_repository_is_a_no_op() {
    let spec = RepositorySpec { delete_branch_on_merge: Some(true), ..spec_for("acme/api") };
    let actual = RepositoryResponse { delete_branch_on_merge: Some(true), ..empty_response() };
    let plan = plan_repository_apply(&spec, &Some(actual));
    match plan {
        RepositoryApplyPlan::Reconcile { update } => assert!(update.is_none()),
        _ => panic!("an existing repository is reconciled, not created"),
    }
}

/// A missing repository is created, carrying the configured payload.
#[test]
fn missing_repository_is_created() {
    let spec = RepositorySpec { allow_auto_merge: Some(true), ..spec_for("acme/api") };
    let plan = plan_repository_apply(&spec, &None);
    match plan {
        RepositoryApplyPlan::CreateThenReconcile { payload } => {
            assert_eq!(payload.allow_auto_merge, Some(true));
        }
        _ => panic!("a missing repository must be created"),
    }
}

/// Two successive successful reconciliations without a spec change: after
/// the update is applied, the second pass owes nothing.
#[test]
fn second_reconciliation_issues_no_update() {
    let spec = RepositorySpec { delete_branch_on_merge: Some(true), ..spec_for("acme/api") };
    let payload = configured_update_payload(&spec);
    // The provider applied the payload: it now reports the declared value.
    let remote_after = RepositoryResponse { delete_branch_on_merge: Some(true), ..empty_response() };
    assert!(!remote_after.differ_from_spec(&payload));
    assert!(repository_update_action(&remote_after, &payload).is_none());
}

/// A spec with only `secret_scanning: enabled` and no `advanced_security`:
/// the update payload asserts `advanced_security: enabled` as well.
#[test]
fn auto_configure_supplies_advanced_security() {
    let spec = RepositorySpec {
        security_and_analysis: Some(SecurityAndAnalysisResponse {
            advanced_security: None,
            secret_scanning: Some(SecurityAndAnalysisStatusResponse { status: Status::Enabled }),
            secret_scanning_push_protection: None,
            dependabot_security_updates: None,
            secret_scanning_validity_checks: None,
        }),
        ..spec_for("acme/api")
    };
    let payload = configured_update_payload(&spec);
    let sa = payload.security_and_analysis.expect("security block is kept");
    assert_eq!(
        sa.advanced_security,
        Some(SecurityAndAnalysisStatusResponse { status: Status::Enabled })
    );
    assert_eq!(
        sa.secret_scanning,
        Some(SecurityAndAnalysisStatusResponse { status: Status::Enabled })
    );
}

/// An advanced-security choice the user made is left alone.
#[test]
fn auto_configure_keeps_explicit_advanced_security() {
    let spec = RepositorySpec {
        security_and_analysis: Some(SecurityAndAnalysisResponse {
            advanced_security: Some(SecurityAndAnalysisStatusResponse {
                status: Status::Disabled,
            }),
            secret_scanning: Some(SecurityAndAnalysisStatusResponse { status: Status::Enabled }),
            secret_scanning_push_protection: None,
            dependabot_security_updates: None,
            secret_scanning_validity_checks: None,
        }),
        ..spec_for("acme/api")
    };
    let payload = configured_update_payload(&spec);
    let sa = payload.security_and_analysis.expect("security block is kept");
    assert_eq!(
        sa.advanced_security,
        Some(SecurityAndAnalysisStatusResponse { status: Status::Disabled })
    );
}

/// Archiving on Cleanup is a reserved hook: it succeeds without a call.
#[test]
fn archive_is_a_no_op_success() {
    assert!(archive_repository().is_ok());
}
