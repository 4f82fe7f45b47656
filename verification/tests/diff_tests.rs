use github_operator::model::RepositoryResponse;
use github_operator::model::SecurityAndAnalysisResponse;
use github_operator::model::SecurityAndAnalysisStatusResponse;
use github_operator::model::Status;

fn empty_response() -> RepositoryResponse {
    RepositoryResponse {
        security_and_analysis: None,
        delete_branch_on_merge: None,
        allow_auto_merge: None,
        allow_squash_merge: None,
        allow_merge_commit: None,
        allow_rebase_merge: None,
        allow_update_branch: None,
    }
}

fn enabled() -> Option<SecurityAndAnalysisStatusResponse> {
    Some(SecurityAndAnalysisStatusResponse { status: Status::Enabled })
}

fn disabled() -> Option<SecurityAndAnalysisStatusResponse> {
    Some(SecurityAndAnalysisStatusResponse { status: Status::Disabled })
}

#[test]
fn diff_is_reflexive() {
    let full = RepositoryResponse {
        security_and_analysis: Some(SecurityAndAnalysisResponse {
            advanced_security: enabled(),
            secret_scanning: enabled(),
            secret_scanning_push_protection: disabled(),
            dependabot_security_updates: None,
            secret_scanning_validity_checks: None,
        }),
        delete_branch_on_merge: Some(true),
        allow_auto_merge: Some(false),
        allow_squash_merge: None,
        allow_merge_commit: None,
        allow_rebase_merge: Some(true),
        allow_update_branch: None,
    };
    assert!(!full.differ_from_spec(&full));
    assert!(!empty_response().differ_from_spec(&empty_response()));
}

#[test]
fn unset_spec_fields_put_no_constraint() {
    let spec = empty_response();
    let actual = RepositoryResponse {
        delete_branch_on_merge: Some(false),
        allow_auto_merge: Some(true),
        ..empty_response()
    };
    assert!(!actual.differ_from_spec(&spec));
}

#[test]
fn set_scalar_must_match() {
    let spec = RepositoryResponse { delete_branch_on_merge: Some(true), ..empty_response() };
    let actual_differs =
        RepositoryResponse { delete_branch_on_merge: Some(false), ..empty_response() };
    let actual_missing = empty_response();
    let actual_matches =
        RepositoryResponse { delete_branch_on_merge: Some(true), ..empty_response() };
    assert!(actual_differs.differ_from_spec(&spec));
    assert!(actual_missing.differ_from_spec(&spec));
    assert!(!actual_matches.differ_from_spec(&spec));
}

#[test]
fn missing_security_block_differs_when_spec_asserts_it() {
    let spec = RepositoryResponse {
        security_and_analysis: Some(SecurityAndAnalysisResponse {
            advanced_security: enabled(),
            secret_scanning: None,
            secret_scanning_push_protection: None,
            dependabot_security_updates: None,
            secret_scanning_validity_checks: None,
        }),
        ..empty_response()
    };
    assert!(empty_response().differ_from_spec(&spec));
}

#[test]
fn nested_security_fields_compare_field_by_field() {
    let spec = RepositoryResponse {
        security_and_analysis: Some(SecurityAndAnalysisResponse {
            advanced_security: None,
            secret_scanning: enabled(),
            secret_scanning_push_protection: None,
            dependabot_security_updates: None,
            secret_scanning_validity_checks: None,
        }),
        ..empty_response()
    };
    let actual_matches = RepositoryResponse {
        security_and_analysis: Some(SecurityAndAnalysisResponse {
            advanced_security: disabled(),
            secret_scanning: enabled(),
            secret_scanning_push_protection: enabled(),
            dependabot_security_updates: None,
            secret_scanning_validity_checks: None,
        }),
        ..empty_response()
    };
    let actual_differs = RepositoryResponse {
        security_and_analysis: Some(SecurityAndAnalysisResponse {
            advanced_security: None,
            secret_scanning: disabled(),
            secret_scanning_push_protection: None,
            dependabot_security_updates: None,
            secret_scanning_validity_checks: None,
        }),
        ..empty_response()
    };
    assert!(!actual_matches.differ_from_spec(&spec));
    assert!(actual_differs.differ_from_spec(&spec));
}

/// Enabling a previously unset spec field never lets a satisfying actual
/// value slip: the stronger spec still rejects what the weaker one would.
#[test]
fn enabling_a_spec_field_only_adds_constraints() {
    let weaker = RepositoryResponse { delete_branch_on_merge: Some(true), ..empty_response() };
    let stronger = RepositoryResponse { allow_auto_merge: Some(true), ..weaker };
    let actual = RepositoryResponse {
        delete_branch_on_merge: Some(true),
        allow_auto_merge: Some(true),
        ..empty_response()
    };
    assert!(!actual.differ_from_spec(&stronger));
    assert!(!actual.differ_from_spec(&weaker));
}
