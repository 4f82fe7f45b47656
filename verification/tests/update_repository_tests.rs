use github_operator::model::Repository;
use github_operator::model::UpdateRepository;
use github_operator::model::github_repository::SecurityAndAnalysis;
use github_operator::model::github_repository::Status;

fn current() -> Repository {
    Repository {
        delete_branch_on_merge: false,
        allow_auto_merge: false,
        allow_squash_merge: true,
        allow_merge_commit: true,
        allow_rebase_merge: true,
        allow_update_branch: false,
        security_and_analysis: SecurityAndAnalysis {
            secret_scanning: Some(Status::Disabled),
            secret_scanning_push_protection: None,
            dependabot_security_updates: None,
            secret_scanning_validity_checks: None,
        },
    }
}

fn empty_update() -> UpdateRepository {
    UpdateRepository {
        delete_branch_on_merge: None,
        allow_auto_merge: None,
        allow_squash_merge: None,
        allow_merge_commit: None,
        allow_rebase_merge: None,
        allow_update_branch: None,
        security_and_analysis: None,
    }
}

#[test]
fn empty_update_changes_nothing() {
    assert!(!current().changed(&empty_update()));
}

/// A single set field that mismatches decides: one differing merge switch
/// alone, one differing security setting alone, or both, each report a
/// change.
#[test]
fn any_single_set_field_mismatch_is_a_change() {
    let both = UpdateRepository {
        delete_branch_on_merge: Some(true),
        security_and_analysis: Some(SecurityAndAnalysis {
            secret_scanning: Some(Status::Enabled),
            secret_scanning_push_protection: None,
            dependabot_security_updates: None,
            secret_scanning_validity_checks: None,
        }),
        ..empty_update()
    };
    assert!(current().changed(&both));

    let only_switch = UpdateRepository {
        delete_branch_on_merge: Some(true),
        ..empty_update()
    };
    assert!(current().changed(&only_switch));

    let only_security = UpdateRepository {
        security_and_analysis: Some(SecurityAndAnalysis {
            secret_scanning: Some(Status::Enabled),
            secret_scanning_push_protection: None,
            dependabot_security_updates: None,
            secret_scanning_validity_checks: None,
        }),
        ..empty_update()
    };
    assert!(current().changed(&only_security));
}

#[test]
fn update_matching_the_current_state_is_no_change() {
    let matching = UpdateRepository {
        delete_branch_on_merge: Some(false),
        allow_squash_merge: Some(true),
        security_and_analysis: Some(SecurityAndAnalysis {
            secret_scanning: Some(Status::Disabled),
            secret_scanning_push_protection: None,
            dependabot_security_updates: None,
            secret_scanning_validity_checks: None,
        }),
        ..empty_update()
    };
    assert!(!current().changed(&matching));
}
