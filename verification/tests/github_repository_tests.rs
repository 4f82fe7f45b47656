use github_operator::domain::get_github_repository_use_case::build_github_repository_spec;
use github_operator::domain::get_repository_use_case::build_repository_full_view;
use github_operator::domain::get_github_repository_use_case::to_autolink_references;
use github_operator::domain::reconcile_github_repository_use_case::autolinks_to_add;
use github_operator::domain::reconcile_github_repository_use_case::autolinks_to_delete;
use github_operator::domain::reconcile_github_repository_use_case::configure_spec_repository;
use github_operator::events::autolink_reference_added_event;
use github_operator::events::repository_updated_event;
use github_operator::model::AutolinkReferenceResponse;
use github_operator::model::RepositoryResponse;
use github_operator::model::SecurityAndAnalysisResponse;
use github_operator::model::SecurityAndAnalysisStatusResponse;
use github_operator::model::Status;
use github_operator::model::UpdateRepository;
use github_operator::model::github_repository::AutolinkReference;

fn declared(key_prefix: &str) -> AutolinkReference {
    AutolinkReference {
        key_prefix: key_prefix.to_owned(),
        url_template: "https://x/<num>".to_owned(),
        is_alphanumeric: false,
    }
}

fn remote(id: u32, key_prefix: &str) -> AutolinkReferenceResponse {
    AutolinkReferenceResponse {
        id,
        key_prefix: key_prefix.to_owned(),
        url_template: "https://x/<num>".to_owned(),
        is_alphanumeric: false,
    }
}

#[test]
fn declared_but_absent_references_are_added() {
    let spec = vec![declared("TICKET-"), declared("ISSUE-")];
    let actual = vec![remote(2, "ISSUE-"), remote(3, "JIRA-")];
    let to_add = autolinks_to_add(&spec, &actual);
    assert_eq!(to_add.len(), 1);
    assert_eq!(to_add[0].key_prefix, "TICKET-");
}

#[test]
fn undeclared_remote_references_are_deleted() {
    let spec = vec![declared("TICKET-"), declared("ISSUE-")];
    let actual = vec![remote(2, "ISSUE-"), remote(3, "JIRA-")];
    assert_eq!(autolinks_to_delete(&spec, &actual), vec![3]);
}

/// An empty declared list deletes nothing: unrelated remote autolinks
/// survive a reconciliation that declares no references.
#[test]
fn empty_declaration_deletes_no_autolinks() {
    let actual = vec![remote(2, "ISSUE-"), remote(3, "JIRA-")];
    assert!(autolinks_to_delete(&vec![], &actual).is_empty());
    assert!(autolinks_to_add(&vec![], &actual).is_empty());
}

#[test]
fn matching_reference_sets_need_no_calls() {
    let spec = vec![declared("TICKET-")];
    let actual = vec![remote(1, "TICKET-")];
    assert!(autolinks_to_add(&spec, &actual).is_empty());
    assert!(autolinks_to_delete(&spec, &actual).is_empty());
}

#[test]
fn aggregate_configure_enables_advanced_security() {
    let spec_repository = RepositoryResponse {
        security_and_analysis: Some(SecurityAndAnalysisResponse {
            advanced_security: None,
            secret_scanning: Some(SecurityAndAnalysisStatusResponse { status: Status::Enabled }),
            secret_scanning_push_protection: None,
            dependabot_security_updates: None,
            secret_scanning_validity_checks: None,
        }),
        delete_branch_on_merge: None,
        allow_auto_merge: None,
        allow_squash_merge: None,
        allow_merge_commit: None,
        allow_rebase_merge: None,
        allow_update_branch: None,
    };
    let configured = configure_spec_repository(&spec_repository);
    let sa = configured.security_and_analysis.expect("security block is kept");
    assert_eq!(
        sa.advanced_security,
        Some(SecurityAndAnalysisStatusResponse { status: Status::Enabled })
    );
}

#[test]
fn responses_project_onto_declared_shape() {
    let items = vec![remote(1, "TICKET-"), remote(2, "ISSUE-")];
    let refs = to_autolink_references(&items);
    assert_eq!(refs.len(), 2);
    assert_eq!(refs[0].key_prefix, "TICKET-");
    assert_eq!(refs[1].key_prefix, "ISSUE-");
    assert_eq!(refs[0].url_template, "https://x/<num>");
}

#[test]
fn aggregate_view_reports_empty_reference_list_as_none() {
    let repository = RepositoryResponse {
        security_and_analysis: None,
        delete_branch_on_merge: Some(true),
        allow_auto_merge: None,
        allow_squash_merge: None,
        allow_merge_commit: None,
        allow_rebase_merge: None,
        allow_update_branch: None,
    };
    let spec = build_github_repository_spec("acme/api".to_owned(), repository, vec![]);
    assert_eq!(spec.full_name, "acme/api");
    assert!(spec.autolink_references.is_none());
    assert!(spec.permissions.is_none());
    assert_eq!(spec.repository.unwrap().delete_branch_on_merge, Some(true));

    let spec = build_github_repository_spec(
        "acme/api".to_owned(),
        repository,
        vec![declared("TICKET-")],
    );
    assert_eq!(spec.autolink_references.unwrap().len(), 1);
}

#[test]
fn full_view_reports_empty_reference_list_as_none() {
    let repository = RepositoryResponse {
        security_and_analysis: None,
        delete_branch_on_merge: None,
        allow_auto_merge: None,
        allow_squash_merge: None,
        allow_merge_commit: None,
        allow_rebase_merge: None,
        allow_update_branch: None,
    };
    let view = build_repository_full_view("acme/api".to_owned(), repository, vec![]);
    assert_eq!(view.full_name, "acme/api");
    assert!(view.autolink_references.is_none());
    let view =
        build_repository_full_view("acme/api".to_owned(), repository, vec![remote(1, "T-")]);
    assert_eq!(view.autolink_references.unwrap().len(), 1);
}

#[test]
fn any_set_sees_only_merge_switches() {
    let update = UpdateRepository {
        delete_branch_on_merge: None,
        allow_auto_merge: None,
        allow_squash_merge: None,
        allow_merge_commit: None,
        allow_rebase_merge: None,
        allow_update_branch: None,
        security_and_analysis: None,
    };
    assert!(!update.any_set());
    let update = UpdateRepository { allow_rebase_merge: Some(false), ..update };
    assert!(update.any_set());
}

#[test]
fn events_carry_action_and_note() {
    let e = repository_updated_event();
    assert_eq!(e.action, "repository-updated");
    assert_eq!(e.reason, "Reconciling");
    assert_eq!(e.note.unwrap(), "GitHub repository updated");

    let e = autolink_reference_added_event(&"TICKET-".to_owned());
    assert_eq!(e.action, "autolink-reference-added");
    assert_eq!(e.note.unwrap(), "Autolink reference TICKET- added");
}
