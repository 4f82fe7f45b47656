use github_operator::controller::FinalizerDecision;
use github_operator::controller::State;
use github_operator::controller::add_finalizer_token;
use github_operator::controller::error_requeue_delay_secs;
use github_operator::controller::finalizer_name;
use github_operator::controller::make_autolink_reference_status;
use github_operator::controller::make_permission_status;
use github_operator::controller::make_repository_status;
use github_operator::controller::ready_condition;
use github_operator::controller::remove_finalizer_token;
use github_operator::controller::requeue_delay_secs;
use github_operator::controller::sequence_finalizer;

#[test]
fn finalizer_name_carries_group_and_suffix() {
    assert_eq!(
        finalizer_name("repository"),
        "repository.github.platform.benkeil.de/finalizer"
    );
    assert_eq!(
        finalizer_name("autolink-reference"),
        "autolink-reference.github.platform.benkeil.de/finalizer"
    );
    assert_eq!(
        finalizer_name("permission"),
        "permission.github.platform.benkeil.de/finalizer"
    );
}

#[test]
fn sequencer_routes_the_four_cases() {
    assert!(matches!(sequence_finalizer(false, false), FinalizerDecision::AddToken));
    assert!(matches!(sequence_finalizer(false, true), FinalizerDecision::RunApply));
    assert!(matches!(sequence_finalizer(true, true), FinalizerDecision::RunCleanup));
    assert!(matches!(sequence_finalizer(true, false), FinalizerDecision::Ignore));
}

/// The token is installed before the first Apply runs: a live object
/// without the token is routed to AddToken, and after the add the
/// sequencer routes it to Apply — so any successfully applied object
/// carries the token.
#[test]
fn token_is_present_before_apply_runs() {
    let token = finalizer_name("repository");
    let mut finalizers: Vec<String> = vec!["other.io/keep".to_owned()];
    assert!(matches!(sequence_finalizer(false, false), FinalizerDecision::AddToken));
    add_finalizer_token(&mut finalizers, token.clone());
    assert!(finalizers.contains(&token));
    assert!(matches!(sequence_finalizer(false, true), FinalizerDecision::RunApply));
    // Adding again changes nothing.
    add_finalizer_token(&mut finalizers, token.clone());
    assert_eq!(finalizers.len(), 2);
}

/// A deleted CR whose Cleanup succeeded releases exactly its own token.
#[test]
fn successful_cleanup_releases_the_token() {
    let token = finalizer_name("autolink-reference");
    let mut finalizers: Vec<String> = vec!["other.io/keep".to_owned(), token.clone()];
    assert!(matches!(sequence_finalizer(true, true), FinalizerDecision::RunCleanup));
    remove_finalizer_token(&mut finalizers, &token);
    assert_eq!(finalizers, vec!["other.io/keep".to_owned()]);
    assert!(matches!(sequence_finalizer(true, false), FinalizerDecision::Ignore));
}

#[test]
fn requeue_policy_is_sixty_on_success_five_on_failure() {
    assert_eq!(requeue_delay_secs(true), 60);
    assert_eq!(requeue_delay_secs(false), 5);
    assert_eq!(error_requeue_delay_secs(), 5);
}

#[test]
fn ready_condition_reflects_the_outcome() {
    let ok = ready_condition(true, "2024-01-01T00:00:00Z".to_owned(), Some(3));
    assert_eq!(ok.type_, "Ready");
    assert_eq!(ok.status, "True");
    assert_eq!(ok.reason, "ReconcileSucceed");
    assert_eq!(ok.message, "Reconcile succeed");
    assert_eq!(ok.last_transition_time, "2024-01-01T00:00:00Z");
    assert_eq!(ok.observed_generation, Some(3));

    let failed = ready_condition(false, "2024-01-01T00:00:00Z".to_owned(), None);
    assert_eq!(failed.status, "False");
    assert_eq!(failed.reason, "ReconcileFailed");
    assert_eq!(failed.message, "Reconcile failed");
}

#[test]
fn statuses_mirror_health_and_keep_the_id() {
    let st = make_repository_status(true, "t".to_owned(), Some(1));
    assert_eq!(st.healthy, Some(true));
    assert_eq!(st.conditions.len(), 1);
    assert_eq!(st.conditions[0].status, "True");

    let st = make_autolink_reference_status(true, Some(77), "t".to_owned(), Some(1));
    assert_eq!(st.healthy, Some(true));
    assert_eq!(st.id, Some(77));

    let st = make_autolink_reference_status(false, None, "t".to_owned(), Some(1));
    assert_eq!(st.healthy, Some(false));
    assert_eq!(st.id, None);

    let st = make_permission_status(false, "t".to_owned(), None);
    assert_eq!(st.healthy, Some(false));
    assert_eq!(st.conditions[0].reason, "ReconcileFailed");
}

#[test]
fn state_carries_the_token() {
    let state = State::new("SECRET-REDACTED".to_owned());
    assert_eq!(state.github_token, "SECRET-REDACTED");
}
