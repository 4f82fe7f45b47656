//! Events published on the reconciled objects. Every event uses the fixed
//! reason `Reconciling` with a per-action string; publishing is a
//! best-effort side channel performed outside the verified core.

use vstd::prelude::*;
use vstd::string::StringExecFns;

verus! {

/// The cluster's event classes.
#[derive(Clone, Copy, PartialEq, Eq, Structural)]
pub enum EventCategory {
    Normal,
    Warning,
}

/// One event addressed to the reconciled object's reference.
pub struct ReconcileEvent {
    pub action: String,
    pub reason: String,
    pub note: Option<String>,
    pub category: EventCategory,
}

/// What every reconciliation event of this operator must say: the given
/// action, the fixed reason `Reconciling`, the given note, and the normal
/// class.
pub open spec fn is_reconcile_event(e: ReconcileEvent, action: Seq<char>, note: Seq<char>) -> bool {
    &&& e.action@ == action
    &&& e.reason@ == "Reconciling"@
    &&& e.note matches Some(n) && n@ == note
    &&& e.category is Normal
}

/// The event published after a repository was created at the provider.
pub fn repository_created_event() -> (e: ReconcileEvent)
    ensures
        is_reconcile_event(e, "repository-created"@, "GitHub repository created"@),
{
    ReconcileEvent {
        action: "repository-created".to_owned(),
        reason: "Reconciling".to_owned(),
        note: Some("GitHub repository created".to_owned()),
        category: EventCategory::Normal,
    }
}

/// The event published after a repository update was issued.
pub fn repository_updated_event() -> (e: ReconcileEvent)
    ensures
        is_reconcile_event(e, "repository-updated"@, "GitHub repository updated"@),
{
    ReconcileEvent {
        action: "repository-updated".to_owned(),
        reason: "Reconciling".to_owned(),
        note: Some("GitHub repository updated".to_owned()),
        category: EventCategory::Normal,
    }
}

/// The event published after an autolink reference was created.
pub fn autolink_reference_created_event() -> (e: ReconcileEvent)
    ensures
        is_reconcile_event(e, "autolink-reference-created"@, "Autolink reference created"@),
{
    ReconcileEvent {
        action: "autolink-reference-created".to_owned(),
        reason: "Reconciling".to_owned(),
        note: Some("Autolink reference created".to_owned()),
        category: EventCategory::Normal,
    }
}

/// The event published after an autolink reference was replaced (deleted
/// and re-created under a new id).
pub fn autolink_reference_updated_event() -> (e: ReconcileEvent)
    ensures
        is_reconcile_event(e, "autolink-reference-updated"@, "Autolink reference updated"@),
{
    ReconcileEvent {
        action: "autolink-reference-updated".to_owned(),
        reason: "Reconciling".to_owned(),
        note: Some("Autolink reference updated".to_owned()),
        category: EventCategory::Normal,
    }
}

/// The event published after an autolink reference was deleted on Cleanup.
pub fn autolink_reference_deleted_event() -> (e: ReconcileEvent)
    ensures
        is_reconcile_event(e, "autolink-reference-deleted"@, "Autolink reference deleted"@),
{
    ReconcileEvent {
        action: "autolink-reference-deleted".to_owned(),
        reason: "Reconciling".to_owned(),
        note: Some("Autolink reference deleted".to_owned()),
        category: EventCategory::Normal,
    }
}

/// The event published after a team permission was put in place or changed.
pub fn permission_updated_event() -> (e: ReconcileEvent)
    ensures
        is_reconcile_event(e, "permission-updated"@, "Permission updated"@),
{
    ReconcileEvent {
        action: "permission-updated".to_owned(),
        reason: "Reconciling".to_owned(),
        note: Some("Permission updated".to_owned()),
        category: EventCategory::Normal,
    }
}

/// The event published after a team permission was removed on Cleanup.
pub fn permission_deleted_event() -> (e: ReconcileEvent)
    ensures
        is_reconcile_event(e, "permission-deleted"@, "Permission deleted"@),
{
    ReconcileEvent {
        action: "permission-deleted".to_owned(),
        reason: "Reconciling".to_owned(),
        note: Some("Permission deleted".to_owned()),
        category: EventCategory::Normal,
    }
}

/// The event published by the aggregate reconciler after it added the
/// autolink reference with the given key prefix.
pub fn autolink_reference_added_event(key_prefix: &String) -> (e: ReconcileEvent)
    ensures
        is_reconcile_event(
            e,
            "autolink-reference-added"@,
            "Autolink reference "@ + key_prefix@ + " added"@,
        ),
{
    let mut note: String = "Autolink reference ".to_owned();
    note.append(key_prefix.as_str());
    note.append(" added");
    ReconcileEvent {
        action: "autolink-reference-added".to_owned(),
        reason: "Reconciling".to_owned(),
        note: Some(note),
        category: EventCategory::Normal,
    }
}

/// The event published by the aggregate reconciler after it deleted the
/// autolink reference with the given key prefix.
pub fn autolink_reference_removed_event(key_prefix: &String) -> (e: ReconcileEvent)
    ensures
        is_reconcile_event(
            e,
            "autolink-reference-deleted"@,
            "Autolink reference "@ + key_prefix@ + " deleted"@,
        ),
{
    let mut note: String = "Autolink reference ".to_owned();
    note.append(key_prefix.as_str());
    note.append(" deleted");
    ReconcileEvent {
        action: "autolink-reference-deleted".to_owned(),
        reason: "Reconciling".to_owned(),
        note: Some(note),
        category: EventCategory::Normal,
    }
}

} // verus!
