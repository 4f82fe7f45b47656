//! The per-kind reconciler runtime's decision surface: finalizer sequencing,
//! the requeue policy, finalizer token handling, and the status and event
//! values written after each attempt.
//!
//! The event-driven loop itself (watches, work queue, patches) runs outside
//! the verified core and consults these functions for every decision.

use vstd::prelude::*;
use vstd::string::StringExecFns;

use crate::model::AutolinkReferenceStatus;
use crate::model::Condition;
use crate::model::RepositoryPermissionStatus;
use crate::model::RepositoryStatus;
use crate::strings_contain;

verus! {

/// Shared configuration of the operator process.
#[derive(Clone)]
pub struct State {
    pub github_token: String,
}

impl State {
    /// A state carrying the given provider token.
    pub fn new(github_token: String) -> (s: State)
        ensures
            s.github_token@ == github_token@,
    {
        State { github_token }
    }
}

/// The finalizer token of the controller with the given name.
pub fn finalizer_name(controller_name: &str) -> (r: String)
    ensures
        r@ == controller_name@ + ".github.platform.benkeil.de/finalizer"@,
{
    let mut name: String = controller_name.to_owned();
    name.append(".github.platform.benkeil.de/finalizer");
    name
}

/// What the finalizer sequencer does with one dequeued object.
#[derive(Clone, Copy, PartialEq, Eq, Structural)]
pub enum FinalizerDecision {
    /// The object is live and does not carry the token yet: patch the token
    /// in; work requeues on the ensuing update event.
    AddToken,
    /// The object is live and carries the token: run the kind's Apply
    /// use case.
    RunApply,
    /// The object is being deleted and carries the token: run the kind's
    /// Cleanup use case and, on success, patch the token out.
    RunCleanup,
    /// The object is being deleted and the token is already gone: nothing to
    /// do.
    Ignore,
}

/// The finalizer sequencer's routing table over the two observations that
/// matter: whether a deletion timestamp is set and whether the token is on
/// the object.
pub open spec fn finalizer_decision(
    deletion_pending: bool,
    token_present: bool,
) -> FinalizerDecision {
    if !deletion_pending && !token_present {
        FinalizerDecision::AddToken
    } else if !deletion_pending {
        FinalizerDecision::RunApply
    } else if token_present {
        FinalizerDecision::RunCleanup
    } else {
        FinalizerDecision::Ignore
    }
}

/// Route one dequeued object: install the token before any remote side
/// effect, run Apply only on live tokened objects, run Cleanup only while a
/// deletion is pending and the token still blocks it.
pub fn sequence_finalizer(deletion_pending: bool, token_present: bool) -> (d: FinalizerDecision)
    ensures
        d == finalizer_decision(deletion_pending, token_present),
{
    if !deletion_pending && !token_present {
        FinalizerDecision::AddToken
    } else if !deletion_pending {
        FinalizerDecision::RunApply
    } else if token_present {
        FinalizerDecision::RunCleanup
    } else {
        FinalizerDecision::Ignore
    }
}

/// The Apply use case only ever runs while the finalizer token is on the
/// object; together with [`add_finalizer_token`] this puts the token in
/// place before the first Apply attempt, so after the first successful
/// reconciliation of a live object the token is present.
pub proof fn lemma_apply_implies_token_present(deletion_pending: bool, token_present: bool)
    requires
        finalizer_decision(deletion_pending, token_present) is RunApply,
    ensures
        token_present,
{
}

/// Cleanup only ever runs while a deletion is pending and the token is
/// still present, so removing the token last keeps the object until its
/// remote side effects are confirmed gone.
pub proof fn lemma_cleanup_implies_token_present(deletion_pending: bool, token_present: bool)
    requires
        finalizer_decision(deletion_pending, token_present) is RunCleanup,
    ensures
        deletion_pending && token_present,
{
}

/// Install the finalizer token: afterwards the token is on the list, every
/// entry that was on the list is still there, and nothing else was added.
pub fn add_finalizer_token(finalizers: &mut Vec<String>, token: String)
    ensures
        strings_contain(final(finalizers)@, token@),
        (if strings_contain(old(finalizers)@, token@) {
            final(finalizers)@ == old(finalizers)@
        } else {
            final(finalizers)@ == old(finalizers)@.push(token)
        }),
{
    if !crate::contains_string(finalizers, &token) {
        finalizers.push(token);
        proof {
            assert(final(finalizers)@[final(finalizers)@.len() - 1]@ == token@);
        }
    }
}

/// The entries of a finalizer list that do not read as the token, in their
/// original order.
pub open spec fn tokens_without(finalizers: Seq<String>, token: Seq<char>) -> Seq<String>
    decreases finalizers.len(),
{
    if finalizers.len() == 0 {
        Seq::empty()
    } else {
        let rest = tokens_without(finalizers.drop_last(), token);
        if finalizers.last()@ == token {
            rest
        } else {
            rest.push(finalizers.last())
        }
    }
}

/// Remove the finalizer token: afterwards the list holds exactly the
/// entries that do not read as the token, in their original order.
pub fn remove_finalizer_token(finalizers: &mut Vec<String>, token: &String)
    ensures
        final(finalizers)@ == tokens_without(old(finalizers)@, token@),
{
    let mut kept: Vec<String> = Vec::new();
    let mut i: usize = 0;
    while i < finalizers.len()
        invariant
            i <= finalizers@.len(),
            kept@ == tokens_without(finalizers@.take(i as int), token@),
        decreases finalizers@.len() - i,
    {
        proof {
            assert(finalizers@.take(i + 1).drop_last() =~= finalizers@.take(i as int));
            assert(finalizers@.take(i + 1).last() == finalizers@[i as int]);
        }
        if !finalizers[i].eq(token) {
            kept.push(finalizers[i].clone());
        }
        i = i + 1;
    }
    proof {
        assert(finalizers@.take(finalizers@.len() as int) =~= finalizers@);
    }
    *finalizers = kept;
}

/// What is removed is exactly the token: the remaining list never reads as
/// the token, and every other entry survives.
pub proof fn lemma_tokens_without_removes_only_the_token(finalizers: Seq<String>, token: Seq<char>)
    ensures
        !strings_contain(tokens_without(finalizers, token), token),
        forall|j: int|
            0 <= j < finalizers.len() && (#[trigger] finalizers[j])@ != token
                ==> tokens_without(finalizers, token).contains(finalizers[j]),
    decreases finalizers.len(),
{
    if finalizers.len() > 0 {
        let rest = finalizers.drop_last();
        let kept = tokens_without(finalizers, token);
        let kept_rest = tokens_without(rest, token);
        lemma_tokens_without_removes_only_the_token(rest, token);
        assert forall|j: int|
            0 <= j < finalizers.len() && (#[trigger] finalizers[j])@ != token implies kept.contains(
            finalizers[j],
        ) by {
            if j < finalizers.len() - 1 {
                assert(rest[j] == finalizers[j]);
                let k0 = choose|k: int| 0 <= k < kept_rest.len() && kept_rest[k] == finalizers[j];
                if finalizers.last()@ == token {
                    assert(kept[k0] == finalizers[j]);
                } else {
                    assert(kept[k0] == kept_rest[k0]);
                }
            } else {
                assert(kept[kept.len() - 1] == finalizers[j]);
            }
        }
        if strings_contain(kept, token) {
            let k = choose|k: int| 0 <= k < kept.len() && kept[k]@ == token;
            if finalizers.last()@ == token {
                assert(kept_rest[k]@ == token);
            } else {
                if k < kept_rest.len() {
                    assert(kept[k] == kept_rest[k]);
                } else {
                    assert(kept[k] == finalizers.last());
                }
            }
            assert(false);
        }
    }
}

/// Seconds after which a reconciliation is tried again: a successful Apply
/// or Cleanup re-checks for drift after a minute, a failed one backs off
/// five seconds.
pub fn requeue_delay_secs(success: bool) -> (r: u64)
    ensures
        r == (if success {
            60u64
        } else {
            5u64
        }),
{
    if success {
        60
    } else {
        5
    }
}

/// Seconds after which an unhandled reconciler error is retried.
pub fn error_requeue_delay_secs() -> (r: u64)
    ensures
        r == 5u64,
{
    5
}

/// What a condition of the given outcome must say: it is the `Ready`
/// condition, its status mirrors the outcome, reason and message name the
/// result, and timestamp and generation are the observed ones.
pub open spec fn is_ready_condition(
    c: Condition,
    success: bool,
    last_transition_time: Seq<char>,
    observed_generation: Option<i64>,
) -> bool {
    &&& c.type_@ == "Ready"@
    &&& c.status@ == (if success {
        "True"@
    } else {
        "False"@
    })
    &&& c.reason@ == (if success {
        "ReconcileSucceed"@
    } else {
        "ReconcileFailed"@
    })
    &&& c.message@ == (if success {
        "Reconcile succeed"@
    } else {
        "Reconcile failed"@
    })
    &&& c.last_transition_time@ == last_transition_time
    &&& c.observed_generation == observed_generation
}

/// The `Ready` condition reflecting the outcome of the latest attempt.
/// `last_transition_time` is the current wall clock as the caller read it.
pub fn ready_condition(
    success: bool,
    last_transition_time: String,
    observed_generation: Option<i64>,
) -> (c: Condition)
    ensures
        is_ready_condition(c, success, last_transition_time@, observed_generation),
{
    if success {
        Condition {
            type_: "Ready".to_owned(),
            status: "True".to_owned(),
            reason: "ReconcileSucceed".to_owned(),
            message: "Reconcile succeed".to_owned(),
            last_transition_time,
            observed_generation,
        }
    } else {
        Condition {
            type_: "Ready".to_owned(),
            status: "False".to_owned(),
            reason: "ReconcileFailed".to_owned(),
            message: "Reconcile failed".to_owned(),
            last_transition_time,
            observed_generation,
        }
    }
}

/// The status patched onto a repository resource after an attempt: one
/// `Ready` condition and `healthy` mirroring the outcome.
pub fn make_repository_status(
    success: bool,
    last_transition_time: String,
    observed_generation: Option<i64>,
) -> (st: RepositoryStatus)
    ensures
        st.conditions@.len() == 1,
        is_ready_condition(st.conditions@[0], success, last_transition_time@, observed_generation),
        st.healthy == Some(success),
{
    let ready = ready_condition(success, last_transition_time, observed_generation);
    let mut conditions: Vec<Condition> = Vec::new();
    conditions.push(ready);
    RepositoryStatus { conditions, healthy: Some(success) }
}

/// The status patched onto an autolink reference resource after an attempt.
/// The id recorded is the one the caller decided to persist — on a failed
/// Apply that is the previously persisted id, decided by
/// `autolink_id_to_persist`, since only a successful Cleanup parts with it.
pub fn make_autolink_reference_status(
    success: bool,
    id: Option<u32>,
    last_transition_time: String,
    observed_generation: Option<i64>,
) -> (st: AutolinkReferenceStatus)
    ensures
        st.conditions@.len() == 1,
        is_ready_condition(st.conditions@[0], success, last_transition_time@, observed_generation),
        st.healthy == Some(success),
        st.id == id,
{
    let ready = ready_condition(success, last_transition_time, observed_generation);
    let mut conditions: Vec<Condition> = Vec::new();
    conditions.push(ready);
    AutolinkReferenceStatus { conditions, healthy: Some(success), id }
}

/// The status patched onto a permission resource after an attempt.
pub fn make_permission_status(
    success: bool,
    last_transition_time: String,
    observed_generation: Option<i64>,
) -> (st: RepositoryPermissionStatus)
    ensures
        st.conditions@.len() == 1,
        is_ready_condition(st.conditions@[0], success, last_transition_time@, observed_generation),
        st.healthy == Some(success),
{
    let ready = ready_condition(success, last_transition_time, observed_generation);
    let mut conditions: Vec<Condition> = Vec::new();
    conditions.push(ready);
    RepositoryPermissionStatus { conditions, healthy: Some(success) }
}

} // verus!
