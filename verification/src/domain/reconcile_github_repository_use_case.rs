//! The aggregate repository Apply use case: reconcile the repository
//! configuration and the set of declared autolink references in one pass.
//! References declared but absent remotely are added; remote references
//! that dropped out of a non-empty declaration are deleted — within the one
//! repository the resource stands for. An absent or empty declaration
//! deletes nothing: autolinks the resource never declared are not its own.

use vstd::prelude::*;

use crate::model::AutoConfigureSpec;
use crate::model::RepositoryResponse;
use crate::model::AutolinkReferenceResponse;
use crate::model::github_repository::AutolinkReference;
use crate::model::github_repository::references_have_key;
use crate::model::autolink_reference::responses_have_key;
use crate::model::response_auto_configured;

verus! {

/// What an aggregate reconciliation can fail with.
pub enum ReconcileGitHubRepositoryUseCaseError {
    Error,
}

/// The update payload for the declared repository configuration, with the
/// provider's preconditions enabled.
pub fn configure_spec_repository(spec_repository: &RepositoryResponse) -> (r: RepositoryResponse)
    ensures
        r == response_auto_configured(*spec_repository),
{
    let mut payload = *spec_repository;
    payload.auto_configure();
    payload
}

/// The declared references that are missing remotely, in declaration
/// order: those whose key prefix no remote reference carries.
pub open spec fn references_missing_remotely(
    declared: Seq<AutolinkReference>,
    actual: Seq<AutolinkReferenceResponse>,
) -> Seq<AutolinkReference>
    decreases declared.len(),
{
    if declared.len() == 0 {
        Seq::empty()
    } else {
        let rest = references_missing_remotely(declared.drop_last(), actual);
        if responses_have_key(actual, declared.last().key_prefix@) {
            rest
        } else {
            rest.push(declared.last())
        }
    }
}

/// The ids of the remote references that are no longer declared, in the
/// provider's listing order: those whose key prefix no declared reference
/// carries. An empty declaration names nothing stale: unrelated autolinks
/// are not this resource's to delete.
pub open spec fn stale_reference_ids(
    declared: Seq<AutolinkReference>,
    actual: Seq<AutolinkReferenceResponse>,
) -> Seq<u32>
    decreases actual.len(),
{
    if declared.len() == 0 || actual.len() == 0 {
        Seq::empty()
    } else {
        let rest = stale_reference_ids(declared, actual.drop_last());
        if references_have_key(declared, actual.last().key_prefix@) {
            rest
        } else {
            rest.push(actual.last().id)
        }
    }
}

/// Whether one of the remote references carries the given key prefix.
fn responses_contain_key(actual: &Vec<AutolinkReferenceResponse>, key_prefix: &String) -> (r: bool)
    ensures
        r == responses_have_key(actual@, key_prefix@),
{
    let mut i: usize = 0;
    while i < actual.len()
        invariant
            i <= actual@.len(),
            forall|j: int| 0 <= j < i ==> actual@[j].key_prefix@ != key_prefix@,
        decreases actual@.len() - i,
    {
        if actual[i].key_prefix.eq(key_prefix) {
            proof {
                assert(actual@[i as int].key_prefix@ == key_prefix@);
            }
            return true;
        }
        i = i + 1;
    }
    false
}

/// Whether one of the declared references carries the given key prefix.
fn references_contain_key(declared: &Vec<AutolinkReference>, key_prefix: &String) -> (r: bool)
    ensures
        r == references_have_key(declared@, key_prefix@),
{
    let mut i: usize = 0;
    while i < declared.len()
        invariant
            i <= declared@.len(),
            forall|j: int| 0 <= j < i ==> declared@[j].key_prefix@ != key_prefix@,
        decreases declared@.len() - i,
    {
        if declared[i].key_prefix.eq(key_prefix) {
            proof {
                assert(declared@[i as int].key_prefix@ == key_prefix@);
            }
            return true;
        }
        i = i + 1;
    }
    false
}

/// The references to add: every declared reference whose key prefix is not
/// present remotely, each to be created and announced with the added
/// event.
pub fn autolinks_to_add(
    declared: &Vec<AutolinkReference>,
    actual: &Vec<AutolinkReferenceResponse>,
) -> (r: Vec<AutolinkReference>)
    ensures
        r@ == references_missing_remotely(declared@, actual@),
{
    let mut to_add: Vec<AutolinkReference> = Vec::new();
    let mut i: usize = 0;
    while i < declared.len()
        invariant
            i <= declared@.len(),
            to_add@ == references_missing_remotely(declared@.take(i as int), actual@),
        decreases declared@.len() - i,
    {
        proof {
            assert(declared@.take(i + 1).drop_last() =~= declared@.take(i as int));
            assert(declared@.take(i + 1).last() == declared@[i as int]);
        }
        if !responses_contain_key(actual, &declared[i].key_prefix) {
            to_add.push(declared[i].duplicate());
        }
        i = i + 1;
    }
    proof {
        assert(declared@.take(declared@.len() as int) =~= declared@);
    }
    to_add
}

/// The reference ids to delete: every remote reference whose key prefix is
/// no longer declared, each to be deleted and announced with the deleted
/// event. With nothing declared, nothing is deleted: the pass reconciles
/// the declared set, it does not sweep the repository.
pub fn autolinks_to_delete(
    declared: &Vec<AutolinkReference>,
    actual: &Vec<AutolinkReferenceResponse>,
) -> (r: Vec<u32>)
    ensures
        r@ == stale_reference_ids(declared@, actual@),
{
    let mut to_delete: Vec<u32> = Vec::new();
    if declared.is_empty() {
        return to_delete;
    }
    let mut i: usize = 0;
    while i < actual.len()
        invariant
            declared@.len() > 0,
            i <= actual@.len(),
            to_delete@ == stale_reference_ids(declared@, actual@.take(i as int)),
        decreases actual@.len() - i,
    {
        proof {
            assert(actual@.take(i + 1).drop_last() =~= actual@.take(i as int));
            assert(actual@.take(i + 1).last() == actual@[i as int]);
        }
        if !references_contain_key(declared, &actual[i].key_prefix) {
            to_delete.push(actual[i].id);
        }
        i = i + 1;
    }
    proof {
        assert(actual@.take(actual@.len() as int) =~= actual@);
    }
    to_delete
}

/// A reconciliation with an empty declared list deletes no autolink at
/// all: unrelated references survive untouched.
pub proof fn lemma_empty_declaration_deletes_nothing(actual: Seq<AutolinkReferenceResponse>)
    ensures
        stale_reference_ids(Seq::empty(), actual) == Seq::<u32>::empty(),
{
}

/// A remote reference whose key prefix stays declared is never deleted by
/// the aggregate pass: only references that dropped out of the declaration
/// are.
pub proof fn lemma_declared_references_not_deleted(
    declared: Seq<AutolinkReference>,
    actual: Seq<AutolinkReferenceResponse>,
    i: int,
)
    requires
        0 <= i < actual.len(),
        references_have_key(declared, actual[i].key_prefix@),
    ensures
        !stale_reference_ids(declared, actual).contains(actual[i].id) || (exists|j: int|
            {
                &&& 0 <= j < actual.len()
                &&& j != i
                &&& (#[trigger] actual[j]).id == actual[i].id
            }),
    decreases actual.len(),
{
    if actual.len() > 0 {
        let rest = actual.drop_last();
        let last = actual.last();
        if i == actual.len() - 1 {
            if stale_reference_ids(declared, actual).contains(actual[i].id) {
                lemma_stale_ids_come_from_actual(declared, rest, actual[i].id);
                let j = choose|j: int|
                    0 <= j < rest.len() && (#[trigger] rest[j]).id == actual[i].id;
                assert(actual[j] == rest[j]);
            }
        } else {
            if stale_reference_ids(declared, actual).contains(actual[i].id) {
                assert(rest[i] == actual[i]);
                if references_have_key(declared, last.key_prefix@) {
                    lemma_declared_references_not_deleted(declared, rest, i);
                    if !stale_reference_ids(declared, rest).contains(actual[i].id) {
                        assert(false);
                    } else {
                        let j = choose|j: int|
                            {
                                &&& 0 <= j < rest.len()
                                &&& j != i
                                &&& (#[trigger] rest[j]).id == actual[i].id
                            };
                        assert(actual[j] == rest[j]);
                    }
                } else {
                    if last.id == actual[i].id {
                        assert((actual[actual.len() - 1]).id == actual[i].id);
                    } else {
                        lemma_declared_references_not_deleted(declared, rest, i);
                        let j = choose|j: int|
                            {
                                &&& 0 <= j < rest.len()
                                &&& j != i
                                &&& (#[trigger] rest[j]).id == actual[i].id
                            };
                        assert(actual[j] == rest[j]);
                    }
                }
            }
        }
    }
}

/// Every id the aggregate pass deletes belongs to some remote reference.
proof fn lemma_stale_ids_come_from_actual(
    declared: Seq<AutolinkReference>,
    actual: Seq<AutolinkReferenceResponse>,
    id: u32,
)
    requires
        stale_reference_ids(declared, actual).contains(id),
    ensures
        exists|j: int| 0 <= j < actual.len() && (#[trigger] actual[j]).id == id,
    decreases actual.len(),
{
    if actual.len() > 0 {
        let rest = actual.drop_last();
        if references_have_key(declared, actual.last().key_prefix@) {
            lemma_stale_ids_come_from_actual(declared, rest, id);
            let j = choose|j: int| 0 <= j < rest.len() && (#[trigger] rest[j]).id == id;
            assert(actual[j] == rest[j]);
        } else {
            let ids = stale_reference_ids(declared, actual);
            let prev = stale_reference_ids(declared, rest);
            if actual.last().id == id {
                assert((actual[actual.len() - 1]).id == id);
            } else {
                let k = choose|k: int| 0 <= k < ids.len() && ids[k] == id;
                assert(prev[k] == id);
                lemma_stale_ids_come_from_actual(declared, rest, id);
                let j = choose|j: int| 0 <= j < rest.len() && (#[trigger] rest[j]).id == id;
                assert(actual[j] == rest[j]);
            }
        }
    }
}

} // verus!
