//! The remote provider port: the error taxonomy of the typed operation set,
//! classification of transport failures into that taxonomy, and helpers for
//! the team addressing scheme.
//!
//! The HTTP transport itself stays outside the verified core; it hands the
//! functions here plain values (status messages, error code lists) and takes
//! plain values back.

use vstd::prelude::*;
use vstd::string::StrSliceExecFns;

use crate::ControllerError;
use crate::contains_string;
use crate::strings_contain;

verus! {

/// Outcome classes of a provider call.
#[derive(Clone, Copy, PartialEq, Eq, Structural)]
pub enum GitHubServiceError {
    Error,
    NotFound,
}

/// What a remote delete call came back with, reduced to plain values: the
/// resource is gone now, was gone already (the transport's 404), or the call
/// failed.
pub enum RemoteDeleteResult {
    Deleted,
    Missing,
    Failed(String),
}

/// Whether a delete call's outcome counts as success: a resource that is
/// gone counts, whether this call removed it or it was missing already.
pub open spec fn delete_call_succeeded(r: RemoteDeleteResult) -> bool {
    !(r is Failed)
}

impl RemoteDeleteResult {
    /// Whether this outcome counts as success. A `Missing` answer does: for
    /// an idempotent delete, absent is as good as deleted.
    pub fn is_success(&self) -> (b: bool)
        ensures
            b == delete_call_succeeded(*self),
    {
        match self {
            RemoteDeleteResult::Failed(_) => false,
            _ => true,
        }
    }
}

/// What the transport reports about one failed provider call, reduced to
/// plain values: either the provider answered with an error document, or the
/// call failed below the provider.
pub enum ProviderErrorInfo {
    Api { message: String, error_codes: Vec<String> },
    Transport { details: String },
}

/// Classify a failed provider call into the reconciler error taxonomy: a
/// `Not Found` answer becomes [`ControllerError::NotFound`], an error
/// document carrying the code `already_exists` becomes
/// [`ControllerError::AlreadyExists`], and everything else stays a generic
/// provider error carrying the original message.
pub fn map_provider_error(info: ProviderErrorInfo) -> (r: ControllerError)
    ensures
        (match info {
            ProviderErrorInfo::Api { message, error_codes } => {
                if message@ == "Not Found"@ {
                    r is NotFound
                } else if strings_contain(error_codes@, "already_exists"@) {
                    r is AlreadyExists
                } else {
                    r matches ControllerError::GitHubError(m) && m@ == message@
                }
            },
            ProviderErrorInfo::Transport { details } => (r matches ControllerError::GitHubError(m)
                && m@ == details@),
        }),
{
    match info {
        ProviderErrorInfo::Api { message, error_codes } => {
            let not_found: String = "Not Found".to_owned();
            let already_exists: String = "already_exists".to_owned();
            if message.eq(&not_found) {
                ControllerError::NotFound
            } else if contains_string(&error_codes, &already_exists) {
                ControllerError::AlreadyExists
            } else {
                ControllerError::GitHubError(message)
            }
        },
        ProviderErrorInfo::Transport { details } => ControllerError::GitHubError(details),
    }
}

/// The codes present among the optional `code` fields of a provider error
/// document, in order.
pub open spec fn present_codes(errors: Seq<Option<String>>) -> Seq<String>
    decreases errors.len(),
{
    if errors.len() == 0 {
        Seq::empty()
    } else {
        match errors.last() {
            Option::Some(c) => present_codes(errors.drop_last()).push(c),
            Option::None => present_codes(errors.drop_last()),
        }
    }
}

/// Collect the error codes present in a provider error document. Each entry
/// of `errors` is the `code` field of one error item, absent where the item
/// carries none.
pub fn get_github_error_codes(errors: &Vec<Option<String>>) -> (r: Vec<String>)
    ensures
        r@ == present_codes(errors@),
{
    let mut codes: Vec<String> = Vec::new();
    let mut i: usize = 0;
    while i < errors.len()
        invariant
            i <= errors@.len(),
            codes@ == present_codes(errors@.take(i as int)),
        decreases errors@.len() - i,
    {
        proof {
            assert(errors@.take(i + 1).drop_last() =~= errors@.take(i as int));
            assert(errors@.take(i + 1).last() == errors@[i as int]);
        }
        match &errors[i] {
            Option::Some(code) => {
                codes.push(code.clone());
            },
            Option::None => {},
        }
        i = i + 1;
    }
    proof {
        assert(errors@.take(errors@.len() as int) =~= errors@);
    }
    codes
}

/// Split a full team name of the form `org/team_slug` at its first `/`.
/// Returns nothing when the name carries no `/` at all; otherwise the part
/// before the first `/` (which itself holds no `/`) and everything after it.
pub fn split_full_team_name(full_team_name: &str) -> (r: Option<(String, String)>)
    ensures
        (r is Some) == full_team_name@.contains('/'),
        (r matches Some(p) ==> {
            &&& full_team_name@ == p.0@ + seq!['/'] + p.1@
            &&& !p.0@.contains('/')
        }),
{
    let n: usize = full_team_name.unicode_len();
    let mut i: usize = 0;
    while i < n
        invariant
            i <= n,
            n == full_team_name@.len(),
            forall|j: int| 0 <= j < i ==> full_team_name@[j] != '/',
        decreases n - i,
    {
        if full_team_name.get_char(i) == '/' {
            let org: String = full_team_name.substring_char(0, i).to_owned();
            let team: String = full_team_name.substring_char(i + 1, n).to_owned();
            proof {
                assert(full_team_name@.contains('/'));
                assert(full_team_name@ =~= org@ + seq![full_team_name@[i as int]] + team@);
                assert(!org@.contains('/'));
            }
            return Some((org, team));
        }
        i = i + 1;
    }
    proof {
        assert(!full_team_name@.contains('/'));
    }
    None
}

} // verus!
