//! Autolink references: child resources of a repository identified by a
//! provider-assigned surrogate id.
//!
//! The provider offers no update for autolinks — only create and delete by
//! id — so the id must be persisted in the status to survive restarts, and a
//! mutation is a delete followed by a create.

use vstd::prelude::*;

use crate::model::Condition;

verus! {

/// Desired state of one autolink reference. `full_name` and `key_prefix` are
/// immutable; `key_prefix` is the logical natural key on the repository.
pub struct AutolinkReferenceSpec {
    pub full_name: String,
    pub key_prefix: String,
    pub url_template: String,
    pub is_alphanumeric: bool,
}

/// Observed status of an autolink reference resource, carrying the
/// provider-assigned id once one is known.
pub struct AutolinkReferenceStatus {
    pub conditions: Vec<Condition>,
    pub healthy: Option<bool>,
    pub id: Option<u32>,
}

/// One autolink reference as the provider reports it.
pub struct AutolinkReferenceResponse {
    pub id: u32,
    pub key_prefix: String,
    pub url_template: String,
    pub is_alphanumeric: bool,
}

/// The payload of a create call for an autolink reference.
pub struct AutolinkReferenceRequest {
    pub key_prefix: String,
    pub url_template: String,
    pub is_alphanumeric: bool,
}

impl From<AutolinkReferenceSpec> for AutolinkReferenceRequest {
    fn from(spec: AutolinkReferenceSpec) -> (r: Self) {
        AutolinkReferenceRequest {
            key_prefix: spec.key_prefix,
            url_template: spec.url_template,
            is_alphanumeric: spec.is_alphanumeric,
        }
    }
}

impl vstd::std_specs::convert::FromSpecImpl<AutolinkReferenceSpec> for AutolinkReferenceRequest {
    open spec fn obeys_from_spec() -> bool {
        true
    }

    open spec fn from_spec(spec: AutolinkReferenceSpec) -> Self {
        AutolinkReferenceRequest {
            key_prefix: spec.key_prefix,
            url_template: spec.url_template,
            is_alphanumeric: spec.is_alphanumeric,
        }
    }
}

impl From<AutolinkReferenceResponse> for AutolinkReferenceRequest {
    fn from(response: AutolinkReferenceResponse) -> (r: Self) {
        AutolinkReferenceRequest {
            key_prefix: response.key_prefix,
            url_template: response.url_template,
            is_alphanumeric: response.is_alphanumeric,
        }
    }
}

impl vstd::std_specs::convert::FromSpecImpl<AutolinkReferenceResponse>
    for AutolinkReferenceRequest {
    open spec fn obeys_from_spec() -> bool {
        true
    }

    open spec fn from_spec(response: AutolinkReferenceResponse) -> Self {
        AutolinkReferenceRequest {
            key_prefix: response.key_prefix,
            url_template: response.url_template,
            is_alphanumeric: response.is_alphanumeric,
        }
    }
}

/// The create payload that would reproduce a provider-reported reference.
pub open spec fn request_of_response(response: AutolinkReferenceResponse) -> AutolinkReferenceRequest {
    AutolinkReferenceRequest {
        key_prefix: response.key_prefix,
        url_template: response.url_template,
        is_alphanumeric: response.is_alphanumeric,
    }
}

/// The create payload carrying exactly what a spec declares.
pub open spec fn request_of_spec(spec: AutolinkReferenceSpec) -> AutolinkReferenceRequest {
    AutolinkReferenceRequest {
        key_prefix: spec.key_prefix,
        url_template: spec.url_template,
        is_alphanumeric: spec.is_alphanumeric,
    }
}

/// Whether one of the provider-reported references carries the given key
/// prefix.
pub open spec fn responses_have_key(
    references: Seq<AutolinkReferenceResponse>,
    key_prefix: Seq<char>,
) -> bool {
    exists|i: int| 0 <= i < references.len() && references[i].key_prefix@ == key_prefix
}

impl AutolinkReferenceResponse {
    /// The create payload that would reproduce this reference.
    pub fn to_request(&self) -> (r: AutolinkReferenceRequest)
        ensures
            r == request_of_response(*self),
    {
        AutolinkReferenceRequest {
            key_prefix: self.key_prefix.clone(),
            url_template: self.url_template.clone(),
            is_alphanumeric: self.is_alphanumeric,
        }
    }
}

impl AutolinkReferenceSpec {
    /// The create payload carrying exactly what this spec declares.
    pub fn to_request(&self) -> (r: AutolinkReferenceRequest)
        ensures
            r == request_of_spec(*self),
    {
        AutolinkReferenceRequest {
            key_prefix: self.key_prefix.clone(),
            url_template: self.url_template.clone(),
            is_alphanumeric: self.is_alphanumeric,
        }
    }
}

} // verus!
