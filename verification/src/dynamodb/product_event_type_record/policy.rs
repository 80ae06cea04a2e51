//! Event types of policy events.

use crate::domain::ProductPolicyEventPayload;
use vstd::prelude::*;
use vstd::std_specs::convert::FromSpecImpl;

verus! {

/// The kind of a stored policy event.
#[derive(Clone, Copy, Debug, PartialEq, Eq, Structural, Hash)]
pub enum ProductPolicyEventTypeRecord {
    PolicyProhibitedContentDecision,
}

impl ProductPolicyEventTypeRecord {
    /// The name under which the event type is stored.
    pub open spec fn spec_as_str(self) -> Seq<char> {
        match self {
            ProductPolicyEventTypeRecord::PolicyProhibitedContentDecision => "POLICY_PROHIBITED_CONTENT_DECISION"@,
        }
    }

    pub fn as_str(&self) -> (s: &'static str)
        ensures
            s@ == self.spec_as_str(),
    {
        match self {
            ProductPolicyEventTypeRecord::PolicyProhibitedContentDecision => "POLICY_PROHIBITED_CONTENT_DECISION",
        }
    }
}

impl<'a> From<&'a ProductPolicyEventPayload> for ProductPolicyEventTypeRecord {
    fn from(payload: &'a ProductPolicyEventPayload) -> (ret: Self) {
        match payload {
            ProductPolicyEventPayload::ProhibitedContentDecision(_) => ProductPolicyEventTypeRecord::PolicyProhibitedContentDecision,
        }
    }
}

impl<'a> FromSpecImpl<&'a ProductPolicyEventPayload> for ProductPolicyEventTypeRecord {
    open spec fn obeys_from_spec() -> bool {
        true
    }

    open spec fn from_spec(payload: &'a ProductPolicyEventPayload) -> Self {
        ProductPolicyEventTypeRecord::PolicyProhibitedContentDecision
    }
}

} // verus!
