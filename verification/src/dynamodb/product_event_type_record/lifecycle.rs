//! Event types of lifecycle events.

use crate::domain::ProductLifecycleEventPayload;
use vstd::prelude::*;
use vstd::std_specs::convert::FromSpecImpl;

verus! {

/// The kind of a stored lifecycle event.
#[derive(Clone, Copy, Debug, PartialEq, Eq, Structural, Hash)]
pub enum ProductLifecycleEventTypeRecord {
    LifecycleDeleted,
}

impl ProductLifecycleEventTypeRecord {
    /// The name under which the event type is stored.
    pub open spec fn spec_as_str(self) -> Seq<char> {
        match self {
            ProductLifecycleEventTypeRecord::LifecycleDeleted => "LIFECYCLE_DELETED"@,
        }
    }

    pub fn as_str(&self) -> (s: &'static str)
        ensures
            s@ == self.spec_as_str(),
    {
        match self {
            ProductLifecycleEventTypeRecord::LifecycleDeleted => "LIFECYCLE_DELETED",
        }
    }
}

impl<'a> From<&'a ProductLifecycleEventPayload> for ProductLifecycleEventTypeRecord {
    fn from(payload: &'a ProductLifecycleEventPayload) -> (ret: Self) {
        match payload {
            ProductLifecycleEventPayload::Deleted(_) => ProductLifecycleEventTypeRecord::LifecycleDeleted,
        }
    }
}

impl<'a> FromSpecImpl<&'a ProductLifecycleEventPayload> for ProductLifecycleEventTypeRecord {
    open spec fn obeys_from_spec() -> bool {
        true
    }

    open spec fn from_spec(payload: &'a ProductLifecycleEventPayload) -> Self {
        ProductLifecycleEventTypeRecord::LifecycleDeleted
    }
}

} // verus!
