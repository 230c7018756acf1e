//! The unit written to the sink: the event together with its derived key,
//! computed once at construction and never recomputed.

use vstd::prelude::*;

use crate::key::{key, key_spec};
use crate::model::Event;

verus! {

/// One record to append: the event and its derived key.
pub struct RedisRecord {
    pub event: Event,
    pub key: String,
}

impl RedisRecord {
    /// Spec for a well-formed record: the key is the one the derivation
    /// policy assigns to the event.
    pub open spec fn wf(self) -> bool {
        self.key@ == key_spec(self.event)
    }

    /// Builds the record for an event, deriving its key.
    pub fn new(event: Event) -> (r: RedisRecord)
        ensures
            r.event == event,
            r.wf(),
    {
        let key = key(&event);
        RedisRecord { event, key }
    }
}

} // verus!
