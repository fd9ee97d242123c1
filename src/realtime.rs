//! Events exchanged with the streaming ("realtime") endpoint.

use vstd::prelude::*;

verus! {

/// An event sent to the realtime endpoint.
#[derive(Debug)]
pub struct RealtimeEvent {
    /// The event's type tag.
    pub kind: String,
}

/// An event received from the realtime endpoint.
#[derive(Debug)]
pub struct ServerEvent {
    /// The event's type tag.
    pub event_type: String,
}

impl RealtimeEvent {
    /// An event with the given type tag.
    pub fn new(kind: String) -> (r: RealtimeEvent)
        ensures
            r.kind == kind,
    {
        RealtimeEvent { kind }
    }
}

} // verus!
