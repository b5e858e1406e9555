//! One component-trace event on its way over a trace socket.
use vstd::prelude::*;

use crate::wire::ComponentTraceEvent;

verus! {

#[derive(Debug, PartialEq, Eq)]
pub struct TracedComponentEvent(ComponentTraceEvent);

impl Clone for TracedComponentEvent {
    fn clone(&self) -> (r: Self)
        ensures
            r == *self,
    {
        TracedComponentEvent(self.0.clone())
    }
}

impl TracedComponentEvent {
    pub closed spec fn carried(&self) -> ComponentTraceEvent {
        self.0
    }

    pub fn new(event: ComponentTraceEvent) -> (traced: Self)
        ensures
            traced.carried() == event,
    {
        Self(event)
    }

    pub fn event(&self) -> (event: &ComponentTraceEvent)
        ensures
            *event == self.carried(),
    {
        &self.0
    }

    pub fn into_event(self) -> (event: ComponentTraceEvent)
        ensures
            event == self.carried(),
    {
        self.0
    }
}

impl From<ComponentTraceEvent> for TracedComponentEvent {
    fn from(event: ComponentTraceEvent) -> (traced: Self) {
        Self(event)
    }
}

impl vstd::std_specs::convert::FromSpecImpl<ComponentTraceEvent> for TracedComponentEvent {
    open spec fn obeys_from_spec() -> bool {
        true
    }

    closed spec fn from_spec(event: ComponentTraceEvent) -> Self {
        TracedComponentEvent(event)
    }
}

} // verus!
