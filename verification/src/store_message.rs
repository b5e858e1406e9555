//! The store's operations as messages: one message per durable operation,
//! so that the store's mutating operations are serialised by its mailbox.
use vstd::prelude::*;

use crate::store_record::StoredObservation;
use crate::wire::{
    BootIdentifier, ComponentTraceEvent, ComponentTraceQuery, DeliveryTraceObservationEvent,
    DeliveryTraceObservationQuery, SystemEvent, SystemEventsQuery,
};

verus! {

/// Record one answered query in the audit trail.
#[derive(Debug)]
pub struct RecordObservation {
    observation: StoredObservation,
}

impl RecordObservation {
    pub closed spec fn carried(&self) -> StoredObservation {
        self.observation
    }

    pub fn new(observation: StoredObservation) -> (message: Self)
        ensures
            message.carried() == observation,
    {
        Self { observation }
    }

    pub fn into_inner(self) -> (observation: StoredObservation)
        ensures
            observation == self.carried(),
    {
        self.observation
    }
}

/// Record one observed delivery hop.
#[derive(Debug)]
pub struct RecordDeliveryTraceEvent {
    event: DeliveryTraceObservationEvent,
}

impl RecordDeliveryTraceEvent {
    pub closed spec fn carried(&self) -> DeliveryTraceObservationEvent {
        self.event
    }

    pub fn new(event: DeliveryTraceObservationEvent) -> (message: Self)
        ensures
            message.carried() == event,
    {
        Self { event }
    }

    pub fn into_inner(self) -> (event: DeliveryTraceObservationEvent)
        ensures
            event == self.carried(),
    {
        self.event
    }
}

/// Read the hops of one message.
#[derive(Debug)]
pub struct ReadDeliveryTrace {
    query: DeliveryTraceObservationQuery,
}

impl ReadDeliveryTrace {
    pub closed spec fn carried(&self) -> DeliveryTraceObservationQuery {
        self.query
    }

    pub fn new(query: DeliveryTraceObservationQuery) -> (message: Self)
        ensures
            message.carried() == query,
    {
        Self { query }
    }

    pub fn into_inner(self) -> (query: DeliveryTraceObservationQuery)
        ensures
            query == self.carried(),
    {
        self.query
    }
}

/// Record one pushed component-trace event.
#[derive(Debug)]
pub struct RecordComponentTraceEvent {
    event: ComponentTraceEvent,
}

impl RecordComponentTraceEvent {
    pub closed spec fn carried(&self) -> ComponentTraceEvent {
        self.event
    }

    pub fn new(event: ComponentTraceEvent) -> (message: Self)
        ensures
            message.carried() == event,
    {
        Self { event }
    }

    pub fn into_inner(self) -> (event: ComponentTraceEvent)
        ensures
            event == self.carried(),
    {
        self.event
    }
}

/// Read a component's trace events.
#[derive(Debug)]
pub struct ReadComponentTrace {
    query: ComponentTraceQuery,
}

impl ReadComponentTrace {
    pub closed spec fn carried(&self) -> ComponentTraceQuery {
        self.query
    }

    pub fn new(query: ComponentTraceQuery) -> (message: Self)
        ensures
            message.carried() == query,
    {
        Self { query }
    }

    pub fn into_inner(self) -> (query: ComponentTraceQuery)
        ensures
            query == self.carried(),
    {
        self.query
    }
}

/// Admit one targeted system event.
#[derive(Debug)]
pub struct RecordTargetedSystemEvent {
    event: SystemEvent,
}

impl RecordTargetedSystemEvent {
    pub closed spec fn carried(&self) -> SystemEvent {
        self.event
    }

    pub fn new(event: SystemEvent) -> (message: Self)
        ensures
            message.carried() == event,
    {
        Self { event }
    }

    pub fn into_inner(self) -> (event: SystemEvent)
        ensures
            event == self.carried(),
    {
        self.event
    }
}

/// Read the stored summaries of one boot.
#[derive(Debug)]
pub struct ReadSystemEvents {
    query: SystemEventsQuery,
}

impl ReadSystemEvents {
    pub closed spec fn carried(&self) -> SystemEventsQuery {
        self.query
    }

    pub fn new(query: SystemEventsQuery) -> (message: Self)
        ensures
            message.carried() == query,
    {
        Self { query }
    }

    pub fn into_inner(self) -> (query: SystemEventsQuery)
        ensures
            query == self.carried(),
    {
        self.query
    }
}

/// Flush one boot's open windows explicitly.
#[derive(Debug)]
pub struct FlushTargetedSystemEvents {
    boot: BootIdentifier,
}

impl FlushTargetedSystemEvents {
    pub closed spec fn carried(&self) -> BootIdentifier {
        self.boot
    }

    pub fn new(boot: BootIdentifier) -> (message: Self)
        ensures
            message.carried() == boot,
    {
        Self { boot }
    }

    pub fn into_inner(self) -> (boot: BootIdentifier)
        ensures
            boot == self.carried(),
    {
        self.boot
    }
}

/// Read every answered query in the audit trail.
#[derive(Debug, Clone, Copy, PartialEq, Eq)]
pub struct ReadObservations;

} // verus!
