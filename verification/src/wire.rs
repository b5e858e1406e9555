//! The typed values introspect exchanges on its sockets and keeps in its
//! store: queries, responses, targeted system events, component and
//! delivery traces, and the daemon's startup configuration.
//!
//! These are plain data. Every decision introspect takes about them lives in
//! the modules that read them (`contract`, `coalescer`, `store`, `runtime`).
use vstd::prelude::*;

verus! {

// ---------------------------------------------------------------------------
// Targeted system events
// ---------------------------------------------------------------------------

/// Identifies one boot of the observed machine.
#[derive(Clone, Copy, Debug, PartialEq, Eq, Structural, Hash)]
pub struct BootIdentifier {
    pub first_integer: i64,
    pub second_integer: i64,
}

#[derive(Clone, Copy, Debug, PartialEq, Eq, Structural, Hash)]
pub enum BluetoothTarget {
    Controller,
    Device,
}

#[derive(Clone, Copy, Debug, PartialEq, Eq, Structural, Hash)]
pub enum BluetoothPowerEvent {
    ObservedOn,
    ObservedOff,
}

/// What an extractor could not classify: counters and status, never text.
#[derive(Clone, Copy, Debug, PartialEq, Eq, Structural, Hash)]
pub struct UnclassifiedObservation {
    pub occurrence_counter: i64,
    pub status_code: i64,
}

#[derive(Clone, Copy, Debug, PartialEq, Eq, Structural, Hash)]
pub enum BluetoothPowerObservation {
    Event(BluetoothPowerEvent),
    Unclassified(UnclassifiedObservation),
}

#[derive(Clone, Copy, Debug, PartialEq, Eq, Structural, Hash)]
pub enum BluetoothTopic {
    Power(BluetoothPowerObservation),
}

#[derive(Clone, Copy, Debug, PartialEq, Eq, Structural, Hash)]
pub struct BluetoothSystemEvent {
    pub bluetooth_target: BluetoothTarget,
    pub bluetooth_topic: BluetoothTopic,
}

#[derive(Clone, Copy, Debug, PartialEq, Eq, Structural, Hash)]
pub enum SystemdTarget {
    SystemManager,
    ServiceUnit,
}

#[derive(Clone, Copy, Debug, PartialEq, Eq, Structural, Hash)]
pub enum ServiceLifecycleEvent {
    Started,
    Stopped,
    Failed,
}

#[derive(Clone, Copy, Debug, PartialEq, Eq, Structural, Hash)]
pub enum ServiceLifecycleObservation {
    Event(ServiceLifecycleEvent),
    Unclassified(UnclassifiedObservation),
}

#[derive(Clone, Copy, Debug, PartialEq, Eq, Structural, Hash)]
pub enum SystemdTopic {
    Lifecycle(ServiceLifecycleObservation),
}

#[derive(Clone, Copy, Debug, PartialEq, Eq, Structural, Hash)]
pub struct SystemdSystemEvent {
    pub systemd_target: SystemdTarget,
    pub systemd_topic: SystemdTopic,
}

#[derive(Clone, Copy, Debug, PartialEq, Eq, Structural, Hash)]
pub enum TargetedSystemEvent {
    Bluetooth(BluetoothSystemEvent),
    Systemd(SystemdSystemEvent),
}

#[derive(Clone, Copy, Debug, PartialEq, Eq, Structural, Hash)]
pub enum SystemEventDomain {
    Hardware,
    ServiceControl,
}

#[derive(Clone, Copy, Debug, PartialEq, Eq, Structural, Hash)]
pub enum EventSeverity {
    Debug,
    Info,
    Notice,
    Warning,
    Error,
}

#[derive(Clone, Copy, Debug, PartialEq, Eq, Structural, Hash)]
pub enum JournalSource {
    SystemdBluetoothService,
    SystemdManager,
}

#[derive(Clone, Copy, Debug, PartialEq, Eq, Structural, Hash)]
pub enum EventSource {
    Journal(JournalSource),
    BusConnection,
    /// An application speaking for itself, by the process identifier it claims.
    Application(u32),
}

#[derive(Clone, Copy, Debug, PartialEq, Eq, Structural, Hash)]
pub enum ProvenanceTrust {
    TrustedJournalMetadata,
    TrustedConnectionMetadata,
    UntrustedApplicationMetadata,
}

#[derive(Clone, Copy, Debug, PartialEq, Eq, Structural, Hash)]
pub struct EventProvenance {
    pub event_source: EventSource,
    pub provenance_trust: ProvenanceTrust,
}

/// Extracted payload text, already bounded by the extractor.
#[derive(Debug, PartialEq, Eq, Hash)]
pub struct BoundedPayload {
    pub text: String,
}

impl Clone for BoundedPayload {
    fn clone(&self) -> (r: Self)
        ensures
            r == *self,
    {
        BoundedPayload { text: self.text.clone() }
    }
}

/// One targeted observation of the system.
#[derive(Debug, PartialEq, Eq, Hash)]
pub struct SystemEvent {
    pub event_identifier: i64,
    pub boot_identifier: BootIdentifier,
    pub event_instant: i64,
    pub targeted_system_event: TargetedSystemEvent,
    pub event_severity: EventSeverity,
    pub event_provenance: EventProvenance,
    pub extractor_revision: i64,
    pub policy_revision: i64,
    pub bounded_payload_option: Option<BoundedPayload>,
}

impl Clone for SystemEvent {
    fn clone(&self) -> (r: Self)
        ensures
            r == *self,
    {
        let bounded_payload_option = match &self.bounded_payload_option {
            Some(payload) => Some(payload.clone()),
            None => None,
        };
        SystemEvent {
            event_identifier: self.event_identifier,
            boot_identifier: self.boot_identifier,
            event_instant: self.event_instant,
            targeted_system_event: self.targeted_system_event,
            event_severity: self.event_severity,
            event_provenance: self.event_provenance,
            extractor_revision: self.extractor_revision,
            policy_revision: self.policy_revision,
            bounded_payload_option,
        }
    }
}

/// How a coalescing window ended, or that it is still open.
#[derive(Clone, Copy, Debug, PartialEq, Eq, Structural, Hash)]
pub enum CoalescingClosure {
    Active,
    Interval,
    ExplicitFlush,
    Shutdown,
    Eviction,
}

/// One coalescing window of exact duplicates. The integer and instant
/// positions are ordinal; `contract::CoalescedReading` names them.
#[derive(Debug, PartialEq, Eq)]
pub struct CoalescedSystemEvent {
    pub system_event: SystemEvent,
    pub first_integer: i64,
    pub first_event_instant: i64,
    pub second_event_instant: i64,
    pub second_integer: i64,
    pub policy_revision: i64,
    pub coalescing_closure: CoalescingClosure,
}

impl Clone for CoalescedSystemEvent {
    fn clone(&self) -> (r: Self)
        ensures
            r == *self,
    {
        CoalescedSystemEvent {
            system_event: self.system_event.clone(),
            first_integer: self.first_integer,
            first_event_instant: self.first_event_instant,
            second_event_instant: self.second_event_instant,
            second_integer: self.second_integer,
            policy_revision: self.policy_revision,
            coalescing_closure: self.coalescing_closure,
        }
    }
}

/// The receipt for one admitted system event: the representative's
/// identifier, the window's count, and its suppressed count.
#[derive(Clone, Copy, Debug, PartialEq, Eq, Structural)]
pub struct SystemEventAccepted {
    pub event_identifier: i64,
    pub first_integer: i64,
    pub second_integer: i64,
}

/// Active keys, evictions so far, and the active-key bound.
#[derive(Clone, Copy, Debug, PartialEq, Eq, Structural)]
pub struct ExactCoalescingStatus {
    pub first_integer: i64,
    pub second_integer: i64,
    pub third_integer: i64,
}

#[derive(Clone, Copy, Debug, PartialEq, Eq, Structural)]
pub struct SystemEventsQuery {
    pub boot_identifier: BootIdentifier,
    pub system_event_domain_option: Option<SystemEventDomain>,
}

#[derive(Debug, PartialEq, Eq)]
pub struct SystemEvents {
    pub boot_identifier: BootIdentifier,
    pub system_event_summaries: Vec<CoalescedSystemEvent>,
    pub exact_coalescing_status: ExactCoalescingStatus,
}

impl Clone for SystemEvents {
    fn clone(&self) -> (r: Self)
        ensures
            r.boot_identifier == self.boot_identifier,
            r.system_event_summaries@ == self.system_event_summaries@,
            r.exact_coalescing_status == self.exact_coalescing_status,
    {
        let system_event_summaries = self.system_event_summaries.clone();
        proof {
            assert(system_event_summaries@ =~= self.system_event_summaries@);
        }
        SystemEvents {
            boot_identifier: self.boot_identifier,
            system_event_summaries,
            exact_coalescing_status: self.exact_coalescing_status,
        }
    }
}

#[derive(Debug, PartialEq, Eq)]
pub struct SystemEventsFlushed {
    pub boot_identifier: BootIdentifier,
    pub system_event_summaries: Vec<CoalescedSystemEvent>,
}

impl Clone for SystemEventsFlushed {
    fn clone(&self) -> (r: Self)
        ensures
            r.boot_identifier == self.boot_identifier,
            r.system_event_summaries@ == self.system_event_summaries@,
    {
        let system_event_summaries = self.system_event_summaries.clone();
        proof {
            assert(system_event_summaries@ =~= self.system_event_summaries@);
        }
        SystemEventsFlushed { boot_identifier: self.boot_identifier, system_event_summaries }
    }
}

#[derive(Debug, PartialEq, Eq)]
pub struct RecordSystemEvent {
    pub system_event: SystemEvent,
}

impl Clone for RecordSystemEvent {
    fn clone(&self) -> (r: Self)
        ensures
            r == *self,
    {
        RecordSystemEvent { system_event: self.system_event.clone() }
    }
}

#[derive(Clone, Copy, Debug, PartialEq, Eq, Structural)]
pub struct FlushSystemEvents {
    pub boot_identifier: BootIdentifier,
}

// ---------------------------------------------------------------------------
// Component and delivery traces
// ---------------------------------------------------------------------------

#[derive(Clone, Copy, Debug, PartialEq, Eq, Structural, Hash)]
pub enum IntrospectionTarget {
    EngineManager,
    Router,
    Terminal,
    Harness,
    Signal,
}

#[derive(Clone, Copy, Debug, PartialEq, Eq, Structural, Hash)]
pub enum TraceLayer {
    Signal,
    Nexus,
    Sema,
}

/// One component-internal trace event, pushed by the emitting component.
#[derive(Debug, PartialEq, Eq)]
pub struct ComponentTraceEvent {
    pub engine_identifier: String,
    pub introspection_target: IntrospectionTarget,
    pub trace_layer: TraceLayer,
    pub trace_event_name: String,
    pub trace_sequence: i64,
}

impl Clone for ComponentTraceEvent {
    fn clone(&self) -> (r: Self)
        ensures
            r == *self,
    {
        ComponentTraceEvent {
            engine_identifier: self.engine_identifier.clone(),
            introspection_target: self.introspection_target,
            trace_layer: self.trace_layer,
            trace_event_name: self.trace_event_name.clone(),
            trace_sequence: self.trace_sequence,
        }
    }
}

#[derive(Debug, PartialEq, Eq)]
pub struct ComponentTraceQuery {
    pub engine_identifier: String,
    pub introspection_target: IntrospectionTarget,
    pub optional_trace_event_name: Option<String>,
}

impl Clone for ComponentTraceQuery {
    fn clone(&self) -> (r: Self)
        ensures
            r == *self,
    {
        let optional_trace_event_name = match &self.optional_trace_event_name {
            Some(name) => Some(name.clone()),
            None => None,
        };
        ComponentTraceQuery {
            engine_identifier: self.engine_identifier.clone(),
            introspection_target: self.introspection_target,
            optional_trace_event_name,
        }
    }
}

#[derive(Debug, PartialEq, Eq)]
pub struct ComponentTrace {
    pub engine_identifier: String,
    pub introspection_target: IntrospectionTarget,
    pub component_trace_events: Vec<ComponentTraceEvent>,
}

impl Clone for ComponentTrace {
    fn clone(&self) -> (r: Self)
        ensures
            r.engine_identifier == self.engine_identifier,
            r.introspection_target == self.introspection_target,
            r.component_trace_events@ == self.component_trace_events@,
    {
        let component_trace_events = self.component_trace_events.clone();
        proof {
            assert(component_trace_events@ =~= self.component_trace_events@);
        }
        ComponentTrace {
            engine_identifier: self.engine_identifier.clone(),
            introspection_target: self.introspection_target,
            component_trace_events,
        }
    }
}

#[derive(Clone, Copy, Debug, PartialEq, Eq, Structural, Hash)]
pub enum DeliveryTraceObservationStatus {
    Accepted,
    Routed,
    Delivered,
    Failed,
}

/// Introspection-owned key of one observed delivery hop: the message it
/// belongs to (engine, slot, originator) and the hop's position.
#[derive(Debug, PartialEq, Eq)]
pub struct DeliveryTraceObservationKey {
    pub engine_identifier: String,
    pub message_slot: i64,
    pub component_name: String,
    pub hop_index: i64,
}

impl Clone for DeliveryTraceObservationKey {
    fn clone(&self) -> (r: Self)
        ensures
            r == *self,
    {
        DeliveryTraceObservationKey {
            engine_identifier: self.engine_identifier.clone(),
            message_slot: self.message_slot,
            component_name: self.component_name.clone(),
            hop_index: self.hop_index,
        }
    }
}

/// The join portion of a delivery-trace key: one message, every hop.
#[derive(Debug, PartialEq, Eq)]
pub struct DeliveryTraceObservationJoinKey {
    pub engine_identifier: String,
    pub message_slot: i64,
    pub component_name: String,
}

impl Clone for DeliveryTraceObservationJoinKey {
    fn clone(&self) -> (r: Self)
        ensures
            r == *self,
    {
        DeliveryTraceObservationJoinKey {
            engine_identifier: self.engine_identifier.clone(),
            message_slot: self.message_slot,
            component_name: self.component_name.clone(),
        }
    }
}

#[derive(Debug, PartialEq, Eq)]
pub struct DeliveryTraceObservationEvent {
    pub delivery_trace_observation_key: DeliveryTraceObservationKey,
    pub component_name: String,
    pub delivery_trace_observation_status: DeliveryTraceObservationStatus,
}

impl Clone for DeliveryTraceObservationEvent {
    fn clone(&self) -> (r: Self)
        ensures
            r == *self,
    {
        DeliveryTraceObservationEvent {
            delivery_trace_observation_key: self.delivery_trace_observation_key.clone(),
            component_name: self.component_name.clone(),
            delivery_trace_observation_status: self.delivery_trace_observation_status,
        }
    }
}

#[derive(Debug, PartialEq, Eq)]
pub struct DeliveryTraceObservationQuery {
    pub engine_identifier: String,
    pub message_slot: i64,
    pub component_name: String,
}

impl Clone for DeliveryTraceObservationQuery {
    fn clone(&self) -> (r: Self)
        ensures
            r == *self,
    {
        DeliveryTraceObservationQuery {
            engine_identifier: self.engine_identifier.clone(),
            message_slot: self.message_slot,
            component_name: self.component_name.clone(),
        }
    }
}

#[derive(Debug, PartialEq, Eq)]
pub struct DeliveryTraceObservation {
    pub engine_identifier: String,
    pub message_slot: i64,
    pub component_name: String,
    pub delivery_trace_observation_events: Vec<DeliveryTraceObservationEvent>,
}

impl Clone for DeliveryTraceObservation {
    fn clone(&self) -> (r: Self)
        ensures
            r.engine_identifier == self.engine_identifier,
            r.message_slot == self.message_slot,
            r.component_name == self.component_name,
            r.delivery_trace_observation_events@ == self.delivery_trace_observation_events@,
    {
        let delivery_trace_observation_events = self.delivery_trace_observation_events.clone();
        proof {
            assert(delivery_trace_observation_events@ =~= self.delivery_trace_observation_events@);
        }
        DeliveryTraceObservation {
            engine_identifier: self.engine_identifier.clone(),
            message_slot: self.message_slot,
            component_name: self.component_name.clone(),
            delivery_trace_observation_events,
        }
    }
}

// ---------------------------------------------------------------------------
// Observation queries and responses
// ---------------------------------------------------------------------------

#[derive(Clone, Copy, Debug, PartialEq, Eq, Structural, Hash)]
pub enum ComponentReadiness {
    Ready,
    NotReady,
}

#[derive(Debug, PartialEq, Eq)]
pub struct EngineSnapshotObservationQuery {
    pub engine_identifier: String,
}

impl Clone for EngineSnapshotObservationQuery {
    fn clone(&self) -> (r: Self)
        ensures
            r == *self,
    {
        EngineSnapshotObservationQuery { engine_identifier: self.engine_identifier.clone() }
    }
}

#[derive(Debug, PartialEq, Eq)]
pub struct EngineSnapshotObservation {
    pub engine_identifier: String,
    pub observed_components: Vec<IntrospectionTarget>,
}

impl Clone for EngineSnapshotObservation {
    fn clone(&self) -> (r: Self)
        ensures
            r.engine_identifier == self.engine_identifier,
            r.observed_components@ == self.observed_components@,
    {
        let observed_components = self.observed_components.clone();
        proof {
            assert(observed_components@ =~= self.observed_components@);
        }
        EngineSnapshotObservation { engine_identifier: self.engine_identifier.clone(), observed_components }
    }
}

#[derive(Debug, PartialEq, Eq)]
pub struct ComponentSnapshotObservationQuery {
    pub engine_identifier: String,
    pub introspection_target: IntrospectionTarget,
}

impl Clone for ComponentSnapshotObservationQuery {
    fn clone(&self) -> (r: Self)
        ensures
            r == *self,
    {
        ComponentSnapshotObservationQuery {
            engine_identifier: self.engine_identifier.clone(),
            introspection_target: self.introspection_target,
        }
    }
}

#[derive(Debug, PartialEq, Eq)]
pub struct ComponentSnapshotObservation {
    pub engine_identifier: String,
    pub introspection_target: IntrospectionTarget,
    pub optional_component_readiness: Option<ComponentReadiness>,
}

impl Clone for ComponentSnapshotObservation {
    fn clone(&self) -> (r: Self)
        ensures
            r == *self,
    {
        ComponentSnapshotObservation {
            engine_identifier: self.engine_identifier.clone(),
            introspection_target: self.introspection_target,
            optional_component_readiness: self.optional_component_readiness,
        }
    }
}

#[derive(Debug, PartialEq, Eq)]
pub struct PrototypeWitnessObservationQuery {
    pub engine_identifier: String,
}

impl Clone for PrototypeWitnessObservationQuery {
    fn clone(&self) -> (r: Self)
        ensures
            r == *self,
    {
        PrototypeWitnessObservationQuery { engine_identifier: self.engine_identifier.clone() }
    }
}

/// The witness of one prototype delivery: the engine, the readiness seen at
/// the manager, router and terminal positions, and the delivery status.
#[derive(Debug, PartialEq, Eq)]
pub struct PrototypeWitnessObservation {
    pub engine_identifier: String,
    pub first_optional_component_readiness: Option<ComponentReadiness>,
    pub second_optional_component_readiness: Option<ComponentReadiness>,
    pub third_optional_component_readiness: Option<ComponentReadiness>,
    pub delivery_trace_observation_status_option: Option<DeliveryTraceObservationStatus>,
}

impl Clone for PrototypeWitnessObservation {
    fn clone(&self) -> (r: Self)
        ensures
            r == *self,
    {
        PrototypeWitnessObservation {
            engine_identifier: self.engine_identifier.clone(),
            first_optional_component_readiness: self.first_optional_component_readiness,
            second_optional_component_readiness: self.second_optional_component_readiness,
            third_optional_component_readiness: self.third_optional_component_readiness,
            delivery_trace_observation_status_option: self.delivery_trace_observation_status_option,
        }
    }
}

/// Every request the working socket admits.
#[derive(Debug, PartialEq, Eq)]
pub enum Query {
    EngineSnapshotObservation(EngineSnapshotObservationQuery),
    ComponentSnapshotObservation(ComponentSnapshotObservationQuery),
    DeliveryTraceObservation(DeliveryTraceObservationQuery),
    ComponentTrace(ComponentTraceQuery),
    RecordSystemEvent(RecordSystemEvent),
    SystemEvents(SystemEventsQuery),
    FlushSystemEvents(FlushSystemEvents),
    PrototypeWitnessObservation(PrototypeWitnessObservationQuery),
}

impl Clone for Query {
    fn clone(&self) -> (r: Self)
        ensures
            r == *self,
    {
        match self {
            Query::EngineSnapshotObservation(q) => Query::EngineSnapshotObservation(q.clone()),
            Query::ComponentSnapshotObservation(q) => Query::ComponentSnapshotObservation(q.clone()),
            Query::DeliveryTraceObservation(q) => Query::DeliveryTraceObservation(q.clone()),
            Query::ComponentTrace(q) => Query::ComponentTrace(q.clone()),
            Query::RecordSystemEvent(r) => Query::RecordSystemEvent(r.clone()),
            Query::SystemEvents(q) => Query::SystemEvents(*q),
            Query::FlushSystemEvents(f) => Query::FlushSystemEvents(*f),
            Query::PrototypeWitnessObservation(q) => Query::PrototypeWitnessObservation(q.clone()),
        }
    }
}

/// Every reply the working socket sends.
#[derive(Debug, PartialEq, Eq)]
pub enum Response {
    EngineSnapshotObservation(EngineSnapshotObservation),
    ComponentSnapshotObservation(ComponentSnapshotObservation),
    DeliveryTraceObservation(DeliveryTraceObservation),
    ComponentTrace(ComponentTrace),
    SystemEventAccepted(SystemEventAccepted),
    SystemEvents(SystemEvents),
    SystemEventsFlushed(SystemEventsFlushed),
    PrototypeWitnessObservation(PrototypeWitnessObservation),
}

/// Two responses carry the same answer: the same variant with the same
/// fields, each list by its contents.
pub open spec fn same_response(a: Response, b: Response) -> bool {
    match (a, b) {
        (Response::EngineSnapshotObservation(x), Response::EngineSnapshotObservation(y)) => {
            &&& x.engine_identifier == y.engine_identifier
            &&& x.observed_components@ == y.observed_components@
        },
        (Response::ComponentSnapshotObservation(x), Response::ComponentSnapshotObservation(y)) => x == y,
        (Response::DeliveryTraceObservation(x), Response::DeliveryTraceObservation(y)) => {
            &&& x.engine_identifier == y.engine_identifier
            &&& x.message_slot == y.message_slot
            &&& x.component_name == y.component_name
            &&& x.delivery_trace_observation_events@ == y.delivery_trace_observation_events@
        },
        (Response::ComponentTrace(x), Response::ComponentTrace(y)) => {
            &&& x.engine_identifier == y.engine_identifier
            &&& x.introspection_target == y.introspection_target
            &&& x.component_trace_events@ == y.component_trace_events@
        },
        (Response::SystemEventAccepted(x), Response::SystemEventAccepted(y)) => x == y,
        (Response::SystemEvents(x), Response::SystemEvents(y)) => {
            &&& x.boot_identifier == y.boot_identifier
            &&& x.system_event_summaries@ == y.system_event_summaries@
            &&& x.exact_coalescing_status == y.exact_coalescing_status
        },
        (Response::SystemEventsFlushed(x), Response::SystemEventsFlushed(y)) => {
            &&& x.boot_identifier == y.boot_identifier
            &&& x.system_event_summaries@ == y.system_event_summaries@
        },
        (Response::PrototypeWitnessObservation(x), Response::PrototypeWitnessObservation(y)) => x == y,
        _ => false,
    }
}

impl Clone for Response {
    fn clone(&self) -> (r: Self)
        ensures
            same_response(r, *self),
    {
        match self {
            Response::EngineSnapshotObservation(o) => Response::EngineSnapshotObservation(o.clone()),
            Response::ComponentSnapshotObservation(o) => Response::ComponentSnapshotObservation(o.clone()),
            Response::DeliveryTraceObservation(o) => Response::DeliveryTraceObservation(o.clone()),
            Response::ComponentTrace(o) => Response::ComponentTrace(o.clone()),
            Response::SystemEventAccepted(a) => Response::SystemEventAccepted(*a),
            Response::SystemEvents(e) => Response::SystemEvents(e.clone()),
            Response::SystemEventsFlushed(f) => Response::SystemEventsFlushed(f.clone()),
            Response::PrototypeWitnessObservation(o) => Response::PrototypeWitnessObservation(o.clone()),
        }
    }
}

// ---------------------------------------------------------------------------
// Daemon configuration and the meta plane
// ---------------------------------------------------------------------------

#[derive(Clone, Copy, Debug, PartialEq, Eq, Structural, Hash)]
pub enum OwnerIdentity {
    UnixUser(u32),
}

/// The typed startup record the engine manager hands the daemon.
#[derive(Debug, PartialEq, Eq)]
pub struct IntrospectDaemonConfiguration {
    pub introspect_socket_path: String,
    pub introspect_socket_mode: u32,
    pub supervision_socket_path: String,
    pub supervision_socket_mode: u32,
    pub store_path: String,
    pub manager_socket_path: String,
    pub router_socket_path: String,
    pub terminal_socket_path: String,
    pub trace_socket_path: String,
    pub owner_identity: OwnerIdentity,
}

impl Clone for IntrospectDaemonConfiguration {
    fn clone(&self) -> (r: Self)
        ensures
            r == *self,
    {
        IntrospectDaemonConfiguration {
            introspect_socket_path: self.introspect_socket_path.clone(),
            introspect_socket_mode: self.introspect_socket_mode,
            supervision_socket_path: self.supervision_socket_path.clone(),
            supervision_socket_mode: self.supervision_socket_mode,
            store_path: self.store_path.clone(),
            manager_socket_path: self.manager_socket_path.clone(),
            router_socket_path: self.router_socket_path.clone(),
            terminal_socket_path: self.terminal_socket_path.clone(),
            trace_socket_path: self.trace_socket_path.clone(),
            owner_identity: self.owner_identity,
        }
    }
}

/// Every request the owner-only meta socket admits.
#[derive(Debug, PartialEq, Eq)]
pub enum MetaIntrospectQuery {
    Configure(IntrospectDaemonConfiguration),
}

impl Clone for MetaIntrospectQuery {
    fn clone(&self) -> (r: Self)
        ensures
            r == *self,
    {
        match self {
            MetaIntrospectQuery::Configure(configuration) => MetaIntrospectQuery::Configure(configuration.clone()),
        }
    }
}

#[derive(Clone, Copy, Debug, PartialEq, Eq, Structural, Hash)]
pub enum MetaIntrospectOperationKind {
    Configure,
}

#[derive(Clone, Copy, Debug, PartialEq, Eq, Structural, Hash)]
pub enum UnimplementedReason {
    NotBuiltYet,
}

#[derive(Clone, Copy, Debug, PartialEq, Eq, Structural)]
pub struct RequestUnimplemented {
    pub meta_introspect_operation_kind: MetaIntrospectOperationKind,
    pub unimplemented_reason: UnimplementedReason,
}

#[derive(Clone, Copy, Debug, PartialEq, Eq, Structural)]
pub struct Configured {
    pub configuration_generation: i64,
}

/// Every reply the meta socket sends.
#[derive(Clone, Copy, Debug, PartialEq, Eq, Structural)]
pub enum MetaIntrospectResponse {
    Configured(Configured),
    RequestUnimplemented(RequestUnimplemented),
}

} // verus!
