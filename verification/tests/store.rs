//! Introspect's durable-state decisions: what the root records, what bounded
//! retention reclaims, and how a delivery trace is selected and ordered.

use introspect::coalescer::ExactCoalescingPolicy;
use introspect::runtime::{IntrospectionRoot, RootStep, StepOutcome};
use introspect::store::{
    excess, summary_write, IntrospectionStore, PersistenceRetention, StoreLocation, SummaryWrite,
};
use introspect::store_record::{
    ObservationSequence, StoredComponentTraceEvent, StoredDeliveryTraceEvent, StoredObservation,
    StoredSystemEventSummary,
};
use introspect::wire::{
    ComponentSnapshotObservationQuery, ComponentTraceEvent, ComponentTraceQuery,
    DeliveryTraceObservationEvent, DeliveryTraceObservationKey, DeliveryTraceObservationQuery,
    DeliveryTraceObservationStatus, EngineSnapshotObservation, EngineSnapshotObservationQuery,
    IntrospectionTarget, PrototypeWitnessObservationQuery, Query, Response, TraceLayer,
};
use introspect::contract::{coalesced, trusted_journal};
use introspect::wire::{
    BluetoothPowerEvent, BluetoothPowerObservation, BluetoothSystemEvent, BluetoothTarget,
    BluetoothTopic, BootIdentifier, CoalescingClosure, EventSeverity, JournalSource,
    SystemEvent, TargetedSystemEvent,
};

const ENGINE: &str = "prototype";

fn engine_snapshot_query() -> Query {
    Query::EngineSnapshotObservation(EngineSnapshotObservationQuery {
        engine_identifier: ENGINE.to_owned(),
    })
}

fn prototype_witness_query() -> Query {
    Query::PrototypeWitnessObservation(PrototypeWitnessObservationQuery {
        engine_identifier: ENGINE.to_owned(),
    })
}

fn delivery_trace_query(message_slot: i64, originator: &str) -> DeliveryTraceObservationQuery {
    DeliveryTraceObservationQuery {
        engine_identifier: ENGINE.to_owned(),
        message_slot,
        component_name: originator.to_owned(),
    }
}

fn trace_event(
    message_slot: i64,
    originator: &str,
    hop_index: i64,
    component: &str,
    status: DeliveryTraceObservationStatus,
) -> DeliveryTraceObservationEvent {
    DeliveryTraceObservationEvent {
        delivery_trace_observation_key: DeliveryTraceObservationKey {
            engine_identifier: ENGINE.to_owned(),
            message_slot,
            component_name: originator.to_owned(),
            hop_index,
        },
        component_name: component.to_owned(),
        delivery_trace_observation_status: status,
    }
}

fn component_trace_event(sequence: i64) -> ComponentTraceEvent {
    ComponentTraceEvent {
        engine_identifier: ENGINE.to_owned(),
        introspection_target: IntrospectionTarget::Signal,
        trace_layer: TraceLayer::Signal,
        trace_event_name: "SignalAdmitted".to_owned(),
        trace_sequence: sequence,
    }
}

fn store_with(retention: PersistenceRetention) -> IntrospectionStore {
    IntrospectionStore::new(retention, ExactCoalescingPolicy::default())
}

/// Answer one query the way the root does, with nothing behind the store
/// and no router configured.
fn answer(root: &mut IntrospectionRoot, query: Query) -> Response {
    match root.plan(query) {
        RootStep::Respond(response) => response,
        RootStep::ReadDeliveryTrace(query) => {
            let store = store_with(PersistenceRetention::default());
            IntrospectionRoot::complete(StepOutcome::DeliveryTrace(
                store.delivery_trace(query, Vec::new()),
            ))
        }
        RootStep::QueryRouterSummary(engine) => {
            IntrospectionRoot::complete(StepOutcome::RouterReadiness {
                engine,
                readiness: None,
            })
        }
        other => panic!("unexpected step {other:?}"),
    }
}

fn rebuild(query: &Query) -> Query {
    match query {
        Query::EngineSnapshotObservation(q) => {
            Query::EngineSnapshotObservation(EngineSnapshotObservationQuery {
                engine_identifier: q.engine_identifier.clone(),
            })
        }
        Query::ComponentSnapshotObservation(q) => {
            Query::ComponentSnapshotObservation(ComponentSnapshotObservationQuery {
                engine_identifier: q.engine_identifier.clone(),
                introspection_target: q.introspection_target,
            })
        }
        Query::DeliveryTraceObservation(q) => Query::DeliveryTraceObservation(q.clone()),
        Query::PrototypeWitnessObservation(q) => {
            Query::PrototypeWitnessObservation(PrototypeWitnessObservationQuery {
                engine_identifier: q.engine_identifier.clone(),
            })
        }
        other => panic!("not rebuilt here: {other:?}"),
    }
}

#[test]
fn introspection_root_records_observations_through_sema_engine() {
    let mut root = IntrospectionRoot::new();
    let query = prototype_witness_query();
    let response = answer(&mut root, rebuild(&query));
    assert!(IntrospectionRoot::should_record(&query));
    let observation = root.observation(rebuild(&query), response);

    assert_eq!(observation.sequence().value(), 1);
    assert_eq!(observation.query(), &query);
    assert!(matches!(
        observation.response(),
        Response::PrototypeWitnessObservation(_)
    ));
    assert_eq!(observation.record_key(), "1");
}

#[test]
fn observation_query_families_persist_through_actor_root_and_sema_engine() {
    let queries = [
        engine_snapshot_query(),
        Query::ComponentSnapshotObservation(ComponentSnapshotObservationQuery {
            engine_identifier: ENGINE.to_owned(),
            introspection_target: IntrospectionTarget::Router,
        }),
        Query::DeliveryTraceObservation(delivery_trace_query(7, "Message")),
        prototype_witness_query(),
    ];
    let mut root = IntrospectionRoot::new();
    let mut observations = Vec::new();
    for query in &queries {
        let response = answer(&mut root, rebuild(query));
        assert!(IntrospectionRoot::should_record(query));
        observations.push(root.observation(rebuild(query), response));
    }

    assert_eq!(observations.len(), queries.len());
    for (index, query) in queries.iter().enumerate() {
        let observation = &observations[index];
        assert_eq!(observation.sequence().value() as usize, index + 1);
        assert_eq!(observation.query(), query);
        assert_eq!(observation.record_key(), format!("{}", index + 1));
    }
}

#[test]
fn delivery_trace_query_returns_four_hops_ordered_by_trace_key() {
    let store = store_with(PersistenceRetention::default());
    let events = vec![
        trace_event(7, "Message", 2, "Router", DeliveryTraceObservationStatus::Routed),
        trace_event(7, "Message", 0, "Message", DeliveryTraceObservationStatus::Accepted),
        trace_event(7, "Message", 3, "Harness", DeliveryTraceObservationStatus::Failed),
        trace_event(7, "Message", 1, "Mind", DeliveryTraceObservationStatus::Routed),
    ];
    // Hops of a different message, and of a different originator on the same
    // message, must not appear in the queried trace.
    let noise = vec![
        trace_event(8, "Message", 0, "Message", DeliveryTraceObservationStatus::Accepted),
        trace_event(7, "Harness", 0, "Harness", DeliveryTraceObservationStatus::Accepted),
    ];
    let scanned = events
        .into_iter()
        .chain(noise)
        .map(StoredDeliveryTraceEvent::new)
        .collect::<Vec<_>>();

    let trace = store.delivery_trace(delivery_trace_query(7, "Message"), scanned);
    assert_eq!(trace.delivery_trace_observation_events.len(), 4);
    let hops = trace
        .delivery_trace_observation_events
        .iter()
        .map(|event| event.delivery_trace_observation_key.hop_index)
        .collect::<Vec<_>>();
    assert_eq!(hops, vec![0, 1, 2, 3]);
    assert_eq!(trace.message_slot, 7);
    assert_eq!(trace.component_name, "Message");
}

#[test]
fn bounded_observation_retention_reclaims_oldest_rows() {
    let store = store_with(PersistenceRetention::new(2, 2, 2));
    let mut rows: Vec<StoredObservation> = Vec::new();
    for sequence in 1..=3 {
        rows.push(StoredObservation::new(
            ObservationSequence::new(sequence),
            engine_snapshot_query(),
            Response::EngineSnapshotObservation(EngineSnapshotObservation {
                engine_identifier: ENGINE.to_owned(),
                observed_components: Vec::new(),
            }),
        ));
        let sequences = rows.iter().map(|row| row.sequence()).collect::<Vec<_>>();
        let reclaimed = store.observations_to_reclaim(sequences);
        rows.retain(|row| !reclaimed.contains(&row.sequence()));
    }
    let sequences = rows
        .iter()
        .map(|observation| observation.sequence().value())
        .collect::<Vec<_>>();
    assert_eq!(sequences, vec![2, 3], "oldest diagnostic rows are retracted");
}

/// A table kept in record-key order, as the store engine keeps it.
struct KeyOrderedTable<Row> {
    rows: Vec<(String, Row)>,
}

impl<Row: Clone> KeyOrderedTable<Row> {
    fn new() -> Self {
        Self { rows: Vec::new() }
    }

    fn insert_row(&mut self, key: String, row: Row) {
        self.rows.retain(|(existing, _)| existing != &key);
        self.rows.push((key, row));
        self.rows.sort_by(|a, b| a.0.cmp(&b.0));
    }

    fn retract_keys(&mut self, keys: &[String]) {
        self.rows.retain(|(key, _)| !keys.contains(key));
    }

    fn scan(&self) -> Vec<Row> {
        self.rows.iter().map(|(_, row)| row.clone()).collect()
    }
}

#[test]
fn bounded_trace_retention_keeps_a_finite_queryable_window() {
    let store = store_with(PersistenceRetention::new(2, 2, 2));
    let mut delivery = KeyOrderedTable::new();
    let mut component = KeyOrderedTable::new();
    for sequence in 1..=3 {
        let hop = StoredDeliveryTraceEvent::new(trace_event(
            sequence,
            "Message",
            0,
            "Router",
            DeliveryTraceObservationStatus::Routed,
        ));
        delivery.insert_row(hop.record_key(), hop);
        let reclaimed = store.delivery_trace_events_to_reclaim(delivery.scan());
        let keys: Vec<String> = reclaimed.iter().map(|hop| hop.record_key()).collect();
        delivery.retract_keys(&keys);

        let event = StoredComponentTraceEvent::new(component_trace_event(sequence));
        component.insert_row(event.record_key(), event);
        let reclaimed = store.component_trace_events_to_reclaim(component.scan());
        let keys: Vec<String> = reclaimed.iter().map(|event| event.record_key()).collect();
        component.retract_keys(&keys);
    }

    let first_delivery = store.delivery_trace(delivery_trace_query(1, "Message"), delivery.scan());
    assert!(
        first_delivery.delivery_trace_observation_events.is_empty(),
        "oldest delivery trace is reclaimed"
    );

    let traces = store.component_trace(
        ComponentTraceQuery {
            engine_identifier: ENGINE.to_owned(),
            introspection_target: IntrospectionTarget::Signal,
            optional_trace_event_name: None,
        },
        component.scan(),
    );
    let retained_sequences = traces
        .component_trace_events
        .iter()
        .map(|event| event.trace_sequence)
        .collect::<Vec<_>>();
    assert_eq!(retained_sequences, vec![2, 3], "oldest component trace is reclaimed");
}

#[test]
fn retention_caps_and_excess() {
    assert_eq!(excess(5, 3), 2);
    assert_eq!(excess(3, 5), 0);
    assert_eq!(excess(4, 4), 0);
    let store = store_with(PersistenceRetention::with_system_event_summaries(1, 2, 3, 4));
    let hops: Vec<StoredDeliveryTraceEvent> = (1..=5)
        .map(|slot| {
            StoredDeliveryTraceEvent::new(trace_event(
                slot,
                "Message",
                0,
                "Router",
                DeliveryTraceObservationStatus::Routed,
            ))
        })
        .collect();
    assert_eq!(store.delivery_trace_events_to_reclaim(hops).len(), 3);
    let events: Vec<StoredComponentTraceEvent> = (1..=5)
        .map(|sequence| StoredComponentTraceEvent::new(component_trace_event(sequence)))
        .collect();
    assert_eq!(store.component_trace_events_to_reclaim(events).len(), 2);
    assert_eq!(PersistenceRetention::default(), PersistenceRetention::new(1024, 4096, 4096));
}

#[test]
fn store_location_prefers_introspect_store_then_state_path() {
    assert_eq!(
        StoreLocation::from_settings(Some("/a".to_owned()), Some("/b".to_owned())).as_path(),
        "/a"
    );
    assert_eq!(StoreLocation::from_settings(None, Some("/b".to_owned())).as_path(), "/b");
    assert_eq!(StoreLocation::from_settings(None, None).as_path(), "/tmp/introspect.sema");
}

#[test]
fn summary_write_updates_an_existing_row() {
    let event = SystemEvent {
        event_identifier: 5,
        boot_identifier: BootIdentifier { first_integer: 1, second_integer: 2 },
        event_instant: 10,
        targeted_system_event: TargetedSystemEvent::Bluetooth(BluetoothSystemEvent {
            bluetooth_target: BluetoothTarget::Controller,
            bluetooth_topic: BluetoothTopic::Power(BluetoothPowerObservation::Event(
                BluetoothPowerEvent::ObservedOn,
            )),
        }),
        event_severity: EventSeverity::Warning,
        event_provenance: trusted_journal(JournalSource::SystemdBluetoothService),
        extractor_revision: 1,
        policy_revision: 2,
        bounded_payload_option: None,
    };
    let stored = StoredSystemEventSummary::new(coalesced(event.clone(), CoalescingClosure::Active));
    assert_eq!(summary_write(&stored, &Vec::new()), SummaryWrite::Assert);
    let mut later = coalesced(event, CoalescingClosure::Interval);
    later.first_integer = 3;
    let existing = vec![StoredSystemEventSummary::new(later)];
    assert_eq!(summary_write(&stored, &existing), SummaryWrite::Mutate);
}

#[test]
fn trace_retention_reclaims_the_oldest_message_not_the_first_key() {
    let store = store_with(PersistenceRetention::new(2, 2, 2));
    let mut delivery = KeyOrderedTable::new();
    for slot in [9, 10, 11] {
        let hop = StoredDeliveryTraceEvent::new(trace_event(
            slot,
            "Message",
            0,
            "Router",
            DeliveryTraceObservationStatus::Routed,
        ));
        delivery.insert_row(hop.record_key(), hop);
        let reclaimed = store.delivery_trace_events_to_reclaim(delivery.scan());
        let keys: Vec<String> = reclaimed.iter().map(|hop| hop.record_key()).collect();
        delivery.retract_keys(&keys);
    }
    let slots: Vec<i64> = delivery
        .scan()
        .iter()
        .map(|hop| hop.event().delivery_trace_observation_key.message_slot)
        .collect();
    assert_eq!(slots, vec![10, 11]);
    assert!(store.delivery_trace(delivery_trace_query(9, "Message"), delivery.scan())
        .delivery_trace_observation_events
        .is_empty());
}
