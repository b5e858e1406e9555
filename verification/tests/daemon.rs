//! The daemon's answers on its working and meta sockets, as the root and
//! the store decide them.

use introspect::coalescer::ExactCoalescingPolicy;
use introspect::contract::{trusted_journal, CoalescedReading};
use introspect::daemon::{
    meta_operation_kind, meta_response, peer_socket, IntrospectionDaemonConfiguration,
    IntrospectionSignalClient,
};
use introspect::runtime::{IntrospectionRoot, RootStep, StepOutcome};
use introspect::store::{IntrospectionStore, PersistenceRetention};
use introspect::store_record::StoredSystemEventSummary;
use introspect::wire::{
    BluetoothPowerEvent, BluetoothPowerObservation, BluetoothSystemEvent, BluetoothTarget,
    BluetoothTopic, BootIdentifier, ComponentSnapshotObservationQuery,
    DeliveryTraceObservationQuery, EngineSnapshotObservationQuery, EventSeverity,
    IntrospectDaemonConfiguration, IntrospectionTarget, JournalSource, MetaIntrospectOperationKind,
    MetaIntrospectQuery, MetaIntrospectResponse, OwnerIdentity, PrototypeWitnessObservationQuery,
    Query, RecordSystemEvent, Response, SystemEvent, SystemEventsQuery, TargetedSystemEvent,
    UnimplementedReason,
};
use introspect::wire::{
    ServiceLifecycleEvent, ServiceLifecycleObservation, SystemEventDomain, SystemdSystemEvent,
    SystemdTarget, SystemdTopic,
};

const ENGINE: &str = "prototype";

fn bluetooth_event(identifier: i64, observed_at: i64) -> SystemEvent {
    SystemEvent {
        event_identifier: identifier,
        boot_identifier: BootIdentifier {
            first_integer: 0x1234,
            second_integer: 0x5678,
        },
        event_instant: observed_at,
        targeted_system_event: TargetedSystemEvent::Bluetooth(BluetoothSystemEvent {
            bluetooth_target: BluetoothTarget::Controller,
            bluetooth_topic: BluetoothTopic::Power(BluetoothPowerObservation::Event(
                BluetoothPowerEvent::ObservedOn,
            )),
        }),
        event_severity: EventSeverity::Warning,
        event_provenance: trusted_journal(JournalSource::SystemdBluetoothService),
        extractor_revision: 1,
        policy_revision: 2,
        bounded_payload_option: None,
    }
}

fn daemon_configuration() -> IntrospectDaemonConfiguration {
    IntrospectDaemonConfiguration {
        introspect_socket_path: "/tmp/introspect.sock".to_owned(),
        introspect_socket_mode: 0o600,
        supervision_socket_path: "/tmp/meta-introspect.sock".to_owned(),
        supervision_socket_mode: 0o600,
        store_path: "/tmp/introspect.sema".to_owned(),
        manager_socket_path: String::new(),
        router_socket_path: "/tmp/router.sock".to_owned(),
        terminal_socket_path: String::new(),
        trace_socket_path: String::new(),
        owner_identity: OwnerIdentity::UnixUser(1000),
    }
}

/// Serve one working-socket query with an empty store and no router.
fn serve(root: &mut IntrospectionRoot, store: &mut IntrospectionStore, query: Query) -> Response {
    match root.plan(query) {
        RootStep::Respond(response) => response,
        RootStep::ReadDeliveryTrace(query) => {
            IntrospectionRoot::complete(StepOutcome::DeliveryTrace(store.delivery_trace(query, Vec::new())))
        }
        RootStep::QueryRouterSummary(engine) => {
            IntrospectionRoot::complete(StepOutcome::RouterReadiness { engine, readiness: None })
        }
        RootStep::RecordSystemEvent(event) => {
            let update = store.record_system_event(event).expect("event admitted");
            IntrospectionRoot::complete(StepOutcome::SystemEventAccepted(update.receipt()))
        }
        other => panic!("unexpected step {other:?}"),
    }
}

#[test]
fn daemon_serves_prototype_witness_over_signal_socket() {
    let mut root = IntrospectionRoot::new();
    let mut store = IntrospectionStore::new(PersistenceRetention::default(), ExactCoalescingPolicy::default());
    let response = serve(
        &mut root,
        &mut store,
        Query::PrototypeWitnessObservation(PrototypeWitnessObservationQuery {
            engine_identifier: ENGINE.to_owned(),
        }),
    );
    match response {
        Response::PrototypeWitnessObservation(witness) => {
            assert_eq!(witness.engine_identifier, ENGINE);
            assert_eq!(witness.first_optional_component_readiness, None);
            assert_eq!(witness.second_optional_component_readiness, None);
            assert_eq!(witness.third_optional_component_readiness, None);
            assert_eq!(witness.delivery_trace_observation_status_option, None);
        }
        other => panic!("expected prototype witness, got {other:?}"),
    }
}

#[test]
fn daemon_serves_scaffold_observation_responses_for_all_query_families() {
    let mut root = IntrospectionRoot::new();
    let mut store = IntrospectionStore::new(PersistenceRetention::default(), ExactCoalescingPolicy::default());

    let engine_response = serve(
        &mut root,
        &mut store,
        Query::EngineSnapshotObservation(EngineSnapshotObservationQuery {
            engine_identifier: ENGINE.to_owned(),
        }),
    );
    match engine_response {
        Response::EngineSnapshotObservation(snapshot) => {
            assert_eq!(snapshot.engine_identifier, ENGINE);
            for expected in [
                IntrospectionTarget::EngineManager,
                IntrospectionTarget::Router,
                IntrospectionTarget::Terminal,
            ] {
                assert!(snapshot.observed_components.contains(&expected));
            }
        }
        other => panic!("expected engine snapshot, got {other:?}"),
    }

    let component_response = serve(
        &mut root,
        &mut store,
        Query::ComponentSnapshotObservation(ComponentSnapshotObservationQuery {
            engine_identifier: ENGINE.to_owned(),
            introspection_target: IntrospectionTarget::Router,
        }),
    );
    match component_response {
        Response::ComponentSnapshotObservation(snapshot) => {
            assert_eq!(snapshot.introspection_target, IntrospectionTarget::Router);
            assert_eq!(snapshot.optional_component_readiness, None);
        }
        other => panic!("expected component snapshot, got {other:?}"),
    }

    let delivery_response = serve(
        &mut root,
        &mut store,
        Query::DeliveryTraceObservation(DeliveryTraceObservationQuery {
            engine_identifier: ENGINE.to_owned(),
            message_slot: 7,
            component_name: "Message".to_owned(),
        }),
    );
    match delivery_response {
        Response::DeliveryTraceObservation(trace) => {
            assert_eq!(trace.message_slot, 7);
            assert_eq!(trace.component_name, "Message");
            assert!(trace.delivery_trace_observation_events.is_empty());
        }
        other => panic!("expected delivery trace, got {other:?}"),
    }
}

#[test]
fn targeted_system_event_socket_ingestion_is_durable_and_typed_queryable() {
    let mut root = IntrospectionRoot::new();
    let mut store = IntrospectionStore::new(PersistenceRetention::default(), ExactCoalescingPolicy::default());
    // What the store table holds, by record key.
    let mut table: Vec<StoredSystemEventSummary> = Vec::new();
    for (identifier, observed_at) in [(41, 10), (42, 20)] {
        let query = Query::RecordSystemEvent(RecordSystemEvent {
            system_event: bluetooth_event(identifier, observed_at),
        });
        assert!(!IntrospectionRoot::should_record(&query));
        let RootStep::RecordSystemEvent(event) = root.plan(query) else {
            panic!("expected a record step");
        };
        let update = store.record_system_event(event).expect("event admitted");
        for summary in update.closed().iter().chain(std::iter::once(update.current())) {
            let stored = StoredSystemEventSummary::new(summary.clone());
            table.retain(|row| row.record_key() != stored.record_key());
            table.push(stored);
        }
        let Response::SystemEventAccepted(accepted) =
            IntrospectionRoot::complete(StepOutcome::SystemEventAccepted(update.receipt()))
        else {
            panic!("expected typed system-event acceptance");
        };
        assert_eq!(accepted.event_identifier, 41);
    }

    let events = store.system_events(
        SystemEventsQuery {
            boot_identifier: BootIdentifier {
                first_integer: 0x1234,
                second_integer: 0x5678,
            },
            system_event_domain_option: None,
        },
        table,
    );
    assert_eq!(events.system_event_summaries.len(), 1);
    let summary = &events.system_event_summaries[0];
    assert_eq!(summary.representative().event_identifier, 41);
    assert_eq!(summary.count(), 2);
    assert_eq!(summary.suppressed_count(), 1);
    assert_eq!(summary.first_seen(), 10);
    assert_eq!(summary.last_seen(), 20);
}

#[test]
fn daemon_answers_typed_meta_policy_relation() {
    let configuration = IntrospectionDaemonConfiguration::new(daemon_configuration());
    assert_eq!(configuration.meta_socket_mode(), Some(0o600));
    let query = MetaIntrospectQuery::Configure(daemon_configuration());
    assert_eq!(meta_operation_kind(&query), MetaIntrospectOperationKind::Configure);
    match meta_response(&query) {
        MetaIntrospectResponse::RequestUnimplemented(unimplemented) => {
            assert_eq!(
                unimplemented.meta_introspect_operation_kind,
                MetaIntrospectOperationKind::Configure
            );
            assert_eq!(unimplemented.unimplemented_reason, UnimplementedReason::NotBuiltYet);
        }
        other => panic!("expected RequestUnimplemented, got {other:?}"),
    }
}

#[test]
fn configuration_projects_peers_store_and_sockets() {
    let configuration = IntrospectionDaemonConfiguration::new(daemon_configuration());
    let targets = configuration.targets();
    assert_eq!(targets.manager_socket, None);
    assert_eq!(targets.router_socket, Some("/tmp/router.sock".to_owned()));
    assert_eq!(targets.terminal_socket, None);
    assert_eq!(targets.trace_socket, None);
    assert_eq!(configuration.store().as_path(), "/tmp/introspect.sema");
    assert_eq!(configuration.socket_path(), "/tmp/introspect.sock");
    assert_eq!(configuration.socket_mode(), Some(0o600));
    assert_eq!(configuration.meta_socket_path(), Some("/tmp/meta-introspect.sock"));
    assert_eq!(configuration.meta_socket_mode(), Some(0o600));
    assert_eq!(configuration.request_concurrency_limit(), 64);
    assert_eq!(configuration.database_path(), "/tmp/introspect.sema");
    assert_eq!(configuration.into_inner(), daemon_configuration());
    assert_eq!(peer_socket(&String::new()), None);
    assert_eq!(peer_socket(&"x".to_owned()), Some("x".to_owned()));
    assert_eq!(IntrospectionSignalClient::new("/s".to_owned()).socket(), "/s");
}

#[test]
fn system_events_filter_by_domain() {
    let mut store = IntrospectionStore::new(PersistenceRetention::default(), ExactCoalescingPolicy::default());
    let mut service = bluetooth_event(7, 5);
    service.targeted_system_event = TargetedSystemEvent::Systemd(SystemdSystemEvent {
        systemd_target: SystemdTarget::ServiceUnit,
        systemd_topic: SystemdTopic::Lifecycle(ServiceLifecycleObservation::Event(
            ServiceLifecycleEvent::Failed,
        )),
    });
    service.event_provenance = trusted_journal(JournalSource::SystemdManager);
    let a = store.record_system_event(bluetooth_event(3, 9)).expect("admitted");
    let b = store.record_system_event(service).expect("admitted");
    let table = vec![
        StoredSystemEventSummary::new(a.current().clone()),
        StoredSystemEventSummary::new(b.current().clone()),
    ];
    let boot = BootIdentifier { first_integer: 0x1234, second_integer: 0x5678 };
    let all = store.system_events(
        SystemEventsQuery { boot_identifier: boot, system_event_domain_option: None },
        table.clone(),
    );
    let identifiers = all
        .system_event_summaries
        .iter()
        .map(|summary| summary.representative().event_identifier)
        .collect::<Vec<_>>();
    assert_eq!(identifiers, vec![7, 3], "ordered by first seen");
    assert_eq!(all.exact_coalescing_status.first_integer, 2);
    let hardware = store.system_events(
        SystemEventsQuery {
            boot_identifier: boot,
            system_event_domain_option: Some(SystemEventDomain::Hardware),
        },
        table.clone(),
    );
    assert_eq!(hardware.system_event_summaries.len(), 1);
    assert_eq!(hardware.system_event_summaries[0].representative().event_identifier, 3);
    let other_boot = store.system_events(
        SystemEventsQuery {
            boot_identifier: BootIdentifier { first_integer: 0, second_integer: 0 },
            system_event_domain_option: None,
        },
        table,
    );
    assert!(other_boot.system_event_summaries.is_empty());
    let flushed = store.flush_system_events(boot, introspect::wire::CoalescingClosure::ExplicitFlush);
    assert_eq!(flushed.system_event_summaries.len(), 2);
    assert_eq!(store.exact_coalescing_status().first_integer, 0);
    assert!(store.flush_on_shutdown().is_empty());
}
