//! Introspect's admission policy and readings of targeted system events.

use introspect::contract::{
    coalesced, is_unclassified, provenance_is_consistent, system_event_domain, trusted_journal,
    validate_system_event, CoalescedReading, SystemEventFault,
};
use introspect::error::Error;
use introspect::coalescer::ExactCoalescingPolicy;
use introspect::store::{IntrospectionStore, PersistenceRetention};
use introspect::wire::{
    BluetoothPowerObservation, BluetoothSystemEvent, BluetoothTarget, BluetoothTopic,
    BootIdentifier, BoundedPayload, CoalescingClosure, EventProvenance, EventSeverity, EventSource,
    JournalSource, ProvenanceTrust, ServiceLifecycleObservation, SystemEvent, SystemEventDomain,
    SystemdSystemEvent, SystemdTarget, SystemdTopic, TargetedSystemEvent, UnclassifiedObservation,
};

fn unclassified_bluetooth() -> TargetedSystemEvent {
    TargetedSystemEvent::Bluetooth(BluetoothSystemEvent {
        bluetooth_target: BluetoothTarget::Device,
        bluetooth_topic: BluetoothTopic::Power(BluetoothPowerObservation::Unclassified(
            UnclassifiedObservation {
                occurrence_counter: 3,
                status_code: 1,
            },
        )),
    })
}

fn event(targeted: TargetedSystemEvent, provenance: EventProvenance, payload: Option<&str>) -> SystemEvent {
    SystemEvent {
        event_identifier: 1,
        boot_identifier: BootIdentifier {
            first_integer: 1,
            second_integer: 1,
        },
        event_instant: 100,
        targeted_system_event: targeted,
        event_severity: EventSeverity::Error,
        event_provenance: provenance,
        extractor_revision: 1,
        policy_revision: 4,
        bounded_payload_option: payload.map(|text| BoundedPayload {
            text: text.to_owned(),
        }),
    }
}

#[test]
fn domains_follow_the_target() {
    assert_eq!(system_event_domain(&unclassified_bluetooth()), SystemEventDomain::Hardware);
    let systemd = TargetedSystemEvent::Systemd(SystemdSystemEvent {
        systemd_target: SystemdTarget::SystemManager,
        systemd_topic: SystemdTopic::Lifecycle(ServiceLifecycleObservation::Unclassified(
            UnclassifiedObservation {
                occurrence_counter: 0,
                status_code: 0,
            },
        )),
    });
    assert_eq!(system_event_domain(&systemd), SystemEventDomain::ServiceControl);
    assert!(is_unclassified(&systemd));
    assert!(is_unclassified(&unclassified_bluetooth()));
}

#[test]
fn provenance_consistency_pairs_each_source_with_its_trust() {
    let pairs = [
        (EventSource::Journal(JournalSource::SystemdManager), ProvenanceTrust::TrustedJournalMetadata, true),
        (EventSource::BusConnection, ProvenanceTrust::TrustedConnectionMetadata, true),
        (EventSource::Application(42), ProvenanceTrust::UntrustedApplicationMetadata, true),
        (EventSource::Application(42), ProvenanceTrust::TrustedJournalMetadata, false),
        (EventSource::BusConnection, ProvenanceTrust::UntrustedApplicationMetadata, false),
        (EventSource::Journal(JournalSource::SystemdManager), ProvenanceTrust::TrustedConnectionMetadata, false),
    ];
    for (event_source, provenance_trust, consistent) in pairs {
        assert_eq!(
            provenance_is_consistent(&EventProvenance { event_source, provenance_trust }),
            consistent
        );
    }
    assert!(provenance_is_consistent(&trusted_journal(JournalSource::SystemdBluetoothService)));
}

#[test]
fn admission_refuses_each_fault() {
    let inconsistent = EventProvenance {
        event_source: EventSource::Application(7),
        provenance_trust: ProvenanceTrust::TrustedJournalMetadata,
    };
    assert_eq!(
        validate_system_event(&event(unclassified_bluetooth(), inconsistent, None)),
        Err(SystemEventFault::InconsistentProvenance)
    );
    let journal = trusted_journal(JournalSource::SystemdBluetoothService);
    assert_eq!(
        validate_system_event(&event(unclassified_bluetooth(), journal, Some("secret"))),
        Err(SystemEventFault::UnclassifiedPayload)
    );
    assert_eq!(validate_system_event(&event(unclassified_bluetooth(), journal, None)), Ok(()));
    assert_eq!(
        SystemEventFault::InconsistentProvenance.message(),
        "event source and trust classification are inconsistent"
    );
}

#[test]
fn the_store_refuses_what_admission_refuses() {
    let mut store = IntrospectionStore::new(PersistenceRetention::default(), ExactCoalescingPolicy::default());
    let journal = trusted_journal(JournalSource::SystemdBluetoothService);
    let refused = store.record_system_event(event(unclassified_bluetooth(), journal, Some("text")));
    assert_eq!(
        refused.err(),
        Some(Error::UnexpectedArgument {
            got: "targeted unclassified events may retain counters/status only, never payload text"
                .to_owned()
        })
    );
    assert_eq!(store.exact_coalescing_status().first_integer, 0);
}

#[test]
fn a_fresh_window_reads_as_one_event() {
    let window = coalesced(
        event(unclassified_bluetooth(), trusted_journal(JournalSource::SystemdManager), None),
        CoalescingClosure::Active,
    );
    assert_eq!(window.count(), 1);
    assert_eq!(window.suppressed_count(), 0);
    assert_eq!(window.first_seen(), 100);
    assert_eq!(window.last_seen(), 100);
    assert_eq!(window.policy_revision, 4);
    assert_eq!(window.representative().event_identifier, 1);
}
