//! Introspect's own reading of the targeted system-event values: which domain
//! an event belongs to, which events it admits into durable state, the
//! exact-duplicate identity of an event, and what the ordinal positions of a
//! coalescing window mean.
use vstd::prelude::*;

use crate::wire::{
    BluetoothPowerObservation, BluetoothSystemEvent, BluetoothTopic, BoundedPayload,
    CoalescedSystemEvent, CoalescingClosure, EventProvenance, EventSource, JournalSource,
    ProvenanceTrust, ServiceLifecycleObservation, SystemEvent, SystemEventDomain,
    SystemdSystemEvent, SystemdTopic, TargetedSystemEvent,
};

verus! {

/// The domain a targeted event belongs to.
pub open spec fn domain_of(event: TargetedSystemEvent) -> SystemEventDomain {
    match event {
        TargetedSystemEvent::Bluetooth(_) => SystemEventDomain::Hardware,
        TargetedSystemEvent::Systemd(_) => SystemEventDomain::ServiceControl,
    }
}

/// Whether a targeted event is an unclassified observation.
pub open spec fn unclassified(event: TargetedSystemEvent) -> bool {
    match event {
        TargetedSystemEvent::Bluetooth(b) => match b.bluetooth_topic {
            BluetoothTopic::Power(BluetoothPowerObservation::Unclassified(_)) => true,
            _ => false,
        },
        TargetedSystemEvent::Systemd(s) => match s.systemd_topic {
            SystemdTopic::Lifecycle(ServiceLifecycleObservation::Unclassified(_)) => true,
            _ => false,
        },
    }
}

/// A source paired with the only trust level it can support.
pub open spec fn consistent_provenance(provenance: EventProvenance) -> bool {
    match provenance.event_source {
        EventSource::Journal(_) => provenance.provenance_trust
            == ProvenanceTrust::TrustedJournalMetadata,
        EventSource::BusConnection => provenance.provenance_trust
            == ProvenanceTrust::TrustedConnectionMetadata,
        EventSource::Application(_) => provenance.provenance_trust
            == ProvenanceTrust::UntrustedApplicationMetadata,
    }
}

/// Which observation domain a targeted system event belongs to.
pub fn system_event_domain(event: &TargetedSystemEvent) -> (domain: SystemEventDomain)
    ensures
        domain == domain_of(*event),
{
    match event {
        TargetedSystemEvent::Bluetooth(_) => SystemEventDomain::Hardware,
        TargetedSystemEvent::Systemd(_) => SystemEventDomain::ServiceControl,
    }
}

/// An unclassified observation carries counters and status only; it is the
/// one shape that must never arrive with payload text attached.
pub fn is_unclassified(event: &TargetedSystemEvent) -> (answer: bool)
    ensures
        answer == unclassified(*event),
{
    match event {
        TargetedSystemEvent::Bluetooth(
            BluetoothSystemEvent {
                bluetooth_topic: BluetoothTopic::Power(BluetoothPowerObservation::Unclassified(_)),
                ..
            },
        ) => true,
        TargetedSystemEvent::Systemd(
            SystemdSystemEvent {
                systemd_topic: SystemdTopic::Lifecycle(
                    ServiceLifecycleObservation::Unclassified(_),
                ),
                ..
            },
        ) => true,
        _ => false,
    }
}

/// Provenance is consistent when the trust classification is the one its
/// source can actually support: journal metadata is trusted journal metadata,
/// a bus connection is trusted connection metadata, and an application's own
/// claim is untrusted.
pub fn provenance_is_consistent(provenance: &EventProvenance) -> (answer: bool)
    ensures
        answer == consistent_provenance(*provenance),
{
    match (&provenance.event_source, &provenance.provenance_trust) {
        (EventSource::Journal(_), ProvenanceTrust::TrustedJournalMetadata) => true,
        (EventSource::BusConnection, ProvenanceTrust::TrustedConnectionMetadata) => true,
        (EventSource::Application(_), ProvenanceTrust::UntrustedApplicationMetadata) => true,
        _ => false,
    }
}

/// Journal-sourced provenance at its only coherent trust level.
pub fn trusted_journal(source: JournalSource) -> (provenance: EventProvenance)
    ensures
        provenance.event_source == EventSource::Journal(source),
        provenance.provenance_trust == ProvenanceTrust::TrustedJournalMetadata,
        consistent_provenance(provenance),
{
    EventProvenance {
        event_source: EventSource::Journal(source),
        provenance_trust: ProvenanceTrust::TrustedJournalMetadata,
    }
}

/// Why introspect refuses to record a targeted system event.
#[derive(Clone, Copy, Debug, PartialEq, Eq, Structural)]
pub enum SystemEventFault {
    InconsistentProvenance,
    UnclassifiedPayload,
}

/// The human sentence for a refusal.
pub open spec fn fault_message(fault: SystemEventFault) -> Seq<char> {
    match fault {
        SystemEventFault::InconsistentProvenance => "event source and trust classification are inconsistent"@,
        SystemEventFault::UnclassifiedPayload => "targeted unclassified events may retain counters/status only, never payload text"@,
    }
}

impl SystemEventFault {
    /// The human sentence for this refusal.
    pub fn message(&self) -> (text: &'static str)
        ensures
            text@ == fault_message(*self),
    {
        match self {
            SystemEventFault::InconsistentProvenance => {
                "event source and trust classification are inconsistent"
            },
            SystemEventFault::UnclassifiedPayload => {
                "targeted unclassified events may retain counters/status only, never payload text"
            },
        }
    }
}

/// Introspect's admission policy for a targeted system event.
pub open spec fn admission(event: SystemEvent) -> Result<(), SystemEventFault> {
    if !consistent_provenance(event.event_provenance) {
        Err(SystemEventFault::InconsistentProvenance)
    } else if unclassified(event.targeted_system_event) && event.bounded_payload_option.is_some() {
        Err(SystemEventFault::UnclassifiedPayload)
    } else {
        Ok(())
    }
}

/// Admit a targeted system event into durable state, or say why not.
pub fn validate_system_event(event: &SystemEvent) -> (verdict: Result<(), SystemEventFault>)
    ensures
        verdict == admission(*event),
{
    if !provenance_is_consistent(&event.event_provenance) {
        return Err(SystemEventFault::InconsistentProvenance);
    }
    if is_unclassified(&event.targeted_system_event) && event.bounded_payload_option.is_some() {
        return Err(SystemEventFault::UnclassifiedPayload);
    }
    Ok(())
}

/// The text a payload carries, if any.
pub open spec fn payload_text(payload: Option<BoundedPayload>) -> Option<Seq<char>> {
    match payload {
        Some(p) => Some(p.text@),
        None => None,
    }
}

/// Two events describe the same happening: every position agrees except the
/// identifier and the instant, which only say which occurrence it was.
pub open spec fn same_identity(a: SystemEvent, b: SystemEvent) -> bool {
    &&& a.boot_identifier == b.boot_identifier
    &&& a.targeted_system_event == b.targeted_system_event
    &&& a.event_severity == b.event_severity
    &&& a.event_provenance == b.event_provenance
    &&& a.extractor_revision == b.extractor_revision
    &&& a.policy_revision == b.policy_revision
    &&& payload_text(a.bounded_payload_option) == payload_text(b.bounded_payload_option)
}

/// Exact-identity comparison of two events.
pub fn identical_happening(a: &SystemEvent, b: &SystemEvent) -> (answer: bool)
    ensures
        answer == same_identity(*a, *b),
{
    let payloads_agree = match (&a.bounded_payload_option, &b.bounded_payload_option) {
        (Some(x), Some(y)) => x.text == y.text,
        (None, None) => true,
        _ => false,
    };
    a.boot_identifier == b.boot_identifier && a.targeted_system_event == b.targeted_system_event
        && a.event_severity == b.event_severity && a.event_provenance == b.event_provenance
        && a.extractor_revision == b.extractor_revision && a.policy_revision == b.policy_revision
        && payloads_agree
}

/// The event with its occurrence positions (identifier and instant) set to zero.
pub open spec fn occurrence_free(event: SystemEvent) -> SystemEvent {
    SystemEvent { event_identifier: 0, event_instant: 0, ..event }
}

/// The exact-duplicate identity of a system event: everything the event says
/// about *what happened*, with the identifier and the instant — everything
/// that says *which occurrence* — normalised away.
#[derive(Debug, PartialEq, Eq, Hash)]
pub struct ExactDuplicateIdentity {
    occurrence_free_event: SystemEvent,
}

impl Clone for ExactDuplicateIdentity {
    fn clone(&self) -> (r: Self)
        ensures
            r == *self,
    {
        ExactDuplicateIdentity { occurrence_free_event: self.occurrence_free_event.clone() }
    }
}

impl ExactDuplicateIdentity {
    pub closed spec fn event(&self) -> SystemEvent {
        self.occurrence_free_event
    }

    pub fn of(event: &SystemEvent) -> (identity: Self)
        ensures
            identity.event() == occurrence_free(*event),
            same_identity(identity.event(), *event),
    {
        let mut normalised = event.clone();
        normalised.event_identifier = 0;
        normalised.event_instant = 0;
        ExactDuplicateIdentity { occurrence_free_event: normalised }
    }

    /// Whether two identities name the same happening.
    pub fn matches(&self, other: &ExactDuplicateIdentity) -> (answer: bool)
        ensures
            answer == same_identity(self.event(), other.event()),
    {
        identical_happening(&self.occurrence_free_event, &other.occurrence_free_event)
    }
}

/// Exact identity is an equivalence: reflexive, symmetric and transitive.
pub proof fn same_identity_is_equivalence(a: SystemEvent, b: SystemEvent, c: SystemEvent)
    ensures
        same_identity(a, a),
        same_identity(a, b) ==> same_identity(b, a),
        same_identity(a, b) && same_identity(b, c) ==> same_identity(a, c),
{
}

/// Two events share an identity exactly when their occurrence-free forms
/// agree, so the identity ignores precisely the identifier and the instant;
/// identities never cross boots.
pub proof fn identity_ignores_only_occurrence(a: SystemEvent, b: SystemEvent)
    ensures
        same_identity(a, b) <==> same_identity(occurrence_free(a), occurrence_free(b)),
        same_identity(a, b) ==> a.boot_identifier == b.boot_identifier,
        same_identity(a, SystemEvent { event_identifier: b.event_identifier, event_instant: b.event_instant, ..a }),
{
}

/// A fresh coalescing window around its first and only event.
pub open spec fn window_of(representative: SystemEvent, closure: CoalescingClosure) -> CoalescedSystemEvent {
    CoalescedSystemEvent {
        system_event: representative,
        first_integer: 1,
        first_event_instant: representative.event_instant,
        second_event_instant: representative.event_instant,
        second_integer: 0,
        policy_revision: representative.policy_revision,
        coalescing_closure: closure,
    }
}

/// Open a fresh coalescing window around its first — and so far only — event.
pub fn coalesced(representative: SystemEvent, closure: CoalescingClosure) -> (window: CoalescedSystemEvent)
    ensures
        window == window_of(representative, closure),
{
    let observed_at = representative.event_instant;
    let policy_revision = representative.policy_revision;
    CoalescedSystemEvent {
        system_event: representative,
        first_integer: 1,
        first_event_instant: observed_at,
        second_event_instant: observed_at,
        second_integer: 0,
        policy_revision,
        coalescing_closure: closure,
    }
}

/// The positions of a coalescing window, read by what they mean.
pub trait CoalescedReading {
    /// The event that stands for the whole window.
    fn representative(&self) -> &SystemEvent;

    /// How many events the window has seen, the representative included.
    fn count(&self) -> i64;

    /// How many of those were suppressed as exact duplicates.
    fn suppressed_count(&self) -> i64;

    /// When the window opened.
    fn first_seen(&self) -> i64;

    /// When the window last saw an event.
    fn last_seen(&self) -> i64;
}

impl CoalescedReading for CoalescedSystemEvent {
    fn representative(&self) -> (event: &SystemEvent)
        ensures
            *event == self.system_event,
    {
        &self.system_event
    }

    fn count(&self) -> (count: i64)
        ensures
            count == self.first_integer,
    {
        self.first_integer
    }

    fn suppressed_count(&self) -> (suppressed: i64)
        ensures
            suppressed == self.second_integer,
    {
        self.second_integer
    }

    fn first_seen(&self) -> (instant: i64)
        ensures
            instant == self.first_event_instant,
    {
        self.first_event_instant
    }

    fn last_seen(&self) -> (instant: i64)
        ensures
            instant == self.second_event_instant,
    {
        self.second_event_instant
    }
}

/// Unclassified input never retains payload text: every admitted
/// unclassified event carries none, and every admitted event has consistent
/// provenance.
pub proof fn law_admitted_unclassified_events_carry_no_text(event: SystemEvent)
    requires
        admission(event) is Ok,
    ensures
        unclassified(event.targeted_system_event) ==> event.bounded_payload_option is None,
        consistent_provenance(event.event_provenance),
{
}

/// Admission refuses only what the policy names: an event is admitted
/// exactly when its source and trust agree (journal with trusted journal
/// metadata, a bus connection with trusted connection metadata, an
/// application with untrusted application metadata) and it is not an
/// unclassified observation carrying payload text. A classified event is
/// admitted with or without a payload.
pub proof fn law_admission_refuses_only_inconsistency_and_unclassified_text(event: SystemEvent)
    ensures
        ({
            let provenance = event.event_provenance;
            let agreeing = match provenance.event_source {
                EventSource::Journal(_) => provenance.provenance_trust == ProvenanceTrust::TrustedJournalMetadata,
                EventSource::BusConnection => provenance.provenance_trust
                    == ProvenanceTrust::TrustedConnectionMetadata,
                EventSource::Application(_) => provenance.provenance_trust
                    == ProvenanceTrust::UntrustedApplicationMetadata,
            };
            let observation_unclassified = match event.targeted_system_event {
                TargetedSystemEvent::Bluetooth(
                    BluetoothSystemEvent {
                        bluetooth_topic: BluetoothTopic::Power(BluetoothPowerObservation::Event(_)),
                        ..
                    },
                ) => false,
                TargetedSystemEvent::Systemd(
                    SystemdSystemEvent {
                        systemd_topic: SystemdTopic::Lifecycle(ServiceLifecycleObservation::Event(_)),
                        ..
                    },
                ) => false,
                _ => true,
            };
            admission(event) is Ok <==> agreeing && !(observation_unclassified
                && event.bounded_payload_option is Some)
        }),
{
}

} // verus!
