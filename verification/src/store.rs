//! Introspect's durable state: answered observations, delivery-trace hops,
//! component-trace events and coalesced system-event summaries.
//!
//! The tables themselves live in the store engine. What is introspect's own
//! is decided here: which rows a retention cap reclaims, which scanned rows a
//! query selects and in what order, which summaries a system event produces,
//! and whether a summary is a new row or an update of one.
use vstd::prelude::*;

use crate::coalescer::{
    CoalescingUpdate, ExactCoalescingPolicy, ExactDuplicateCoalescer, all_closed_as, ingest_outcome,
    not_of_boot, of_boot,
};
use crate::contract::{admission, domain_of, fault_message, system_event_domain, validate_system_event};
use crate::error::Error;
use crate::ordering::{Ranked, lemma_sort_ranked, rank_le, ranked_in_order, sort_ranked, stable_sort};
use crate::store_record::{
    ObservationReceipt, ObservationSequence, SnapshotIdentifier, StoredComponentTraceEvent,
    StoredDeliveryTraceEvent, StoredSystemEventSummary, component_trace_matches,
    delivery_trace_matches, hop_matches, summary_key, trace_matches,
};
use crate::wire::{
    BootIdentifier, CoalescedSystemEvent, CoalescingClosure, ComponentTrace, ComponentTraceEvent,
    ComponentTraceQuery, DeliveryTraceObservation, DeliveryTraceObservationEvent,
    DeliveryTraceObservationQuery, ExactCoalescingStatus, SystemEvent, SystemEvents,
    SystemEventsFlushed, SystemEventsQuery,
};

verus! {

/// The store's kernel schema version.
pub const INTROSPECTION_SCHEMA_VERSION: u32 = 3;

pub const OBSERVATIONS: &'static str = "introspection_observations";

pub const DELIVERY_TRACE_EVENTS: &'static str = "delivery_trace_events";

pub const COMPONENT_TRACE_EVENTS: &'static str = "component_trace_events";

pub const SYSTEM_EVENT_SUMMARIES: &'static str = "system_event_summaries";

pub const OBSERVATIONS_FAMILY: &'static str = "introspection-observation";

pub const DELIVERY_TRACE_EVENTS_FAMILY: &'static str = "delivery-trace-event";

pub const COMPONENT_TRACE_EVENTS_FAMILY: &'static str = "component-trace-event";

pub const SYSTEM_EVENT_SUMMARIES_FAMILY: &'static str = "system-event-summary";

/// The schema label of the system-event family. It starts at its own archive
/// version 1: registering it is an additive migration under the existing
/// kernel schema version, so no existing table changes.
pub const SYSTEM_EVENT_SUMMARY_LABEL: &'static str = "introspect-system-event-summary-v1";

pub const DEFAULT_STORE_PATH: &'static str = "/tmp/introspect.sema";

/// The schema label of a table family under the kernel schema version.
pub open spec fn family_label(family: Seq<char>) -> Seq<char> {
    "introspect-"@ + family + "-v3"@
}

/// The schema label of one of the kernel-versioned families.
pub fn family_schema_label(family: &str) -> (label: String)
    ensures
        label@ == family_label(family@),
{
    let mut label = String::from_str("introspect-");
    label.append(family);
    label.append("-v3");
    label
}

pub const DEFAULT_OBSERVATION_RETENTION: usize = 1024;

pub const DEFAULT_TRACE_RETENTION: usize = 4096;

/// Per-table caps for the diagnostic records kept in the store.
#[derive(Debug, Clone, Copy, PartialEq, Eq)]
pub struct PersistenceRetention {
    observations: usize,
    delivery_trace_events: usize,
    component_trace_events: usize,
    system_event_summaries: usize,
}

impl PersistenceRetention {
    /// The caps: observations, delivery hops, component-trace events, summaries.
    pub closed spec fn caps(self) -> (usize, usize, usize, usize) {
        (
            self.observations,
            self.delivery_trace_events,
            self.component_trace_events,
            self.system_event_summaries,
        )
    }

    /// Caps for the three diagnostic tables; summaries share the
    /// component-trace cap.
    pub fn new(observations: usize, delivery_trace_events: usize, component_trace_events: usize) -> (retention: Self)
        ensures
            retention.caps() == (
                observations,
                delivery_trace_events,
                component_trace_events,
                component_trace_events,
            ),
    {
        Self::with_system_event_summaries(
            observations,
            delivery_trace_events,
            component_trace_events,
            component_trace_events,
        )
    }

    pub fn with_system_event_summaries(
        observations: usize,
        delivery_trace_events: usize,
        component_trace_events: usize,
        system_event_summaries: usize,
    ) -> (retention: Self)
        ensures
            retention.caps() == (
                observations,
                delivery_trace_events,
                component_trace_events,
                system_event_summaries,
            ),
    {
        Self { observations, delivery_trace_events, component_trace_events, system_event_summaries }
    }
}

impl Default for PersistenceRetention {
    fn default() -> (retention: Self)
        ensures
            retention.caps() == (
                DEFAULT_OBSERVATION_RETENTION,
                DEFAULT_TRACE_RETENTION,
                DEFAULT_TRACE_RETENTION,
                DEFAULT_TRACE_RETENTION,
            ),
    {
        Self::new(DEFAULT_OBSERVATION_RETENTION, DEFAULT_TRACE_RETENTION, DEFAULT_TRACE_RETENTION)
    }
}

/// Where the store file lives.
#[derive(Debug, PartialEq, Eq)]
pub struct StoreLocation {
    path: String,
}

impl StoreLocation {
    pub closed spec fn location(&self) -> Seq<char> {
        self.path@
    }

    pub fn new(path: String) -> (location: Self)
        ensures
            location.location() == path@,
    {
        Self { path }
    }

    pub fn as_path(&self) -> (path: &str)
        ensures
            path@ == self.location(),
    {
        self.path.as_str()
    }

    /// The store a tool discovers from its settings: the introspect store
    /// setting first, then the state-path setting, then the default path.
    pub fn from_settings(introspect_store: Option<String>, state_path: Option<String>) -> (location: Self)
        ensures
            location.location() == match introspect_store {
                Some(path) => path@,
                None => match state_path {
                    Some(path) => path@,
                    None => DEFAULT_STORE_PATH@,
                },
            },
    {
        match introspect_store {
            Some(path) => Self::new(path),
            None => match state_path {
                Some(path) => Self::new(path),
                None => Self::new(String::from_str(DEFAULT_STORE_PATH)),
            },
        }
    }
}

impl Clone for StoreLocation {
    fn clone(&self) -> (r: Self)
        ensures
            r.location() == self.location(),
    {
        Self { path: self.path.clone() }
    }
}

/// How a summary reaches its table: a new row, or an update of its row.
#[derive(Debug, Clone, Copy, PartialEq, Eq, Structural)]
pub enum SummaryWrite {
    Assert,
    Mutate,
}

/// Rows beyond a cap: how many of `count` must go to keep `cap`.
pub open spec fn excess_of(count: int, cap: int) -> int {
    if count > cap {
        count - cap
    } else {
        0
    }
}

/// The events a scan holds, in scan order.
pub open spec fn scanned_hops(scanned: Seq<StoredDeliveryTraceEvent>) -> Seq<DeliveryTraceObservationEvent> {
    scanned.map_values(|stored: StoredDeliveryTraceEvent| stored.stored_event())
}

pub open spec fn scanned_trace_events(scanned: Seq<StoredComponentTraceEvent>) -> Seq<ComponentTraceEvent> {
    scanned.map_values(|stored: StoredComponentTraceEvent| stored.stored_event())
}

pub open spec fn stored_summaries(stored: Seq<StoredSystemEventSummary>) -> Seq<CoalescedSystemEvent> {
    stored.map_values(|record: StoredSystemEventSummary| record.stored_summary())
}

/// The hops a delivery-trace query selects.
pub open spec fn hop_selector(query: DeliveryTraceObservationQuery) -> spec_fn(DeliveryTraceObservationEvent) -> bool {
    |event: DeliveryTraceObservationEvent| hop_matches(event, query)
}

/// The component-trace events a query selects.
pub open spec fn trace_selector(query: ComponentTraceQuery) -> spec_fn(ComponentTraceEvent) -> bool {
    |event: ComponentTraceEvent| trace_matches(event, query)
}

/// Whether a summary is one a system-events query asks for.
pub open spec fn summary_selected(summary: CoalescedSystemEvent, query: SystemEventsQuery) -> bool {
    &&& summary.system_event.boot_identifier == query.boot_identifier
    &&& match query.system_event_domain_option {
        Some(domain) => domain_of(summary.system_event.targeted_system_event) == domain,
        None => true,
    }
}

pub open spec fn summary_selector(query: SystemEventsQuery) -> spec_fn(CoalescedSystemEvent) -> bool {
    |summary: CoalescedSystemEvent| summary_selected(summary, query)
}

/// Rows beyond a cap: how many of `count` must go to keep `cap`.
pub fn excess(count: usize, cap: usize) -> (excess: usize)
    ensures
        excess == excess_of(count as int, cap as int),
{
    if count > cap {
        count - cap
    } else {
        0
    }
}

/// The first `count` items of a vector, consumed.
fn leading<T>(items: Vec<T>, count: usize) -> (kept: Vec<T>)
    requires
        count <= items@.len(),
    ensures
        kept@ == items@.take(count as int),
{
    let mut items = items;
    items.truncate(count);
    items
}

/// The receipt for one recorded delivery hop: its hop index as the sequence.
pub fn delivery_trace_receipt(event: &DeliveryTraceObservationEvent, snapshot: SnapshotIdentifier) -> (receipt: ObservationReceipt)
    ensures
        receipt.receipt_sequence().number() == event.delivery_trace_observation_key.hop_index as u64,
        receipt.receipt_snapshot() == snapshot,
{
    ObservationReceipt::new(
        ObservationSequence::new(event.delivery_trace_observation_key.hop_index as u64),
        snapshot,
    )
}

/// The receipt for one recorded component-trace event: its trace sequence.
pub fn component_trace_receipt(event: &ComponentTraceEvent, snapshot: SnapshotIdentifier) -> (receipt: ObservationReceipt)
    ensures
        receipt.receipt_sequence().number() == event.trace_sequence as u64,
        receipt.receipt_snapshot() == snapshot,
{
    ObservationReceipt::new(ObservationSequence::new(event.trace_sequence as u64), snapshot)
}

/// Whether a summary is written as a new row or as an update: it is an
/// update exactly when a stored row already carries its key.
pub fn summary_write(summary: &StoredSystemEventSummary, existing: &Vec<StoredSystemEventSummary>) -> (write: SummaryWrite)
    ensures
        write == SummaryWrite::Mutate <==> exists|i: int|
            0 <= i < existing@.len() && summary_key(#[trigger] existing@[i].stored_summary())
                == summary_key(summary.stored_summary()),
{
    let key = summary.record_key();
    let mut index: usize = 0;
    while index < existing.len()
        invariant
            index <= existing@.len(),
            key@ == summary_key(summary.stored_summary()),
            forall|i: int|
                0 <= i < index ==> summary_key(#[trigger] existing@[i].stored_summary()) != key@,
        decreases existing@.len() - index,
    {
        let other = existing[index].record_key();
        if other == key {
            return SummaryWrite::Mutate;
        }
        index = index + 1;
    }
    SummaryWrite::Assert
}

/// The store's in-memory state beside its tables: the retention caps and the
/// exact-duplicate coalescer.
#[derive(Debug)]
pub struct IntrospectionStore {
    retention: PersistenceRetention,
    exact_coalescer: ExactDuplicateCoalescer,
}

impl IntrospectionStore {
    pub closed spec fn retention_caps(&self) -> (usize, usize, usize, usize) {
        self.retention.caps()
    }

    pub closed spec fn coalescer(&self) -> ExactDuplicateCoalescer {
        self.exact_coalescer
    }

    pub closed spec fn wf(&self) -> bool {
        self.exact_coalescer.wf()
    }

    pub fn new(retention: PersistenceRetention, exact_coalescing: ExactCoalescingPolicy) -> (store: Self)
        ensures
            store.wf(),
            store.retention_caps() == retention.caps(),
            store.coalescer().windows() == Seq::<CoalescedSystemEvent>::empty(),
            store.coalescer().evictions() == 0,
            store.coalescer().policy() == exact_coalescing,
    {
        Self { retention, exact_coalescer: ExactDuplicateCoalescer::new(exact_coalescing) }
    }

    pub fn retention(&self) -> (retention: PersistenceRetention)
        ensures
            retention.caps() == self.retention_caps(),
    {
        self.retention
    }

    /// The observation sequences a cap reclaims among the stored ones: the
    /// oldest beyond the cap.
    pub fn observations_to_reclaim(&self, sequences: Vec<ObservationSequence>) -> (reclaimed: Vec<ObservationSequence>)
        ensures
            reclaimed@ == sort_ranked(sequences@).take(
                excess_of(sequences@.len() as int, self.retention_caps().0 as int),
            ),
    {
        let count = excess(sequences.len(), self.retention.observations);
        proof {
            lemma_sort_ranked(sequences@);
        }
        let sorted = stable_sort(sequences);
        leading(sorted, count)
    }

    /// The delivery hops a cap reclaims among the stored ones: the oldest
    /// beyond the cap, by message slot and then hop index.
    pub fn delivery_trace_events_to_reclaim(&self, stored: Vec<StoredDeliveryTraceEvent>) -> (reclaimed: Vec<
        StoredDeliveryTraceEvent,
    >)
        ensures
            reclaimed@ == sort_ranked(stored@).take(
                excess_of(stored@.len() as int, self.retention_caps().1 as int),
            ),
    {
        let count = excess(stored.len(), self.retention.delivery_trace_events);
        proof {
            lemma_sort_ranked(stored@);
        }
        let sorted = stable_sort(stored);
        leading(sorted, count)
    }

    /// The component-trace events a cap reclaims among the stored ones: the
    /// oldest beyond the cap, by trace sequence.
    pub fn component_trace_events_to_reclaim(&self, stored: Vec<StoredComponentTraceEvent>) -> (reclaimed: Vec<
        StoredComponentTraceEvent,
    >)
        ensures
            reclaimed@ == sort_ranked(stored@).take(
                excess_of(stored@.len() as int, self.retention_caps().2 as int),
            ),
    {
        let count = excess(stored.len(), self.retention.component_trace_events);
        proof {
            lemma_sort_ranked(stored@);
        }
        let sorted = stable_sort(stored);
        leading(sorted, count)
    }

    /// The summaries a cap reclaims: the earliest first seen beyond the cap.
    pub fn summaries_to_reclaim(&self, stored: Vec<StoredSystemEventSummary>) -> (reclaimed: Vec<StoredSystemEventSummary>)
        ensures
            reclaimed@ == sort_ranked(stored@).take(
                excess_of(stored@.len() as int, self.retention_caps().3 as int),
            ),
    {
        let count = excess(stored.len(), self.retention.system_event_summaries);
        proof {
            lemma_sort_ranked(stored@);
        }
        let sorted = stable_sort(stored);
        leading(sorted, count)
    }

    /// The hops of one message among the scanned rows, ordered by hop index.
    pub fn delivery_trace(&self, query: DeliveryTraceObservationQuery, scanned: Vec<StoredDeliveryTraceEvent>) -> (trace: DeliveryTraceObservation)
        ensures
            trace.engine_identifier == query.engine_identifier,
            trace.message_slot == query.message_slot,
            trace.component_name == query.component_name,
            trace.delivery_trace_observation_events@ == sort_ranked(
                scanned_hops(scanned@).filter(hop_selector(query)),
            ),
    {
        let ghost hops = scanned_hops(scanned@);
        let mut selected: Vec<DeliveryTraceObservationEvent> = Vec::new();
        for index in 0..scanned.len()
            invariant
                hops == scanned_hops(scanned@),
                selected@ == hops.take(index as int).filter(hop_selector(query)),
        {
            proof {
                assert(hops.take(index as int + 1) == hops.take(index as int).push(hops[index as int]));
                hops.take(index as int).lemma_filter_push(hops[index as int], hop_selector(query));
            }
            let event = scanned[index].event();
            if delivery_trace_matches(event, &query) {
                selected.push(event.clone());
            }
        }
        proof {
            assert(hops.take(scanned@.len() as int) == hops);
        }
        let events = stable_sort(selected);
        DeliveryTraceObservation {
            engine_identifier: query.engine_identifier,
            message_slot: query.message_slot,
            component_name: query.component_name,
            delivery_trace_observation_events: events,
        }
    }

    /// The component-trace events a query selects among the scanned rows,
    /// ordered by trace sequence.
    pub fn component_trace(&self, query: ComponentTraceQuery, scanned: Vec<StoredComponentTraceEvent>) -> (trace: ComponentTrace)
        ensures
            trace.engine_identifier == query.engine_identifier,
            trace.introspection_target == query.introspection_target,
            trace.component_trace_events@ == sort_ranked(
                scanned_trace_events(scanned@).filter(trace_selector(query)),
            ),
    {
        let ghost events = scanned_trace_events(scanned@);
        let mut selected: Vec<ComponentTraceEvent> = Vec::new();
        for index in 0..scanned.len()
            invariant
                events == scanned_trace_events(scanned@),
                selected@ == events.take(index as int).filter(trace_selector(query)),
        {
            proof {
                assert(events.take(index as int + 1) == events.take(index as int).push(events[index as int]));
                events.take(index as int).lemma_filter_push(events[index as int], trace_selector(query));
            }
            let event = scanned[index].event();
            if component_trace_matches(event, &query) {
                selected.push(event.clone());
            }
        }
        proof {
            assert(events.take(scanned@.len() as int) == events);
        }
        let ordered = stable_sort(selected);
        ComponentTrace {
            engine_identifier: query.engine_identifier,
            introspection_target: query.introspection_target,
            component_trace_events: ordered,
        }
    }

    /// Admit one targeted system event: refuse it by introspect's admission
    /// policy, or coalesce it. The update names every summary to persist —
    /// the windows it closed, then the current window.
    pub fn record_system_event(&mut self, event: SystemEvent) -> (outcome: Result<CoalescingUpdate, Error>)
        requires
            old(self).wf(),
        ensures
            final(self).wf(),
            final(self).retention_caps() == old(self).retention_caps(),
            admission(event) is Err ==> outcome is Err && final(self).coalescer() == old(self).coalescer(),
            admission(event) is Ok ==> outcome is Ok,
            outcome matches Err(Error::UnexpectedArgument { got }) ==> (admission(event) matches Err(fault)
                && got@ == fault_message(fault)),
            outcome is Err ==> outcome matches Err(Error::UnexpectedArgument { .. }),
            outcome matches Ok(update) ==> (final(self).coalescer().windows(), update.current_window(),
            update.closed_windows(), final(self).coalescer().evictions()) == ingest_outcome(
                old(self).coalescer().windows(),
                old(self).coalescer().evictions(),
                old(self).coalescer().policy().maximum(),
                old(self).coalescer().policy().interval(),
                event,
            ),
            final(self).coalescer().policy() == old(self).coalescer().policy(),
    {
        match validate_system_event(&event) {
            Err(fault) => {
                let got = String::from_str(fault.message());
                Err(Error::UnexpectedArgument { got })
            },
            Ok(()) => Ok(self.exact_coalescer.ingest(event)),
        }
    }

    /// The stored summaries of one boot (and domain, when asked), ordered by
    /// when each was first seen, with the coalescer's status.
    pub fn system_events(&self, query: SystemEventsQuery, stored: Vec<StoredSystemEventSummary>) -> (events: SystemEvents)
        requires
            self.wf(),
        ensures
            events.boot_identifier == query.boot_identifier,
            events.system_event_summaries@ == sort_ranked(stored_summaries(stored@).filter(summary_selector(query))),
            events.exact_coalescing_status.first_integer == self.coalescer().windows().len() as i64,
            events.exact_coalescing_status.second_integer == self.coalescer().evictions(),
            events.exact_coalescing_status.third_integer == self.coalescer().policy().maximum() as i64,
    {
        let ghost summaries = stored_summaries(stored@);
        let mut selected: Vec<CoalescedSystemEvent> = Vec::new();
        for index in 0..stored.len()
            invariant
                summaries == stored_summaries(stored@),
                selected@ == summaries.take(index as int).filter(summary_selector(query)),
        {
            proof {
                assert(summaries.take(index as int + 1) == summaries.take(index as int).push(
                    summaries[index as int],
                ));
                summaries.take(index as int).lemma_filter_push(summaries[index as int], summary_selector(query));
            }
            let summary = stored[index].summary();
            let domain_agrees = match &query.system_event_domain_option {
                Some(domain) => system_event_domain(&summary.system_event.targeted_system_event) == *domain,
                None => true,
            };
            if summary.system_event.boot_identifier == query.boot_identifier && domain_agrees {
                selected.push(summary.clone());
            }
        }
        proof {
            assert(summaries.take(stored@.len() as int) == summaries);
        }
        let ordered = stable_sort(selected);
        SystemEvents {
            boot_identifier: query.boot_identifier,
            system_event_summaries: ordered,
            exact_coalescing_status: self.exact_coalescer.status(),
        }
    }

    /// Close every open window of `boot` with `closure`; each flushed summary
    /// is to be persisted.
    pub fn flush_system_events(&mut self, boot: BootIdentifier, closure: CoalescingClosure) -> (flushed: SystemEventsFlushed)
        requires
            old(self).wf(),
        ensures
            final(self).wf(),
            final(self).retention_caps() == old(self).retention_caps(),
            flushed.boot_identifier == boot,
            flushed.system_event_summaries@ == all_closed_as(
                old(self).coalescer().windows().filter(of_boot(boot)),
                closure,
            ),
            final(self).coalescer().windows() == old(self).coalescer().windows().filter(not_of_boot(boot)),
            final(self).coalescer().evictions() == old(self).coalescer().evictions(),
            final(self).coalescer().policy() == old(self).coalescer().policy(),
    {
        let summaries = self.exact_coalescer.flush_boot(&boot, closure);
        SystemEventsFlushed { boot_identifier: boot, system_event_summaries: summaries }
    }

    pub fn exact_coalescing_status(&self) -> (status: ExactCoalescingStatus)
        requires
            self.wf(),
        ensures
            status.first_integer == self.coalescer().windows().len() as i64,
            status.second_integer == self.coalescer().evictions(),
            status.third_integer == self.coalescer().policy().maximum() as i64,
    {
        self.exact_coalescer.status()
    }

    /// Close every open window at shutdown; each is to be persisted.
    pub fn flush_on_shutdown(&mut self) -> (flushed: Vec<CoalescedSystemEvent>)
        requires
            old(self).wf(),
        ensures
            final(self).wf(),
            flushed@ == all_closed_as(old(self).coalescer().windows(), CoalescingClosure::Shutdown),
            final(self).coalescer().windows() == Seq::<CoalescedSystemEvent>::empty(),
    {
        self.exact_coalescer.flush_all(CoalescingClosure::Shutdown)
    }
}

// ---------------------------------------------------------------------------
// Laws
// ---------------------------------------------------------------------------

/// What a query returns from a scan is exactly the scanned rows it selects:
/// each returned row is selected, none is lost or invented, and they come in
/// non-decreasing rank.
pub proof fn law_selection_is_ordered_and_exact<T: Ranked>(rows: Seq<T>, selector: spec_fn(T) -> bool)
    ensures
        ranked_in_order(sort_ranked(rows.filter(selector))),
        sort_ranked(rows.filter(selector)).to_multiset() == rows.filter(selector).to_multiset(),
        forall|i: int|
            0 <= i < sort_ranked(rows.filter(selector)).len() ==> selector(
                #[trigger] sort_ranked(rows.filter(selector))[i],
            ),
        forall|i: int| 0 <= i < rows.len() && selector(rows[i]) ==> #[trigger] sort_ranked(
            rows.filter(selector),
        ).contains(rows[i]),
{
    broadcast use vstd::seq_lib::group_to_multiset_ensures, vstd::seq_lib::group_filter_ensures;
    let selected = rows.filter(selector);
    let ordered = sort_ranked(selected);
    lemma_sort_ranked(selected);
    assert forall|i: int| 0 <= i < ordered.len() implies selector(#[trigger] ordered[i]) by {
        assert(ordered.to_multiset().count(ordered[i]) > 0);
        assert(selected.to_multiset().count(ordered[i]) > 0);
        assert(selected.contains(ordered[i]));
        let j = choose|j: int| 0 <= j < selected.len() && selected[j] == ordered[i];
        assert(selector(selected[j]));
    }
    assert forall|i: int| 0 <= i < rows.len() && selector(rows[i]) implies #[trigger] ordered.contains(rows[i]) by {
        assert(selected.contains(rows[i]));
        assert(selected.to_multiset().count(rows[i]) > 0);
        assert(ordered.to_multiset().count(rows[i]) > 0);
    }
}

/// Retention reclaims the oldest rows: every reclaimed row ranks no later
/// than every kept row, and exactly the excess over the cap is reclaimed.
pub proof fn law_retention_reclaims_the_oldest<T: Ranked>(rows: Seq<T>, cap: int)
    requires
        cap >= 0,
    ensures
        ({
            let ordered = sort_ranked(rows);
            let reclaimed = ordered.take(excess_of(rows.len() as int, cap));
            let kept = ordered.skip(excess_of(rows.len() as int, cap));
            &&& reclaimed.len() == excess_of(rows.len() as int, cap)
            &&& kept.len() == if rows.len() > cap {
                cap
            } else {
                rows.len() as int
            }
            &&& forall|i: int, j: int|
                0 <= i < reclaimed.len() && 0 <= j < kept.len() ==> rank_le(
                    #[trigger] reclaimed[i].rank(),
                    #[trigger] kept[j].rank(),
                )
            &&& reclaimed + kept == ordered
        }),
{
    let ordered = sort_ranked(rows);
    lemma_sort_ranked(rows);
    let e = excess_of(rows.len() as int, cap);
    let reclaimed = ordered.take(e);
    let kept = ordered.skip(e);
    assert forall|i: int, j: int| 0 <= i < reclaimed.len() && 0 <= j < kept.len() implies rank_le(
        #[trigger] reclaimed[i].rank(),
        #[trigger] kept[j].rank(),
    ) by {
        assert(reclaimed[i] == ordered[i]);
        assert(kept[j] == ordered[e + j]);
    }
    assert(reclaimed + kept =~= ordered);
}

/// A system-events query returns its summaries in the order they were
/// first seen, ties broken by the representative's identifier.
pub proof fn law_system_events_come_in_first_seen_order(
    query: SystemEventsQuery,
    stored: Seq<StoredSystemEventSummary>,
)
    ensures
        ({
            let summaries = sort_ranked(stored_summaries(stored).filter(summary_selector(query)));
            forall|i: int, j: int|
                0 <= i < j < summaries.len() ==> {
                    ||| (#[trigger] summaries[i]).first_event_instant < (#[trigger] summaries[j]).first_event_instant
                    ||| (summaries[i].first_event_instant == summaries[j].first_event_instant
                        && summaries[i].system_event.event_identifier
                        <= summaries[j].system_event.event_identifier)
                }
        }),
{
    let summaries = sort_ranked(stored_summaries(stored).filter(summary_selector(query)));
    lemma_sort_ranked(stored_summaries(stored).filter(summary_selector(query)));
    assert forall|i: int, j: int| 0 <= i < j < summaries.len() implies {
        ||| (#[trigger] summaries[i]).first_event_instant < (#[trigger] summaries[j]).first_event_instant
        ||| (summaries[i].first_event_instant == summaries[j].first_event_instant
            && summaries[i].system_event.event_identifier <= summaries[j].system_event.event_identifier)
    } by {
        assert(rank_le(summaries[i].rank(), summaries[j].rank()));
    }
}

/// Summary retention reclaims in the same order: every reclaimed summary was
/// first seen no later than every kept one, ties broken by the
/// representative's identifier.
pub proof fn law_summary_retention_reclaims_the_first_seen(stored: Seq<StoredSystemEventSummary>, cap: int)
    requires
        cap >= 0,
    ensures
        ({
            let ordered = sort_ranked(stored);
            let cut = excess_of(stored.len() as int, cap);
            forall|i: int, j: int|
                0 <= i < cut <= j < ordered.len() ==> {
                    let a = (#[trigger] ordered[i]).stored_summary();
                    let b = (#[trigger] ordered[j]).stored_summary();
                    ||| a.first_event_instant < b.first_event_instant
                    ||| (a.first_event_instant == b.first_event_instant && a.system_event.event_identifier
                        <= b.system_event.event_identifier)
                }
        }),
{
    let ordered = sort_ranked(stored);
    let cut = excess_of(stored.len() as int, cap);
    law_retention_reclaims_the_oldest(stored, cap);
    let reclaimed = ordered.take(cut);
    let kept = ordered.skip(cut);
    assert forall|i: int, j: int| 0 <= i < cut <= j < ordered.len() implies {
        let a = (#[trigger] ordered[i]).stored_summary();
        let b = (#[trigger] ordered[j]).stored_summary();
        ||| a.first_event_instant < b.first_event_instant
        ||| (a.first_event_instant == b.first_event_instant && a.system_event.event_identifier
            <= b.system_event.event_identifier)
    } by {
        assert(reclaimed[i] == ordered[i]);
        assert(kept[j - cut] == ordered[j]);
        assert(rank_le(reclaimed[i].rank(), kept[j - cut].rank()));
    }
}

/// Delivery-hop retention reclaims the oldest messages' hops first: every
/// reclaimed hop's (message slot, hop index) is lexicographically no later
/// than every kept hop's.
pub proof fn law_hop_retention_reclaims_the_oldest_messages(stored: Seq<StoredDeliveryTraceEvent>, cap: int)
    requires
        cap >= 0,
    ensures
        ({
            let ordered = sort_ranked(stored);
            let cut = excess_of(stored.len() as int, cap);
            forall|i: int, j: int|
                0 <= i < cut <= j < ordered.len() ==> {
                    let a = (#[trigger] ordered[i]).stored_event().delivery_trace_observation_key;
                    let b = (#[trigger] ordered[j]).stored_event().delivery_trace_observation_key;
                    ||| a.message_slot < b.message_slot
                    ||| (a.message_slot == b.message_slot && a.hop_index <= b.hop_index)
                }
        }),
{
    let ordered = sort_ranked(stored);
    let cut = excess_of(stored.len() as int, cap);
    law_retention_reclaims_the_oldest(stored, cap);
    let reclaimed = ordered.take(cut);
    let kept = ordered.skip(cut);
    assert forall|i: int, j: int| 0 <= i < cut <= j < ordered.len() implies {
        let a = (#[trigger] ordered[i]).stored_event().delivery_trace_observation_key;
        let b = (#[trigger] ordered[j]).stored_event().delivery_trace_observation_key;
        ||| a.message_slot < b.message_slot
        ||| (a.message_slot == b.message_slot && a.hop_index <= b.hop_index)
    } by {
        assert(reclaimed[i] == ordered[i]);
        assert(kept[j - cut] == ordered[j]);
        assert(rank_le(reclaimed[i].rank(), kept[j - cut].rank()));
    }
}

} // verus!
