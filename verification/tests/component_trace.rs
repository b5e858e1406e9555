//! Pushed component-trace events are queryable by component and event name,
//! in emission order.

use introspect::coalescer::ExactCoalescingPolicy;
use introspect::store::{IntrospectionStore, PersistenceRetention};
use introspect::store_record::StoredComponentTraceEvent;
use introspect::trace_frame::TracedComponentEvent;
use introspect::wire::{ComponentTraceEvent, ComponentTraceQuery, IntrospectionTarget, TraceLayer};

fn signal_event(engine: &str, event_name: &str, sequence: i64) -> TracedComponentEvent {
    TracedComponentEvent::new(ComponentTraceEvent {
        engine_identifier: engine.to_owned(),
        introspection_target: IntrospectionTarget::Signal,
        trace_layer: TraceLayer::Signal,
        trace_event_name: event_name.to_owned(),
        trace_sequence: sequence,
    })
}

fn component_trace_query(engine: &str, event_name: Option<&str>) -> ComponentTraceQuery {
    ComponentTraceQuery {
        engine_identifier: engine.to_owned(),
        introspection_target: IntrospectionTarget::Signal,
        optional_trace_event_name: event_name.map(str::to_owned),
    }
}

#[test]
fn pushed_signal_trace_events_are_ingested_and_queryable_by_component_and_name() {
    let store = IntrospectionStore::new(PersistenceRetention::default(), ExactCoalescingPolicy::default());
    let pushed = vec![
        signal_event("prototype", "SignalStarted", 0),
        signal_event("prototype", "SignalAdmitted", 1),
        signal_event("prototype", "SignalReplied", 2),
    ];
    // The store scans rows in record-key order.
    let mut rows = pushed
        .into_iter()
        .map(|traced| StoredComponentTraceEvent::new(traced.into_event()))
        .collect::<Vec<_>>();
    rows.sort_by_key(|row| row.record_key());
    let scanned = || rows.clone();

    let all_events = store
        .component_trace(component_trace_query("prototype", None), scanned())
        .component_trace_events;
    assert_eq!(all_events.len(), 3, "all three pushed events were ingested");
    let names = all_events
        .iter()
        .map(|event| event.trace_event_name.clone())
        .collect::<Vec<_>>();
    assert_eq!(
        names,
        vec![
            "SignalStarted".to_owned(),
            "SignalAdmitted".to_owned(),
            "SignalReplied".to_owned(),
        ],
        "events return in monotonic sequence order"
    );
    let sequences = all_events.iter().map(|event| event.trace_sequence).collect::<Vec<_>>();
    assert_eq!(sequences, vec![0, 1, 2]);

    let admitted = store
        .component_trace(component_trace_query("prototype", Some("SignalAdmitted")), scanned())
        .component_trace_events;
    assert_eq!(admitted.len(), 1, "event-name filter narrows to one event");
    assert_eq!(admitted[0].trace_event_name, "SignalAdmitted");
    assert_eq!(admitted[0].trace_sequence, 1);
}

#[test]
fn component_trace_orders_by_sequence_whatever_the_scan_order() {
    let store = IntrospectionStore::new(PersistenceRetention::default(), ExactCoalescingPolicy::default());
    let rows = vec![
        StoredComponentTraceEvent::new(signal_event("prototype", "C", 9).into_event()),
        StoredComponentTraceEvent::new(signal_event("prototype", "A", -3).into_event()),
        StoredComponentTraceEvent::new(signal_event("other", "B", 1).into_event()),
        StoredComponentTraceEvent::new(signal_event("prototype", "B", 4).into_event()),
    ];
    let events = store
        .component_trace(component_trace_query("prototype", None), rows)
        .component_trace_events;
    let sequences = events.iter().map(|event| event.trace_sequence).collect::<Vec<_>>();
    assert_eq!(sequences, vec![-3, 4, 9]);
}

#[test]
fn traced_event_carries_its_event() {
    let traced: TracedComponentEvent = ComponentTraceEvent {
        engine_identifier: "prototype".to_owned(),
        introspection_target: IntrospectionTarget::Router,
        trace_layer: TraceLayer::Nexus,
        trace_event_name: "Routed".to_owned(),
        trace_sequence: 7,
    }
    .into();
    assert_eq!(traced.event().trace_sequence, 7);
    assert_eq!(traced.clone().into_event().trace_event_name, "Routed");
}
