//! What introspect writes into its store, and the record keys it writes them
//! under.
//!
//! Each stored record wraps one value. The key is derived from the value's
//! own identifying positions, so a key-range scan over a query prefix returns
//! the rows that query selects, in the order the query wants them.
use vstd::prelude::*;

use crate::key_text::{
    append_padded_decimal, append_padded_hex, decimal, decimal_text, lemma_digits_are_digits,
    lemma_digits_value, lemma_padded_decimal_order, lemma_prefix_keeps_order,
    padded_decimal, padded_hex, sorts_before, ten_to, unsigned_decimal_text, digits, zero_padded,
    zeros,
};
use crate::ordering::Ranked;
use crate::wire::{
    CoalescedSystemEvent, ComponentTraceEvent, ComponentTraceQuery, DeliveryTraceObservationEvent,
    DeliveryTraceObservationJoinKey, DeliveryTraceObservationKey, DeliveryTraceObservationQuery,
    IntrospectionTarget, Query, Response,
};

verus! {

// ---------------------------------------------------------------------------
// Sequences and receipts
// ---------------------------------------------------------------------------

/// The position of one answered query in the audit trail.
#[derive(Debug, Clone, Copy, PartialEq, Eq, Structural, Hash)]
pub struct ObservationSequence(u64);

impl ObservationSequence {
    pub closed spec fn number(self) -> u64 {
        self.0
    }

    pub fn new(value: u64) -> (sequence: Self)
        ensures
            sequence.number() == value,
    {
        Self(value)
    }

    pub fn value(self) -> (value: u64)
        ensures
            value == self.number(),
    {
        self.0
    }
}

impl Ranked for ObservationSequence {
    open spec fn rank(&self) -> (int, int) {
        (self.number() as int, 0)
    }

    fn ranks_no_later_than(&self, other: &Self) -> (answer: bool) {
        self.0 <= other.0
    }
}

/// The store snapshot a write landed in.
#[derive(Debug, Clone, Copy, PartialEq, Eq, Structural, Hash)]
pub struct SnapshotIdentifier(pub u64);

#[derive(Debug, Clone, Copy, PartialEq, Eq, Structural)]
pub struct ObservationReceipt {
    sequence: ObservationSequence,
    snapshot: SnapshotIdentifier,
}

impl ObservationReceipt {
    pub closed spec fn receipt_sequence(self) -> ObservationSequence {
        self.sequence
    }

    pub closed spec fn receipt_snapshot(self) -> SnapshotIdentifier {
        self.snapshot
    }

    pub fn new(sequence: ObservationSequence, snapshot: SnapshotIdentifier) -> (receipt: Self)
        ensures
            receipt.receipt_sequence() == sequence,
            receipt.receipt_snapshot() == snapshot,
    {
        Self { sequence, snapshot }
    }

    pub fn sequence(&self) -> (sequence: ObservationSequence)
        ensures
            sequence == self.receipt_sequence(),
    {
        self.sequence
    }

    pub fn snapshot(&self) -> (snapshot: SnapshotIdentifier)
        ensures
            snapshot == self.receipt_snapshot(),
    {
        self.snapshot
    }
}

// ---------------------------------------------------------------------------
// Key ranges
// ---------------------------------------------------------------------------

/// The bounds of a key-range scan, both inclusive.
#[derive(Debug, PartialEq, Eq)]
pub struct KeyRange {
    pub lower: String,
    pub upper: String,
}

/// `a` sorts no later than `b`, character by character.
pub open spec fn key_le(a: Seq<char>, b: Seq<char>) -> bool {
    ||| a.is_prefix_of(b)
    ||| exists|i: int|
        0 <= i < a.len() && i < b.len() && a.take(i) == b.take(i) && (a[i] as int) < (b[i] as int)
}

/// `key` falls inside the scan bounds.
pub open spec fn within(key: Seq<char>, lower: Seq<char>, upper: Seq<char>) -> bool {
    key_le(lower, key) && key_le(key, upper)
}

/// A key that extends `prefix + "/"` with a non-empty tail starting below `~`
/// falls inside the range `prefix + "/"` .. `prefix + "/~"`.
pub proof fn lemma_tail_within_range(prefix: Seq<char>, tail: Seq<char>)
    requires
        tail.len() >= 1,
        (tail[0] as int) < ('~' as int),
    ensures
        within(prefix + seq!['/'] + tail, prefix + seq!['/'], prefix + seq!['/', '~']),
        prefix + seq!['/'] + tail != prefix + seq!['/', '~'],
{
    let lower = prefix + seq!['/'];
    let key = lower + tail;
    let upper = prefix + seq!['/', '~'];
    assert(lower.is_prefix_of(key)) by {
        assert(key.subrange(0, lower.len() as int) =~= lower);
    }
    let i = lower.len() as int;
    assert(key.take(i) =~= upper.take(i));
    assert(key[i] == tail[0]);
    assert(upper[i] == '~');
    assert(key_le(key, upper));
    assert(key[i] != upper[i]);
}

// ---------------------------------------------------------------------------
// Observations
// ---------------------------------------------------------------------------

/// The record key of an answered query: its sequence in decimal.
pub open spec fn observation_key(sequence: ObservationSequence) -> Seq<char> {
    decimal(sequence.number() as int)
}

/// The record key an observation of `sequence` is stored under.
pub fn observation_record_key(sequence: ObservationSequence) -> (key: String)
    ensures
        key@ == observation_key(sequence),
{
    unsigned_decimal_text(sequence.value())
}

/// One answered query, kept with the response it produced.
#[derive(Debug, PartialEq)]
pub struct StoredObservation {
    sequence: ObservationSequence,
    query: Query,
    response: Response,
}

impl StoredObservation {
    pub closed spec fn observation_sequence(&self) -> ObservationSequence {
        self.sequence
    }

    pub closed spec fn observed_query(&self) -> Query {
        self.query
    }

    pub closed spec fn observed_response(&self) -> Response {
        self.response
    }

    pub fn new(sequence: ObservationSequence, query: Query, response: Response) -> (stored: Self)
        ensures
            stored.observation_sequence() == sequence,
            stored.observed_query() == query,
            stored.observed_response() == response,
    {
        Self { sequence, query, response }
    }

    pub fn sequence(&self) -> (sequence: ObservationSequence)
        ensures
            sequence == self.observation_sequence(),
    {
        self.sequence
    }

    pub fn query(&self) -> (query: &Query)
        ensures
            *query == self.observed_query(),
    {
        &self.query
    }

    pub fn response(&self) -> (response: &Response)
        ensures
            *response == self.observed_response(),
    {
        &self.response
    }

    pub fn record_key(&self) -> (key: String)
        ensures
            key@ == observation_key(self.observation_sequence()),
    {
        observation_record_key(self.sequence)
    }
}

// ---------------------------------------------------------------------------
// Delivery traces
// ---------------------------------------------------------------------------

/// The `engine/slot/originator` text a hop's key and a query's range share.
pub open spec fn join_prefix(engine: Seq<char>, message_slot: int, component: Seq<char>) -> Seq<char> {
    engine + seq!['/'] + decimal(message_slot) + seq!['/'] + component
}

/// The record key of one delivery hop: the join prefix, then the hop index
/// zero-padded to ten characters.
pub open spec fn delivery_key(key: DeliveryTraceObservationKey) -> Seq<char> {
    join_prefix(key.engine_identifier@, key.message_slot as int, key.component_name@) + seq!['/']
        + padded_decimal(key.hop_index as int, 10)
}

/// Whether one recorded hop belongs to the message a query names.
pub open spec fn hop_matches(event: DeliveryTraceObservationEvent, query: DeliveryTraceObservationQuery) -> bool {
    &&& event.delivery_trace_observation_key.engine_identifier@ == query.engine_identifier@
    &&& event.delivery_trace_observation_key.message_slot == query.message_slot
    &&& event.delivery_trace_observation_key.component_name@ == query.component_name@
}

#[derive(Debug, PartialEq, Eq)]
pub struct StoredDeliveryTraceEvent {
    event: DeliveryTraceObservationEvent,
}

impl Clone for StoredDeliveryTraceEvent {
    fn clone(&self) -> (r: Self)
        ensures
            r == *self,
    {
        StoredDeliveryTraceEvent { event: self.event.clone() }
    }
}

impl StoredDeliveryTraceEvent {
    pub closed spec fn stored_event(&self) -> DeliveryTraceObservationEvent {
        self.event
    }

    pub fn new(event: DeliveryTraceObservationEvent) -> (stored: Self)
        ensures
            stored.stored_event() == event,
    {
        Self { event }
    }

    pub fn event(&self) -> (event: &DeliveryTraceObservationEvent)
        ensures
            *event == self.stored_event(),
    {
        &self.event
    }

    pub fn into_event(self) -> (event: DeliveryTraceObservationEvent)
        ensures
            event == self.stored_event(),
    {
        self.event
    }

    pub fn record_key(&self) -> (key: String)
        ensures
            key@ == delivery_key(self.stored_event().delivery_trace_observation_key),
    {
        let key = &self.event.delivery_trace_observation_key;
        let mut text = delivery_trace_prefix(&join_key_of_event(key));
        proof {
            reveal_strlit("/");
        }
        text.append("/");
        append_padded_decimal(&mut text, key.hop_index, 10);
        text
    }
}

/// A stored hop ages with its message: hops of an earlier message slot are
/// older, and within one message the earlier hop is older.
impl Ranked for StoredDeliveryTraceEvent {
    open spec fn rank(&self) -> (int, int) {
        let key = self.stored_event().delivery_trace_observation_key;
        (key.message_slot as int, key.hop_index as int)
    }

    fn ranks_no_later_than(&self, other: &Self) -> (answer: bool) {
        let mine = &self.event.delivery_trace_observation_key;
        let theirs = &other.event.delivery_trace_observation_key;
        mine.message_slot < theirs.message_slot || (mine.message_slot == theirs.message_slot
            && mine.hop_index <= theirs.hop_index)
    }
}

impl Ranked for DeliveryTraceObservationEvent {
    open spec fn rank(&self) -> (int, int) {
        (self.delivery_trace_observation_key.hop_index as int, 0)
    }

    fn ranks_no_later_than(&self, other: &Self) -> (answer: bool) {
        self.delivery_trace_observation_key.hop_index <= other.delivery_trace_observation_key.hop_index
    }
}

/// The join key of one recorded hop: the message the hop belongs to, without
/// the hop's own index.
pub fn join_key_of_event(key: &DeliveryTraceObservationKey) -> (join: DeliveryTraceObservationJoinKey)
    ensures
        join.engine_identifier == key.engine_identifier,
        join.message_slot == key.message_slot,
        join.component_name == key.component_name,
{
    DeliveryTraceObservationJoinKey {
        engine_identifier: key.engine_identifier.clone(),
        message_slot: key.message_slot,
        component_name: key.component_name.clone(),
    }
}

/// The join key a delivery-trace query selects.
pub fn join_key_of_query(query: &DeliveryTraceObservationQuery) -> (join: DeliveryTraceObservationJoinKey)
    ensures
        join.engine_identifier == query.engine_identifier,
        join.message_slot == query.message_slot,
        join.component_name == query.component_name,
{
    DeliveryTraceObservationJoinKey {
        engine_identifier: query.engine_identifier.clone(),
        message_slot: query.message_slot,
        component_name: query.component_name.clone(),
    }
}

/// The shared `engine/slot/originator` key prefix both a stored hop and a
/// query range derive from.
pub fn delivery_trace_prefix(key: &DeliveryTraceObservationJoinKey) -> (prefix: String)
    ensures
        prefix@ == join_prefix(key.engine_identifier@, key.message_slot as int, key.component_name@),
{
    proof {
        reveal_strlit("/");
    }
    let mut text = key.engine_identifier.clone();
    text.append("/");
    let slot = decimal_text(key.message_slot);
    text.append(slot.as_str());
    text.append("/");
    text.append(key.component_name.as_str());
    text
}

/// Key-range bounds for a delivery-trace query: every hop of the one message.
pub fn delivery_trace_range(query: &DeliveryTraceObservationQuery) -> (range: KeyRange)
    ensures
        range.lower@ == join_prefix(query.engine_identifier@, query.message_slot as int, query.component_name@)
            + seq!['/'],
        range.upper@ == join_prefix(query.engine_identifier@, query.message_slot as int, query.component_name@)
            + seq!['/', '~'],
{
    proof {
        reveal_strlit("/");
        reveal_strlit("/~");
    }
    let prefix = delivery_trace_prefix(&join_key_of_query(query));
    let mut lower = prefix.clone();
    lower.append("/");
    let mut upper = prefix;
    upper.append("/~");
    KeyRange { lower, upper }
}

/// Whether one recorded hop belongs to the message a query names.
pub fn delivery_trace_matches(event: &DeliveryTraceObservationEvent, query: &DeliveryTraceObservationQuery) -> (answer: bool)
    ensures
        answer == hop_matches(*event, *query),
{
    let key = &event.delivery_trace_observation_key;
    key.engine_identifier == query.engine_identifier && key.message_slot == query.message_slot
        && key.component_name == query.component_name
}

// ---------------------------------------------------------------------------
// Component traces
// ---------------------------------------------------------------------------

/// The name a component target carries in record keys.
pub open spec fn target_name(target: IntrospectionTarget) -> Seq<char> {
    match target {
        IntrospectionTarget::EngineManager => "EngineManager"@,
        IntrospectionTarget::Router => "Router"@,
        IntrospectionTarget::Terminal => "Terminal"@,
        IntrospectionTarget::Harness => "Harness"@,
        IntrospectionTarget::Signal => "Signal"@,
    }
}

pub fn target_name_text(target: IntrospectionTarget) -> (name: &'static str)
    ensures
        name@ == target_name(target),
{
    match target {
        IntrospectionTarget::EngineManager => "EngineManager",
        IntrospectionTarget::Router => "Router",
        IntrospectionTarget::Terminal => "Terminal",
        IntrospectionTarget::Harness => "Harness",
        IntrospectionTarget::Signal => "Signal",
    }
}

/// The `engine/component` text a component-trace key and query range share.
pub open spec fn component_prefix(engine: Seq<char>, component: IntrospectionTarget) -> Seq<char> {
    engine + seq!['/'] + target_name(component)
}

/// The record key of one component-trace event: the component prefix, then
/// the sequence zero-padded to twenty characters.
pub open spec fn component_key(event: ComponentTraceEvent) -> Seq<char> {
    component_prefix(event.engine_identifier@, event.introspection_target) + seq!['/']
        + padded_decimal(event.trace_sequence as int, 20)
}

/// Whether one recorded component-trace event satisfies a query, including
/// its optional event-name narrowing.
pub open spec fn trace_matches(event: ComponentTraceEvent, query: ComponentTraceQuery) -> bool {
    &&& event.engine_identifier@ == query.engine_identifier@
    &&& event.introspection_target == query.introspection_target
    &&& match query.optional_trace_event_name {
        Some(name) => event.trace_event_name@ == name@,
        None => true,
    }
}

#[derive(Debug, PartialEq, Eq)]
pub struct StoredComponentTraceEvent {
    event: ComponentTraceEvent,
}

impl Clone for StoredComponentTraceEvent {
    fn clone(&self) -> (r: Self)
        ensures
            r == *self,
    {
        StoredComponentTraceEvent { event: self.event.clone() }
    }
}

impl StoredComponentTraceEvent {
    pub closed spec fn stored_event(&self) -> ComponentTraceEvent {
        self.event
    }

    pub fn new(event: ComponentTraceEvent) -> (stored: Self)
        ensures
            stored.stored_event() == event,
    {
        Self { event }
    }

    pub fn event(&self) -> (event: &ComponentTraceEvent)
        ensures
            *event == self.stored_event(),
    {
        &self.event
    }

    pub fn into_event(self) -> (event: ComponentTraceEvent)
        ensures
            event == self.stored_event(),
    {
        self.event
    }

    pub fn record_key(&self) -> (key: String)
        ensures
            key@ == component_key(self.stored_event()),
    {
        let mut text = component_trace_prefix(
            self.event.engine_identifier.as_str(),
            &self.event.introspection_target,
        );
        proof {
            reveal_strlit("/");
        }
        text.append("/");
        append_padded_decimal(&mut text, self.event.trace_sequence, 20);
        text
    }
}

/// A stored component-trace event ages with its trace sequence.
impl Ranked for StoredComponentTraceEvent {
    open spec fn rank(&self) -> (int, int) {
        (self.stored_event().trace_sequence as int, 0)
    }

    fn ranks_no_later_than(&self, other: &Self) -> (answer: bool) {
        self.event.trace_sequence <= other.event.trace_sequence
    }
}

impl Ranked for ComponentTraceEvent {
    open spec fn rank(&self) -> (int, int) {
        (self.trace_sequence as int, 0)
    }

    fn ranks_no_later_than(&self, other: &Self) -> (answer: bool) {
        self.trace_sequence <= other.trace_sequence
    }
}

/// The shared `engine/component` key prefix. Keys sort by component, then
/// by zero-padded sequence, so a scan over one component returns its events
/// in emission order.
pub fn component_trace_prefix(engine: &str, component: &IntrospectionTarget) -> (prefix: String)
    ensures
        prefix@ == component_prefix(engine@, *component),
{
    proof {
        reveal_strlit("/");
    }
    let mut text = String::from_str(engine);
    text.append("/");
    text.append(target_name_text(*component));
    text
}

/// Key-range bounds for a component-trace query: every event whose key
/// shares the `engine/component` prefix.
pub fn component_trace_range(query: &ComponentTraceQuery) -> (range: KeyRange)
    ensures
        range.lower@ == component_prefix(query.engine_identifier@, query.introspection_target) + seq!['/'],
        range.upper@ == component_prefix(query.engine_identifier@, query.introspection_target) + seq![
            '/',
            '~',
        ],
{
    proof {
        reveal_strlit("/");
        reveal_strlit("/~");
    }
    let prefix = component_trace_prefix(query.engine_identifier.as_str(), &query.introspection_target);
    let mut lower = prefix.clone();
    lower.append("/");
    let mut upper = prefix;
    upper.append("/~");
    KeyRange { lower, upper }
}

/// Whether one recorded component-trace event satisfies a query.
pub fn component_trace_matches(event: &ComponentTraceEvent, query: &ComponentTraceQuery) -> (answer: bool)
    ensures
        answer == trace_matches(*event, *query),
{
    let name_agrees = match &query.optional_trace_event_name {
        Some(name) => event.trace_event_name == *name,
        None => true,
    };
    event.engine_identifier == query.engine_identifier && event.introspection_target
        == query.introspection_target && name_agrees
}

// ---------------------------------------------------------------------------
// System-event summaries
// ---------------------------------------------------------------------------

/// The record key of one summary: the boot in two sixteen-digit hexadecimal
/// halves, then the representative's identifier zero-padded to twenty.
pub open spec fn summary_key(summary: CoalescedSystemEvent) -> Seq<char> {
    let event = summary.system_event;
    padded_hex((event.boot_identifier.first_integer as u64) as nat, 16) + padded_hex(
        (event.boot_identifier.second_integer as u64) as nat,
        16,
    ) + seq!['/'] + padded_decimal(event.event_identifier as int, 20)
}

#[derive(Debug, PartialEq, Eq)]
pub struct StoredSystemEventSummary {
    summary: CoalescedSystemEvent,
}

impl Clone for StoredSystemEventSummary {
    fn clone(&self) -> (r: Self)
        ensures
            r == *self,
    {
        StoredSystemEventSummary { summary: self.summary.clone() }
    }
}

impl StoredSystemEventSummary {
    pub closed spec fn stored_summary(&self) -> CoalescedSystemEvent {
        self.summary
    }

    pub fn new(summary: CoalescedSystemEvent) -> (stored: Self)
        ensures
            stored.stored_summary() == summary,
    {
        Self { summary }
    }

    pub fn summary(&self) -> (summary: &CoalescedSystemEvent)
        ensures
            *summary == self.stored_summary(),
    {
        &self.summary
    }

    pub fn into_summary(self) -> (summary: CoalescedSystemEvent)
        ensures
            summary == self.stored_summary(),
    {
        self.summary
    }

    pub fn record_key(&self) -> (key: String)
        ensures
            key@ == summary_key(self.stored_summary()),
    {
        let event = &self.summary.system_event;
        let mut text = String::new();
        append_padded_hex(&mut text, event.boot_identifier.first_integer as u64, 16);
        append_padded_hex(&mut text, event.boot_identifier.second_integer as u64, 16);
        proof {
            reveal_strlit("/");
        }
        text.append("/");
        append_padded_decimal(&mut text, event.event_identifier, 20);
        text
    }
}

impl Ranked for CoalescedSystemEvent {
    open spec fn rank(&self) -> (int, int) {
        (self.first_event_instant as int, self.system_event.event_identifier as int)
    }

    fn ranks_no_later_than(&self, other: &Self) -> (answer: bool) {
        self.first_event_instant < other.first_event_instant || (self.first_event_instant
            == other.first_event_instant && self.system_event.event_identifier
            <= other.system_event.event_identifier)
    }
}

impl Ranked for StoredSystemEventSummary {
    open spec fn rank(&self) -> (int, int) {
        self.stored_summary().rank()
    }

    fn ranks_no_later_than(&self, other: &Self) -> (answer: bool) {
        self.summary.ranks_no_later_than(&other.summary)
    }
}

// ---------------------------------------------------------------------------
// Laws
// ---------------------------------------------------------------------------

/// Padded decimal text starts below `~`: with a digit or a minus sign.
proof fn lemma_padded_decimal_head(value: int, width: int)
    requires
        width >= 2,
    ensures
        padded_decimal(value, width).len() >= 1,
        (padded_decimal(value, width)[0] as int) < ('~' as int),
{
    let magnitude: nat = if value < 0 {
        (-value) as nat
    } else {
        value as nat
    };
    lemma_digits_are_digits(magnitude, 10);
    let body = zero_padded(digits(magnitude, 10), if value < 0 {
        width - 1
    } else {
        width
    });
    if digits(magnitude, 10).len() < (if value < 0 {
        width - 1
    } else {
        width
    }) {
        assert(body[0] == zeros(1)[0] || body[0] == '0');
    } else {
        assert(body[0] == digits(magnitude, 10)[0]);
    }
}

/// A stored hop and a query that selects it agree on the scan prefix: the
/// hop's record key falls inside the query's key range, strictly below its
/// upper bound.
pub proof fn law_selected_hop_lies_in_query_range(
    event: DeliveryTraceObservationEvent,
    query: DeliveryTraceObservationQuery,
)
    requires
        hop_matches(event, query),
    ensures
        within(
            delivery_key(event.delivery_trace_observation_key),
            join_prefix(query.engine_identifier@, query.message_slot as int, query.component_name@)
                + seq!['/'],
            join_prefix(query.engine_identifier@, query.message_slot as int, query.component_name@)
                + seq!['/', '~'],
        ),
        delivery_key(event.delivery_trace_observation_key) != join_prefix(
            query.engine_identifier@,
            query.message_slot as int,
            query.component_name@,
        ) + seq!['/', '~'],
{
    let key = event.delivery_trace_observation_key;
    lemma_padded_decimal_head(key.hop_index as int, 10);
    lemma_tail_within_range(
        join_prefix(query.engine_identifier@, query.message_slot as int, query.component_name@),
        padded_decimal(key.hop_index as int, 10),
    );
}

/// A stored component-trace event and a query that selects it agree on the
/// scan prefix: the event's record key falls inside the query's key range.
pub proof fn law_selected_trace_event_lies_in_query_range(
    event: ComponentTraceEvent,
    query: ComponentTraceQuery,
)
    requires
        trace_matches(event, query),
    ensures
        within(
            component_key(event),
            component_prefix(query.engine_identifier@, query.introspection_target) + seq!['/'],
            component_prefix(query.engine_identifier@, query.introspection_target) + seq!['/', '~'],
        ),
        component_key(event) != component_prefix(query.engine_identifier@, query.introspection_target)
            + seq!['/', '~'],
{
    lemma_padded_decimal_head(event.trace_sequence as int, 20);
    lemma_tail_within_range(
        component_prefix(query.engine_identifier@, query.introspection_target),
        padded_decimal(event.trace_sequence as int, 20),
    );
}

/// A key that sorts strictly before another sorts no later than it and
/// differs from it.
proof fn lemma_sorts_before_orders_keys(a: Seq<char>, b: Seq<char>)
    requires
        sorts_before(a, b),
    ensures
        key_le(a, b),
        a != b,
{
    let i = choose|i: int|
        #![trigger a.take(i), b.take(i)]
        0 <= i < a.len() && i < b.len() && a.take(i) == b.take(i) && (a[i] as int) < (b[i] as int);
    assert(a[i] != b[i]);
}

/// Twenty decimal places hold every non-negative `i64`.
proof fn lemma_twenty_places_hold_i64(value: i64)
    ensures
        (value as int) < ten_to(20),
{
    reveal_with_fuel(ten_to, 21);
    assert(ten_to(20) == 100_000_000_000_000_000_000nat);
}

/// Within one component, record keys sort in emission order: of two events
/// of one engine and component with non-negative trace sequences, the one
/// emitted first has the key that sorts first, so a key-range scan returns
/// the component's events in emission order.
pub proof fn law_trace_keys_sort_in_emission_order(earlier: ComponentTraceEvent, later: ComponentTraceEvent)
    requires
        earlier.engine_identifier@ == later.engine_identifier@,
        earlier.introspection_target == later.introspection_target,
        0 <= earlier.trace_sequence < later.trace_sequence,
    ensures
        key_le(component_key(earlier), component_key(later)),
        component_key(earlier) != component_key(later),
{
    lemma_twenty_places_hold_i64(later.trace_sequence);
    lemma_padded_decimal_order(earlier.trace_sequence as int, later.trace_sequence as int, 20);
    let prefix = component_prefix(earlier.engine_identifier@, earlier.introspection_target) + seq!['/'];
    lemma_prefix_keeps_order(
        prefix,
        padded_decimal(earlier.trace_sequence as int, 20),
        padded_decimal(later.trace_sequence as int, 20),
    );
    lemma_sorts_before_orders_keys(component_key(earlier), component_key(later));
}

/// Within one message, hop keys sort in hop order: of two hops of one
/// message with non-negative hop indices that fit the key's ten places, the
/// earlier hop has the key that sorts first.
pub proof fn law_hop_keys_sort_in_hop_order(earlier: DeliveryTraceObservationKey, later: DeliveryTraceObservationKey)
    requires
        earlier.engine_identifier@ == later.engine_identifier@,
        earlier.message_slot == later.message_slot,
        earlier.component_name@ == later.component_name@,
        0 <= earlier.hop_index < later.hop_index < 10_000_000_000,
    ensures
        key_le(delivery_key(earlier), delivery_key(later)),
        delivery_key(earlier) != delivery_key(later),
{
    assert(ten_to(10) == 10_000_000_000nat) by {
        reveal_with_fuel(ten_to, 11);
    }
    lemma_padded_decimal_order(earlier.hop_index as int, later.hop_index as int, 10);
    let prefix = join_prefix(earlier.engine_identifier@, earlier.message_slot as int, earlier.component_name@)
        + seq!['/'];
    lemma_prefix_keeps_order(
        prefix,
        padded_decimal(earlier.hop_index as int, 10),
        padded_decimal(later.hop_index as int, 10),
    );
    lemma_sorts_before_orders_keys(delivery_key(earlier), delivery_key(later));
}

/// Within one boot, summary keys sort by the representative's identifier:
/// of two summaries of one boot with non-negative identifiers, the smaller
/// identifier has the key that sorts first.
pub proof fn law_summary_keys_sort_by_identifier(earlier: CoalescedSystemEvent, later: CoalescedSystemEvent)
    requires
        earlier.system_event.boot_identifier == later.system_event.boot_identifier,
        0 <= earlier.system_event.event_identifier < later.system_event.event_identifier,
    ensures
        key_le(summary_key(earlier), summary_key(later)),
        summary_key(earlier) != summary_key(later),
{
    let boot = earlier.system_event.boot_identifier;
    lemma_twenty_places_hold_i64(later.system_event.event_identifier);
    lemma_padded_decimal_order(
        earlier.system_event.event_identifier as int,
        later.system_event.event_identifier as int,
        20,
    );
    let prefix = padded_hex((boot.first_integer as u64) as nat, 16) + padded_hex(
        (boot.second_integer as u64) as nat,
        16,
    ) + seq!['/'];
    lemma_prefix_keeps_order(
        prefix,
        padded_decimal(earlier.system_event.event_identifier as int, 20),
        padded_decimal(later.system_event.event_identifier as int, 20),
    );
    lemma_sorts_before_orders_keys(summary_key(earlier), summary_key(later));
}

/// No character of `text` is a slash.
pub open spec fn free_of_slash(text: Seq<char>) -> bool {
    forall|i: int| 0 <= i < text.len() ==> text[i] != '/'
}

/// A key inside a range whose upper bound is the lower bound with `~`
/// appended starts with the lower bound.
proof fn lemma_within_starts_with_lower(key: Seq<char>, lower: Seq<char>)
    requires
        within(key, lower, lower + seq!['~']),
    ensures
        lower.is_prefix_of(key),
{
    let upper = lower + seq!['~'];
    if !lower.is_prefix_of(key) {
        let i = choose|i: int|
            0 <= i < lower.len() && i < key.len() && lower.take(i) == key.take(i) && (lower[i] as int)
                < (key[i] as int);
        assert(lower[i] == upper[i]);
        if key.is_prefix_of(upper) {
            assert(key[i] == upper[i]);
        } else {
            let j = choose|j: int|
                0 <= j < key.len() && j < upper.len() && key.take(j) == upper.take(j) && (key[j] as int)
                    < (upper[j] as int);
            if j < i {
                assert(key[j] == key.take(i)[j]);
                assert(lower[j] == lower.take(i)[j]);
                assert(upper[j] == lower[j]);
                assert(key[j] == key.take(j + 1)[j]);
            } else if j > i {
                assert(key[i] == key.take(j)[i]);
                assert(upper[i] == upper.take(j)[i]);
            }
        }
    }
}

/// Two slash-separated texts, one a prefix of the other, agree on the part
/// before their first slash when neither part holds a slash.
proof fn lemma_split_at_slash(a: Seq<char>, x: Seq<char>, b: Seq<char>, y: Seq<char>)
    requires
        free_of_slash(a),
        free_of_slash(b),
        (b + seq!['/'] + y).is_prefix_of(a + seq!['/'] + x),
    ensures
        a == b,
        y.is_prefix_of(x),
{
    let whole = a + seq!['/'] + x;
    let part = b + seq!['/'] + y;
    if b.len() < a.len() {
        assert(part[b.len() as int] == '/');
        assert(whole[b.len() as int] == a[b.len() as int]);
    } else if a.len() < b.len() {
        assert(whole[a.len() as int] == '/');
        assert(part[a.len() as int] == b[a.len() as int]);
    }
    assert forall|i: int| 0 <= i < a.len() implies a[i] == b[i] by {
        assert(whole[i] == a[i]);
        assert(part[i] == b[i]);
    }
    assert(a =~= b);
    assert forall|i: int| 0 <= i < y.len() implies y[i] == x[i] by {
        assert(part[b.len() + 1 + i] == y[i]);
        assert(whole[a.len() + 1 + i] == x[i]);
    }
}

/// Decimal text holds no slash.
proof fn lemma_decimal_free_of_slash(value: int)
    ensures
        free_of_slash(decimal(value)),
{
    let magnitude: nat = if value < 0 {
        (-value) as nat
    } else {
        value as nat
    };
    lemma_digits_are_digits(magnitude, 10);
    assert forall|i: int| 0 <= i < decimal(value).len() implies decimal(value)[i] != '/' by {
        if value < 0 {
            if i > 0 {
                assert(decimal(value)[i] == digits(magnitude, 10)[i - 1]);
            }
        } else {
            assert(decimal(value)[i] == digits(magnitude, 10)[i]);
        }
    }
}

/// Two integers with one decimal text are one integer.
proof fn lemma_decimal_injective(a: int, b: int)
    requires
        decimal(a) == decimal(b),
    ensures
        a == b,
{
    let magnitude_a: nat = if a < 0 {
        (-a) as nat
    } else {
        a as nat
    };
    let magnitude_b: nat = if b < 0 {
        (-b) as nat
    } else {
        b as nat
    };
    lemma_digits_are_digits(magnitude_a, 10);
    lemma_digits_are_digits(magnitude_b, 10);
    lemma_digits_value(magnitude_a);
    lemma_digits_value(magnitude_b);
    if a < 0 && b < 0 {
        assert(digits(magnitude_a, 10) =~= decimal(a).drop_first());
        assert(digits(magnitude_b, 10) =~= decimal(b).drop_first());
    } else if a < 0 {
        assert(decimal(a)[0] == '-');
        assert(decimal(b)[0] == digits(magnitude_b, 10)[0]);
    } else if b < 0 {
        assert(decimal(b)[0] == '-');
        assert(decimal(a)[0] == digits(magnitude_a, 10)[0]);
    }
}

/// Only a hop the query selects lies in the query's key range, when the
/// engine identifiers and originator names hold no slash; with
/// `law_selected_hop_lies_in_query_range`, a scan of the range returns
/// exactly the hops the query selects.
pub proof fn law_hop_in_query_range_is_selected(
    event: DeliveryTraceObservationEvent,
    query: DeliveryTraceObservationQuery,
)
    requires
        free_of_slash(event.delivery_trace_observation_key.engine_identifier@),
        free_of_slash(event.delivery_trace_observation_key.component_name@),
        free_of_slash(query.engine_identifier@),
        free_of_slash(query.component_name@),
        within(
            delivery_key(event.delivery_trace_observation_key),
            join_prefix(query.engine_identifier@, query.message_slot as int, query.component_name@)
                + seq!['/'],
            join_prefix(query.engine_identifier@, query.message_slot as int, query.component_name@)
                + seq!['/', '~'],
        ),
    ensures
        hop_matches(event, query),
{
    let key = event.delivery_trace_observation_key;
    let lower = join_prefix(query.engine_identifier@, query.message_slot as int, query.component_name@)
        + seq!['/'];
    assert(lower + seq!['~'] =~= join_prefix(
        query.engine_identifier@,
        query.message_slot as int,
        query.component_name@,
    ) + seq!['/', '~']);
    lemma_within_starts_with_lower(delivery_key(key), lower);
    let slot_text = decimal(key.message_slot as int);
    let query_slot_text = decimal(query.message_slot as int);
    let hop_text = padded_decimal(key.hop_index as int, 10);
    let after_engine = slot_text + seq!['/'] + (key.component_name@ + seq!['/'] + hop_text);
    let query_after_engine = query_slot_text + seq!['/'] + (query.component_name@ + seq!['/']);
    assert(delivery_key(key) =~= key.engine_identifier@ + seq!['/'] + after_engine);
    assert(lower =~= query.engine_identifier@ + seq!['/'] + query_after_engine);
    lemma_split_at_slash(key.engine_identifier@, after_engine, query.engine_identifier@, query_after_engine);
    lemma_decimal_free_of_slash(key.message_slot as int);
    lemma_decimal_free_of_slash(query.message_slot as int);
    lemma_split_at_slash(
        slot_text,
        key.component_name@ + seq!['/'] + hop_text,
        query_slot_text,
        query.component_name@ + seq!['/'],
    );
    lemma_decimal_injective(key.message_slot as int, query.message_slot as int);
    assert(query.component_name@ + seq!['/'] =~= query.component_name@ + seq!['/'] + Seq::<char>::empty());
    lemma_split_at_slash(key.component_name@, hop_text, query.component_name@, Seq::<char>::empty());
}

} // verus!
