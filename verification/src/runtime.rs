//! The introspection root's decisions and its peer clients' state.
//!
//! The root answers each query in one of two ways: directly, or by asking
//! the store or the router client one thing and composing the reply. `plan`
//! takes that decision and counts the query; `complete` composes the reply;
//! `observation` is the audit record of the answer.
use vstd::prelude::*;

use crate::error::Error;
use crate::key_text::{decimal, unsigned_decimal_text};
use crate::store::StoreLocation;
use crate::store_record::{ObservationSequence, StoredObservation};
use crate::wire::{
    BootIdentifier, ComponentReadiness, ComponentSnapshotObservation, ComponentTrace,
    ComponentTraceQuery, DeliveryTraceObservation, DeliveryTraceObservationQuery,
    EngineSnapshotObservation, IntrospectionTarget, PrototypeWitnessObservation,
    PrototypeWitnessObservationQuery, Query, Response, SystemEvent, SystemEventAccepted, SystemEvents,
    SystemEventsFlushed, SystemEventsQuery,
};

verus! {

// ---------------------------------------------------------------------------
// Peer sockets
// ---------------------------------------------------------------------------

/// The peer sockets the daemon was configured with; `None` means no peer.
#[derive(Debug, PartialEq, Eq)]
pub struct TargetSocketDirectory {
    pub manager_socket: Option<String>,
    pub router_socket: Option<String>,
    pub terminal_socket: Option<String>,
    pub trace_socket: Option<String>,
}

pub open spec fn option_text(value: Option<String>) -> Option<Seq<char>> {
    match value {
        Some(text) => Some(text@),
        None => None,
    }
}

fn clone_option(value: &Option<String>) -> (copy: Option<String>)
    ensures
        copy == *value,
{
    match value {
        Some(text) => Some(text.clone()),
        None => None,
    }
}

fn borrow_option(value: &Option<String>) -> (borrowed: Option<&str>)
    ensures
        match borrowed {
            Some(text) => option_text(*value) == Some(text@),
            None => value.is_none(),
        },
{
    match value {
        Some(text) => Some(text.as_str()),
        None => None,
    }
}

impl Clone for TargetSocketDirectory {
    fn clone(&self) -> (r: Self)
        ensures
            r == *self,
    {
        TargetSocketDirectory {
            manager_socket: clone_option(&self.manager_socket),
            router_socket: clone_option(&self.router_socket),
            terminal_socket: clone_option(&self.terminal_socket),
            trace_socket: clone_option(&self.trace_socket),
        }
    }
}

impl TargetSocketDirectory {
    pub fn empty() -> (directory: Self)
        ensures
            directory.manager_socket.is_none(),
            directory.router_socket.is_none(),
            directory.terminal_socket.is_none(),
            directory.trace_socket.is_none(),
    {
        Self { manager_socket: None, router_socket: None, terminal_socket: None, trace_socket: None }
    }
}

/// What the root is started with.
#[derive(Debug, PartialEq, Eq)]
pub struct IntrospectionRootInput {
    pub targets: TargetSocketDirectory,
    pub store: StoreLocation,
}

/// The directory of peer sockets the root consults.
#[derive(Debug)]
pub struct TargetDirectory {
    sockets: TargetSocketDirectory,
}

impl TargetDirectory {
    pub closed spec fn directory(&self) -> TargetSocketDirectory {
        self.sockets
    }

    pub fn new(sockets: TargetSocketDirectory) -> (directory: Self)
        ensures
            directory.directory() == sockets,
    {
        Self { sockets }
    }

    pub fn sockets(&self) -> (sockets: &TargetSocketDirectory)
        ensures
            *sockets == self.directory(),
    {
        &self.sockets
    }
}

/// The planner of fan-out queries; it counts what it planned.
#[derive(Debug)]
pub struct QueryPlanner {
    planned_queries: u64,
}

impl QueryPlanner {
    pub closed spec fn planned(&self) -> u64 {
        self.planned_queries
    }

    pub fn new() -> (planner: Self)
        ensures
            planner.planned() == 0,
    {
        Self { planned_queries: 0 }
    }

    pub fn planned_queries(&self) -> (planned: u64)
        ensures
            planned == self.planned(),
    {
        self.planned_queries
    }
}

impl Default for QueryPlanner {
    fn default() -> (planner: Self)
        ensures
            planner.planned() == 0,
    {
        Self::new()
    }
}

/// The engine-manager peer client: its socket, if configured.
#[derive(Debug)]
pub struct ManagerClient {
    socket: Option<String>,
}

impl ManagerClient {
    pub closed spec fn configured_socket(&self) -> Option<Seq<char>> {
        option_text(self.socket)
    }

    pub fn new(socket: Option<String>) -> (client: Self)
        ensures
            client.configured_socket() == option_text(socket),
    {
        Self { socket }
    }

    pub fn socket(&self) -> (socket: Option<&str>)
        ensures
            match socket {
                Some(text) => self.configured_socket() == Some(text@),
                None => self.configured_socket().is_none(),
            },
    {
        borrow_option(&self.socket)
    }
}

/// The router peer client: its socket, if configured.
#[derive(Debug)]
pub struct RouterClient {
    socket: Option<String>,
}

impl RouterClient {
    pub closed spec fn configured_socket(&self) -> Option<Seq<char>> {
        option_text(self.socket)
    }

    pub fn new(socket: Option<String>) -> (client: Self)
        ensures
            client.configured_socket() == option_text(socket),
    {
        Self { socket }
    }

    pub fn socket(&self) -> (socket: Option<&str>)
        ensures
            match socket {
                Some(text) => self.configured_socket() == Some(text@),
                None => self.configured_socket().is_none(),
            },
    {
        borrow_option(&self.socket)
    }

    /// How the router position of a witness is learned: settled as unseen,
    /// with no exchange, when no router socket is configured; otherwise by
    /// asking the router at its socket.
    pub fn summary_step(&self) -> (step: RouterStep)
        ensures
            router_step_for(self.configured_socket(), step),
    {
        match &self.socket {
            Some(socket) => RouterStep::Ask(socket.clone()),
            None => RouterStep::Settled(None),
        }
    }
}

/// What the router client does for one summary query.
#[derive(Debug, PartialEq, Eq)]
pub enum RouterStep {
    /// The router position is known without an exchange.
    Settled(Option<ComponentReadiness>),
    /// Ask the router at this socket.
    Ask(String),
}

/// The step for a configured router socket: unseen without an exchange when
/// there is none, an exchange with exactly that socket otherwise.
pub open spec fn router_step_for(configured: Option<Seq<char>>, step: RouterStep) -> bool {
    match configured {
        None => step == RouterStep::Settled(None),
        Some(socket) => step matches RouterStep::Ask(asked) && asked@ == socket,
    }
}

/// The terminal peer client: its socket, if configured.
#[derive(Debug)]
pub struct TerminalClient {
    socket: Option<String>,
}

impl TerminalClient {
    pub closed spec fn configured_socket(&self) -> Option<Seq<char>> {
        option_text(self.socket)
    }

    pub fn new(socket: Option<String>) -> (client: Self)
        ensures
            client.configured_socket() == option_text(socket),
    {
        Self { socket }
    }

    pub fn socket(&self) -> (socket: Option<&str>)
        ensures
            match socket {
                Some(text) => self.configured_socket() == Some(text@),
                None => self.configured_socket().is_none(),
            },
    {
        borrow_option(&self.socket)
    }
}

/// The datom projection plane: how many outputs it rendered.
#[derive(Debug)]
pub struct DatomProjection {
    rendered_outputs: u64,
}

impl DatomProjection {
    pub closed spec fn rendered(&self) -> u64 {
        self.rendered_outputs
    }

    pub fn new() -> (projection: Self)
        ensures
            projection.rendered() == 0,
    {
        Self { rendered_outputs: 0 }
    }

    pub fn rendered_outputs(&self) -> (rendered: u64)
        ensures
            rendered == self.rendered(),
    {
        self.rendered_outputs
    }
}

impl Default for DatomProjection {
    fn default() -> (projection: Self)
        ensures
            projection.rendered() == 0,
    {
        Self::new()
    }
}

// ---------------------------------------------------------------------------
// Root messages
// ---------------------------------------------------------------------------

/// Ask the root for one prototype witness.
#[derive(Debug)]
pub struct ExplainPrototypeWitness {
    pub query: PrototypeWitnessObservationQuery,
}

/// Ask the root to answer one working-socket query.
#[derive(Debug)]
pub struct HandleIntrospectionQuery {
    pub query: Query,
}

/// Ask the router client for the router's summary readiness of `engine`.
#[derive(Debug)]
pub struct QueryRouterSummary {
    pub engine: String,
}

// ---------------------------------------------------------------------------
// The root's decisions
// ---------------------------------------------------------------------------

/// What the root does to answer one query.
#[derive(Debug, PartialEq, Eq)]
pub enum RootStep {
    /// The answer needs nothing else.
    Respond(Response),
    ReadDeliveryTrace(DeliveryTraceObservationQuery),
    ReadComponentTrace(ComponentTraceQuery),
    RecordSystemEvent(SystemEvent),
    ReadSystemEvents(SystemEventsQuery),
    /// Flush a boot's windows, as an explicit flush.
    FlushSystemEvents(BootIdentifier),
    /// Ask the router client for the router's readiness for this engine.
    QueryRouterSummary(String),
}

/// What came back from the store or the router client.
#[derive(Debug, PartialEq, Eq)]
pub enum StepOutcome {
    DeliveryTrace(DeliveryTraceObservation),
    ComponentTrace(ComponentTrace),
    SystemEventAccepted(SystemEventAccepted),
    SystemEvents(SystemEvents),
    SystemEventsFlushed(SystemEventsFlushed),
    /// The router position of a prototype witness of `engine`.
    RouterReadiness { engine: String, readiness: Option<ComponentReadiness> },
}

/// The components an engine snapshot reports.
pub open spec fn snapshot_components() -> Seq<IntrospectionTarget> {
    seq![IntrospectionTarget::EngineManager, IntrospectionTarget::Router, IntrospectionTarget::Terminal]
}

/// Whether answering a query counts as one handled observation query.
pub open spec fn counted(query: Query) -> bool {
    !(query is RecordSystemEvent || query is FlushSystemEvents)
}

/// Whether the answer to a query is kept in the audit trail.
pub open spec fn audited(query: Query) -> bool {
    !(query is RecordSystemEvent)
}

/// The step that answers a query.
pub open spec fn step_for(query: Query, step: RootStep) -> bool {
    match query {
        Query::EngineSnapshotObservation(q) => step matches RootStep::Respond(
            Response::EngineSnapshotObservation(snapshot),
        ) && snapshot.engine_identifier == q.engine_identifier && snapshot.observed_components@
            == snapshot_components(),
        Query::ComponentSnapshotObservation(q) => step == RootStep::Respond(
            Response::ComponentSnapshotObservation(
                ComponentSnapshotObservation {
                    engine_identifier: q.engine_identifier,
                    introspection_target: q.introspection_target,
                    optional_component_readiness: None,
                },
            ),
        ),
        Query::DeliveryTraceObservation(q) => step == RootStep::ReadDeliveryTrace(q),
        Query::ComponentTrace(q) => step == RootStep::ReadComponentTrace(q),
        Query::RecordSystemEvent(r) => step == RootStep::RecordSystemEvent(r.system_event),
        Query::SystemEvents(q) => step == RootStep::ReadSystemEvents(q),
        Query::FlushSystemEvents(f) => step == RootStep::FlushSystemEvents(f.boot_identifier),
        Query::PrototypeWitnessObservation(q) => step == RootStep::QueryRouterSummary(q.engine_identifier),
    }
}

/// The reply composed from what came back.
pub open spec fn response_for(outcome: StepOutcome) -> Response {
    match outcome {
        StepOutcome::DeliveryTrace(trace) => Response::DeliveryTraceObservation(trace),
        StepOutcome::ComponentTrace(trace) => Response::ComponentTrace(trace),
        StepOutcome::SystemEventAccepted(accepted) => Response::SystemEventAccepted(accepted),
        StepOutcome::SystemEvents(events) => Response::SystemEvents(events),
        StepOutcome::SystemEventsFlushed(flushed) => Response::SystemEventsFlushed(flushed),
        StepOutcome::RouterReadiness { engine, readiness } => Response::PrototypeWitnessObservation(
            PrototypeWitnessObservation {
                engine_identifier: engine,
                first_optional_component_readiness: None,
                second_optional_component_readiness: readiness,
                third_optional_component_readiness: None,
                delivery_trace_observation_status_option: None,
            },
        ),
    }
}

/// The handled count after answering `query`: one more (saturating) for an
/// observation query, unchanged otherwise.
pub open spec fn next_handled(handled: u64, query: Query) -> u64 {
    if counted(query) {
        if handled == u64::MAX {
            u64::MAX
        } else {
            (handled + 1) as u64
        }
    } else {
        handled
    }
}

/// The handled count after answering `queries` in turn, from zero.
pub open spec fn handled_after(queries: Seq<Query>) -> u64
    decreases queries.len(),
{
    if queries.len() == 0 {
        0
    } else {
        next_handled(handled_after(queries.drop_last()), queries.last())
    }
}

/// How many of `queries` are observation queries.
pub open spec fn observation_queries(queries: Seq<Query>) -> nat
    decreases queries.len(),
{
    if queries.len() == 0 {
        0
    } else {
        observation_queries(queries.drop_last()) + if counted(queries.last()) {
            1nat
        } else {
            0nat
        }
    }
}

/// The root's own state: how many observation queries it has handled.
#[derive(Debug)]
pub struct IntrospectionRoot {
    handled_queries: u64,
}

impl IntrospectionRoot {
    pub closed spec fn handled(&self) -> u64 {
        self.handled_queries
    }

    pub fn new() -> (root: Self)
        ensures
            root.handled() == 0,
    {
        Self { handled_queries: 0 }
    }

    pub fn handled_queries(&self) -> (handled: u64)
        ensures
            handled == self.handled(),
    {
        self.handled_queries
    }

    /// Decide how to answer `query`, counting it when it is an observation
    /// query (every query except recording and flushing system events).
    pub fn plan(&mut self, query: Query) -> (step: RootStep)
        ensures
            step_for(query, step),
            final(self).handled() == next_handled(old(self).handled(), query),
    {
        match query {
            Query::EngineSnapshotObservation(query) => {
                self.count();
                let mut observed_components = Vec::new();
                observed_components.push(IntrospectionTarget::EngineManager);
                observed_components.push(IntrospectionTarget::Router);
                observed_components.push(IntrospectionTarget::Terminal);
                proof {
                    assert(observed_components@ =~= snapshot_components());
                }
                RootStep::Respond(
                    Response::EngineSnapshotObservation(
                        EngineSnapshotObservation {
                            engine_identifier: query.engine_identifier,
                            observed_components,
                        },
                    ),
                )
            },
            Query::ComponentSnapshotObservation(query) => {
                self.count();
                RootStep::Respond(
                    Response::ComponentSnapshotObservation(
                        ComponentSnapshotObservation {
                            engine_identifier: query.engine_identifier,
                            introspection_target: query.introspection_target,
                            optional_component_readiness: None,
                        },
                    ),
                )
            },
            Query::DeliveryTraceObservation(query) => {
                self.count();
                RootStep::ReadDeliveryTrace(query)
            },
            Query::ComponentTrace(query) => {
                self.count();
                RootStep::ReadComponentTrace(query)
            },
            Query::RecordSystemEvent(record) => RootStep::RecordSystemEvent(record.system_event),
            Query::SystemEvents(query) => {
                self.count();
                RootStep::ReadSystemEvents(query)
            },
            Query::FlushSystemEvents(flush) => RootStep::FlushSystemEvents(flush.boot_identifier),
            Query::PrototypeWitnessObservation(query) => {
                self.count();
                RootStep::QueryRouterSummary(query.engine_identifier)
            },
        }
    }

    fn count(&mut self)
        ensures
            final(self).handled() == if old(self).handled() == u64::MAX {
                u64::MAX
            } else {
                (old(self).handled() + 1) as u64
            },
    {
        self.handled_queries = self.handled_queries.saturating_add(1);
    }

    /// Compose the reply from what the store or router client returned.
    pub fn complete(outcome: StepOutcome) -> (response: Response)
        ensures
            response == response_for(outcome),
    {
        match outcome {
            StepOutcome::DeliveryTrace(trace) => Response::DeliveryTraceObservation(trace),
            StepOutcome::ComponentTrace(trace) => Response::ComponentTrace(trace),
            StepOutcome::SystemEventAccepted(accepted) => Response::SystemEventAccepted(accepted),
            StepOutcome::SystemEvents(events) => Response::SystemEvents(events),
            StepOutcome::SystemEventsFlushed(flushed) => Response::SystemEventsFlushed(flushed),
            StepOutcome::RouterReadiness { engine, readiness } => Response::PrototypeWitnessObservation(
                PrototypeWitnessObservation {
                    engine_identifier: engine,
                    first_optional_component_readiness: None,
                    second_optional_component_readiness: readiness,
                    third_optional_component_readiness: None,
                    delivery_trace_observation_status_option: None,
                },
            ),
        }
    }

    /// Whether the answer to `query` goes into the audit trail.
    pub fn should_record(query: &Query) -> (record: bool)
        ensures
            record == audited(*query),
    {
        match query {
            Query::RecordSystemEvent(_) => false,
            _ => true,
        }
    }

    /// The audit record of one answer, numbered by the queries handled so far.
    pub fn observation(&self, query: Query, response: Response) -> (stored: StoredObservation)
        ensures
            stored.observation_sequence().number() == self.handled(),
            stored.observed_query() == query,
            stored.observed_response() == response,
    {
        StoredObservation::new(ObservationSequence::new(self.handled_queries), query, response)
    }
}

// ---------------------------------------------------------------------------
// The router client's reading of a router reply
// ---------------------------------------------------------------------------

/// The router's summary of one engine, as far as readiness reads it.
#[derive(Debug, PartialEq, Eq)]
pub struct RouterSummary {
    pub engine: String,
}

/// What the router answered to one observation request.
#[derive(Debug, PartialEq, Eq)]
pub enum RouterOutput {
    Summary(RouterSummary),
    Unimplemented,
    /// Any other observation, as the router's text of it.
    Other { detail: String },
}

/// The head operation of an accepted router reply.
#[derive(Debug, PartialEq, Eq)]
pub enum RouterSubReply {
    Answered(RouterOutput),
    /// A per-operation failure, as the router's text of it.
    Failed { detail: String },
}

/// The body of one router observation frame.
#[derive(Debug, PartialEq, Eq)]
pub enum RouterFrameBody {
    Accepted { head: RouterSubReply },
    Rejected { reason: String },
    /// A frame that is not a reply, as its text.
    Other { detail: String },
}

/// The readiness the router reply witnesses for `expected_engine`.
pub open spec fn router_readiness(expected_engine: Seq<char>, frame: RouterFrameBody) -> Result<
    Option<ComponentReadiness>,
    Seq<char>,
> {
    match frame {
        RouterFrameBody::Accepted { head } => match head {
            RouterSubReply::Answered(RouterOutput::Summary(summary)) => if summary.engine@ == expected_engine {
                Ok(Some(ComponentReadiness::Ready))
            } else {
                Ok(Some(ComponentReadiness::NotReady))
            },
            RouterSubReply::Answered(RouterOutput::Unimplemented) => Ok(None),
            RouterSubReply::Answered(RouterOutput::Other { detail }) => Err(detail@),
            RouterSubReply::Failed { detail } => Err(detail@),
        },
        RouterFrameBody::Rejected { reason } => Err(reason@),
        RouterFrameBody::Other { detail } => Err(detail@),
    }
}

impl RouterClient {
    /// Read a router summary reply as the router's readiness: `Ready` when the
    /// summary is for the expected engine, `NotReady` when it is for another,
    /// unseen when the router has no summary yet, and an error otherwise.
    pub fn router_summary_readiness(expected_engine: &String, frame: RouterFrameBody) -> (readiness: Result<
        Option<ComponentReadiness>,
        Error,
    >)
        ensures
            match router_readiness(expected_engine@, frame) {
                Ok(seen) => readiness == Ok::<Option<ComponentReadiness>, Error>(seen),
                Err(text) => (readiness matches Err(Error::UnexpectedRouterObservationReply { got })
                    && got@ == text),
            },
    {
        match frame {
            RouterFrameBody::Accepted { head } => match head {
                RouterSubReply::Answered(RouterOutput::Summary(summary)) => {
                    if summary.engine == *expected_engine {
                        Ok(Some(ComponentReadiness::Ready))
                    } else {
                        Ok(Some(ComponentReadiness::NotReady))
                    }
                },
                RouterSubReply::Answered(RouterOutput::Unimplemented) => Ok(None),
                RouterSubReply::Answered(RouterOutput::Other { detail }) => Err(
                    Error::UnexpectedRouterObservationReply { got: detail },
                ),
                RouterSubReply::Failed { detail } => Err(
                    Error::UnexpectedRouterObservationReply { got: detail },
                ),
            },
            RouterFrameBody::Rejected { reason } => Err(
                Error::UnexpectedRouterObservationReply { got: reason },
            ),
            RouterFrameBody::Other { detail } => Err(
                Error::UnexpectedRouterObservationReply { got: detail },
            ),
        }
    }
}

// ---------------------------------------------------------------------------
// Length-prefixed frames
// ---------------------------------------------------------------------------

/// The big-endian value of a four-byte length prefix.
pub open spec fn big_endian(prefix: [u8; 4]) -> int {
    prefix[0] as int * 0x100_0000 + prefix[1] as int * 0x1_0000 + prefix[2] as int * 0x100
        + prefix[3] as int
}

/// The length a four-byte big-endian prefix announces.
pub fn prefix_length(prefix: [u8; 4]) -> (length: u32)
    ensures
        length == big_endian(prefix),
{
    (prefix[0] as u32) * 0x100_0000 + (prefix[1] as u32) * 0x1_0000 + (prefix[2] as u32) * 0x100
        + (prefix[3] as u32)
}

/// The router client's frame reader bound.
#[derive(Debug, Clone, Copy, PartialEq, Eq)]
pub struct RouterClientFrameCodec {
    maximum_frame_bytes: usize,
}

pub const DEFAULT_ROUTER_FRAME_BYTES: usize = 1_048_576;

impl RouterClientFrameCodec {
    pub closed spec fn maximum(self) -> usize {
        self.maximum_frame_bytes
    }

    pub fn new(maximum_frame_bytes: usize) -> (codec: Self)
        ensures
            codec.maximum() == maximum_frame_bytes,
    {
        Self { maximum_frame_bytes }
    }

    /// The body length a prefix announces, or the refusal of a frame larger
    /// than the bound.
    pub fn admitted_length(&self, prefix: [u8; 4]) -> (admitted: Result<usize, Error>)
        ensures
            big_endian(prefix) <= self.maximum() ==> admitted == Ok::<usize, Error>(
                big_endian(prefix) as usize,
            ),
            big_endian(prefix) > self.maximum() ==> (admitted matches Err(
                Error::UnexpectedSignalFrame { got },
            ) && got@ == "router frame exceeds "@ + decimal(self.maximum() as int) + " bytes"@),
    {
        let length = prefix_length(prefix) as usize;
        if length > self.maximum_frame_bytes {
            let mut got = String::from_str("router frame exceeds ");
            let bound = unsigned_decimal_text(self.maximum_frame_bytes as u64);
            got.append(bound.as_str());
            got.append(" bytes");
            return Err(Error::UnexpectedSignalFrame { got });
        }
        Ok(length)
    }
}

impl Default for RouterClientFrameCodec {
    fn default() -> (codec: Self)
        ensures
            codec.maximum() == DEFAULT_ROUTER_FRAME_BYTES,
    {
        Self::new(DEFAULT_ROUTER_FRAME_BYTES)
    }
}

// ---------------------------------------------------------------------------
// Laws
// ---------------------------------------------------------------------------

/// A prototype witness reports the router position it was given for its
/// engine and leaves the manager, terminal and delivery positions unseen.
pub proof fn law_witness_reports_only_the_router_position(
    engine: String,
    readiness: Option<ComponentReadiness>,
)
    ensures
        (response_for(StepOutcome::RouterReadiness { engine, readiness }) matches Response::PrototypeWitnessObservation(w)
            && w.engine_identifier == engine && w.second_optional_component_readiness == readiness
            && w.first_optional_component_readiness is None && w.third_optional_component_readiness is None
            && w.delivery_trace_observation_status_option is None),
{
}

/// A router summary for the expected engine witnesses readiness, and a
/// summary for any other engine witnesses that the router is not ready.
pub proof fn law_router_readiness_follows_the_engine(expected: Seq<char>, summary: RouterSummary)
    ensures
        router_readiness(expected, RouterFrameBody::Accepted { head: RouterSubReply::Answered(RouterOutput::Summary(summary)) })
            == if summary.engine@ == expected {
            Ok::<Option<ComponentReadiness>, Seq<char>>(Some(ComponentReadiness::Ready))
        } else {
            Ok::<Option<ComponentReadiness>, Seq<char>>(Some(ComponentReadiness::NotReady))
        },
{
}

/// The audit trail numbers answers by observation queries: after a run of
/// queries from a fresh root, the handled count — the sequence the next
/// answer is recorded under — is the number of observation queries among
/// them, while that number fits.
pub proof fn law_audit_sequence_counts_observation_queries(queries: Seq<Query>)
    requires
        observation_queries(queries) < u64::MAX,
    ensures
        handled_after(queries) == observation_queries(queries),
    decreases queries.len(),
{
    if queries.len() > 0 {
        law_audit_sequence_counts_observation_queries(queries.drop_last());
    }
}

/// With no router socket configured, a prototype witness reports every
/// position unseen: the root asks the router client for the engine's
/// readiness, the client settles it as unseen without any exchange, and the
/// reply composed from that leaves every position unseen.
pub proof fn law_unconfigured_router_leaves_the_witness_unseen(
    client: RouterClient,
    query: PrototypeWitnessObservationQuery,
    step: RootStep,
    router_step: RouterStep,
)
    requires
        client.configured_socket() is None,
        step_for(Query::PrototypeWitnessObservation(query), step),
        router_step_for(client.configured_socket(), router_step),
    ensures
        step == RootStep::QueryRouterSummary(query.engine_identifier),
        router_step == RouterStep::Settled(None),
        response_for(StepOutcome::RouterReadiness { engine: query.engine_identifier, readiness: None })
            == Response::PrototypeWitnessObservation(
            PrototypeWitnessObservation {
                engine_identifier: query.engine_identifier,
                first_optional_component_readiness: None,
                second_optional_component_readiness: None,
                third_optional_component_readiness: None,
                delivery_trace_observation_status_option: None,
            },
        ),
{
}

/// Every observation query is counted: planning any query other than
/// recording or flushing system events — a component-trace query included —
/// raises the handled count by one (saturating), and planning those two
/// leaves it as it was.
pub proof fn law_observation_queries_are_counted(handled: u64, query: Query)
    ensures
        !(query is RecordSystemEvent) && !(query is FlushSystemEvents) ==> next_handled(handled, query)
            == if handled == u64::MAX {
            u64::MAX
        } else {
            (handled + 1) as u64
        },
        query is RecordSystemEvent || query is FlushSystemEvents ==> next_handled(handled, query)
            == handled,
{
}

} // verus!
