//! The owner-only engine-management relation: announce, readiness, health
//! and stop, and the client-side reading of a supervision reply frame.
use vstd::prelude::*;

use crate::error::Error;
use crate::key_text::{decimal, unsigned_decimal_text};
use crate::runtime::{big_endian, prefix_length};

verus! {

/// A component's name in the engine.
#[derive(Debug, PartialEq, Eq)]
pub struct ComponentName(pub String);

impl Clone for ComponentName {
    fn clone(&self) -> (r: Self)
        ensures
            r == *self,
    {
        ComponentName(self.0.clone())
    }
}

#[derive(Debug, Clone, Copy, PartialEq, Eq, Structural, Hash)]
pub enum ComponentKind {
    Manager,
    Router,
    Terminal,
    Introspect,
}

#[derive(Debug, Clone, Copy, PartialEq, Eq, Structural, Hash)]
pub enum ComponentHealth {
    Starting,
    Running,
    Degraded,
    Stopping,
}

#[derive(Debug, Clone, Copy, PartialEq, Eq, Structural, Hash)]
pub struct EngineManagementProtocolVersion(pub u32);

/// A supervisor announcing itself.
#[derive(Debug, Clone, Copy, PartialEq, Eq, Structural)]
pub struct Presence {
    pub supervisor_generation: u64,
}

#[derive(Debug, Clone, Copy, PartialEq, Eq, Structural)]
pub struct ReadinessStatusQuery;

#[derive(Debug, Clone, Copy, PartialEq, Eq, Structural)]
pub struct HealthStatusQuery;

#[derive(Debug, Clone, Copy, PartialEq, Eq, Structural)]
pub enum SupervisionQuery {
    ReadinessStatus(ReadinessStatusQuery),
    HealthStatus(HealthStatusQuery),
}

#[derive(Debug, Clone, Copy, PartialEq, Eq, Structural)]
pub struct StopRequest {
    pub drain_deadline_microseconds: i64,
}

/// One supervision request.
#[derive(Debug, Clone, Copy, PartialEq, Eq, Structural)]
pub enum SupervisionRequest {
    Announce(Presence),
    Query(SupervisionQuery),
    Stop(StopRequest),
}

#[derive(Debug, PartialEq, Eq)]
pub struct ComponentIdentity {
    pub name: ComponentName,
    pub kind: ComponentKind,
    pub engine_management_protocol_version: EngineManagementProtocolVersion,
    pub last_fatal_startup_error: Option<String>,
}

#[derive(Debug, Clone, Copy, PartialEq, Eq, Structural)]
pub struct ComponentReady {
    pub component_started_at: Option<i64>,
}

#[derive(Debug, Clone, Copy, PartialEq, Eq, Structural)]
pub struct ComponentHealthReport {
    pub health: ComponentHealth,
}

#[derive(Debug, Clone, Copy, PartialEq, Eq, Structural)]
pub struct StopAcknowledgement {
    pub drain_completed_at: Option<i64>,
}

/// One supervision reply.
#[derive(Debug, PartialEq, Eq)]
pub enum SupervisionReply {
    Identified(ComponentIdentity),
    Ready(ComponentReady),
    HealthReport(ComponentHealthReport),
    StopAcknowledged(StopAcknowledgement),
}

/// Who this component says it is to its supervisor.
#[derive(Debug, PartialEq, Eq)]
pub struct SupervisionProfile {
    name: ComponentName,
    kind: ComponentKind,
    health: ComponentHealth,
}

impl Clone for SupervisionProfile {
    fn clone(&self) -> (r: Self)
        ensures
            r == *self,
    {
        SupervisionProfile { name: self.name.clone(), kind: self.kind, health: self.health }
    }
}

impl SupervisionProfile {
    pub closed spec fn profile_name(&self) -> Seq<char> {
        self.name.0@
    }

    pub closed spec fn profile_kind(&self) -> ComponentKind {
        self.kind
    }

    pub closed spec fn profile_health(&self) -> ComponentHealth {
        self.health
    }

    /// Introspect's own profile: named `introspect`, of kind `Introspect`,
    /// running.
    pub fn introspect() -> (profile: Self)
        ensures
            profile.profile_name() == "introspect"@,
            profile.profile_kind() == ComponentKind::Introspect,
            profile.profile_health() == ComponentHealth::Running,
    {
        Self {
            name: ComponentName(String::from_str("introspect")),
            kind: ComponentKind::Introspect,
            health: ComponentHealth::Running,
        }
    }
}

/// The supervision relation's state: the profile it reports and how many
/// requests it answered.
#[derive(Debug)]
pub struct SupervisionPhase {
    profile: SupervisionProfile,
    request_count: u64,
}

/// What a supervision request is answered with, for a profile.
pub open spec fn supervision_answer(
    name: Seq<char>,
    kind: ComponentKind,
    health: ComponentHealth,
    request: SupervisionRequest,
    reply: SupervisionReply,
) -> bool {
    match request {
        SupervisionRequest::Announce(_) => reply matches SupervisionReply::Identified(identity)
            && identity.name.0@ == name && identity.kind == kind
            && identity.engine_management_protocol_version == EngineManagementProtocolVersion(1)
            && identity.last_fatal_startup_error is None,
        SupervisionRequest::Query(SupervisionQuery::ReadinessStatus(_)) => reply == SupervisionReply::Ready(
            ComponentReady { component_started_at: None },
        ),
        SupervisionRequest::Query(SupervisionQuery::HealthStatus(_)) => reply
            == SupervisionReply::HealthReport(ComponentHealthReport { health }),
        SupervisionRequest::Stop(_) => reply == SupervisionReply::StopAcknowledged(
            StopAcknowledgement { drain_completed_at: None },
        ),
    }
}

impl SupervisionPhase {
    pub closed spec fn phase_profile(&self) -> SupervisionProfile {
        self.profile
    }

    pub closed spec fn requests(&self) -> u64 {
        self.request_count
    }

    pub fn new(profile: SupervisionProfile) -> (phase: Self)
        ensures
            phase.phase_profile() == profile,
            phase.requests() == 0,
    {
        Self { profile, request_count: 0 }
    }

    /// Answer one supervision request from the profile, counting it.
    pub fn reply(&mut self, request: SupervisionRequest) -> (reply: SupervisionReply)
        ensures
            final(self).phase_profile() == old(self).phase_profile(),
            final(self).requests() == if old(self).requests() == u64::MAX {
                u64::MAX
            } else {
                (old(self).requests() + 1) as u64
            },
            supervision_answer(
                old(self).phase_profile().profile_name(),
                old(self).phase_profile().profile_kind(),
                old(self).phase_profile().profile_health(),
                request,
                reply,
            ),
    {
        self.request_count = self.request_count.saturating_add(1);
        match request {
            SupervisionRequest::Announce(_) => SupervisionReply::Identified(
                ComponentIdentity {
                    name: self.profile.name.clone(),
                    kind: self.profile.kind,
                    engine_management_protocol_version: EngineManagementProtocolVersion(1),
                    last_fatal_startup_error: None,
                },
            ),
            SupervisionRequest::Query(SupervisionQuery::ReadinessStatus(_)) => SupervisionReply::Ready(
                ComponentReady { component_started_at: None },
            ),
            SupervisionRequest::Query(SupervisionQuery::HealthStatus(_)) => SupervisionReply::HealthReport(
                ComponentHealthReport { health: self.profile.health },
            ),
            SupervisionRequest::Stop(_) => SupervisionReply::StopAcknowledged(
                StopAcknowledgement { drain_completed_at: None },
            ),
        }
    }
}

/// The reply of one handled supervision request.
#[derive(Debug)]
pub struct SupervisionPhaseReply {
    reply: SupervisionReply,
}

impl SupervisionPhaseReply {
    pub closed spec fn carried(&self) -> SupervisionReply {
        self.reply
    }

    pub fn new(reply: SupervisionReply) -> (phase_reply: Self)
        ensures
            phase_reply.carried() == reply,
    {
        Self { reply }
    }

    pub fn into_reply(self) -> (reply: SupervisionReply)
        ensures
            reply == self.carried(),
    {
        self.reply
    }
}

/// Ask the supervision phase to answer one request.
#[derive(Debug)]
pub struct HandleSupervisionRequest {
    request: SupervisionRequest,
}

impl HandleSupervisionRequest {
    pub closed spec fn carried(&self) -> SupervisionRequest {
        self.request
    }

    pub fn new(request: SupervisionRequest) -> (message: Self)
        ensures
            message.carried() == request,
    {
        Self { request }
    }

    pub fn request(&self) -> (request: SupervisionRequest)
        ensures
            request == self.carried(),
    {
        self.request
    }
}

/// One operation's answer inside an accepted supervision reply.
#[derive(Debug, PartialEq, Eq)]
pub enum SupervisionSubReply {
    Answered(SupervisionReply),
    /// A per-operation failure, as its text.
    Failed { detail: String },
}

/// The body of one supervision frame.
#[derive(Debug, PartialEq, Eq)]
pub enum SupervisionFrameBody {
    Accepted { per_operation: Vec<SupervisionSubReply> },
    Rejected { reason: String },
    /// A frame that is not a reply, as its text.
    Other { detail: String },
}

pub const DEFAULT_SUPERVISION_FRAME_BYTES: usize = 1_048_576;

/// The supervision frame codec of the client side.
#[derive(Debug, Clone, Copy, PartialEq, Eq)]
pub struct SupervisionFrameCodec {
    maximum_frame_bytes: usize,
}

/// The text of a refusal: the reply carried more than one operation.
pub open spec fn operation_count_text(count: int) -> Seq<char> {
    "expected one supervision reply operation, got "@ + decimal(count)
}

/// The text of a refusal: the frame was not a reply at all.
pub open spec fn unexpected_body_text(detail: Seq<char>) -> Seq<char> {
    "unexpected supervision frame body: "@ + detail
}

impl SupervisionFrameCodec {
    pub closed spec fn maximum(self) -> usize {
        self.maximum_frame_bytes
    }

    pub fn new(maximum_frame_bytes: usize) -> (codec: Self)
        ensures
            codec.maximum() == maximum_frame_bytes,
    {
        Self { maximum_frame_bytes }
    }

    /// The refusal carrying a reason, as the codec reports it.
    pub fn invalid_data(reason: String) -> (error: Error)
        ensures
            error == (Error::UnexpectedSignalFrame { got: reason }),
    {
        Error::UnexpectedSignalFrame { got: reason }
    }

    /// The body length a prefix announces, or the refusal of a frame larger
    /// than the bound.
    pub fn admitted_length(&self, prefix: [u8; 4]) -> (admitted: Result<usize, Error>)
        ensures
            big_endian(prefix) <= self.maximum() ==> admitted == Ok::<usize, Error>(
                big_endian(prefix) as usize,
            ),
            big_endian(prefix) > self.maximum() ==> (admitted matches Err(
                Error::UnexpectedSignalFrame { got },
            ) && got@ == "supervision frame length "@ + decimal(big_endian(prefix)) + " exceeds maximum"@),
    {
        let length = prefix_length(prefix);
        if length as usize > self.maximum_frame_bytes {
            let mut got = String::from_str("supervision frame length ");
            let announced = unsigned_decimal_text(length as u64);
            got.append(announced.as_str());
            got.append(" exceeds maximum");
            return Err(Self::invalid_data(got));
        }
        Ok(length as usize)
    }

    /// Read one supervision reply frame as the single reply it must carry.
    pub fn read_reply(&self, body: SupervisionFrameBody) -> (reply: Result<SupervisionReply, Error>)
        ensures
            match body {
                SupervisionFrameBody::Accepted { per_operation } => if per_operation@.len() != 1 {
                    reply matches Err(Error::UnexpectedSignalFrame { got }) && got@ == operation_count_text(
                        per_operation@.len() as int,
                    )
                } else {
                    match per_operation@[0] {
                        SupervisionSubReply::Answered(payload) => reply == Ok::<SupervisionReply, Error>(payload),
                        SupervisionSubReply::Failed { detail } => reply == Err::<SupervisionReply, Error>(
                            Error::UnexpectedSignalFrame { got: detail },
                        ),
                    }
                },
                SupervisionFrameBody::Rejected { reason } => reply == Err::<SupervisionReply, Error>(
                    Error::UnexpectedSignalFrame { got: reason },
                ),
                SupervisionFrameBody::Other { detail } => reply matches Err(Error::UnexpectedSignalFrame { got })
                    && got@ == unexpected_body_text(detail@),
            },
    {
        match body {
            SupervisionFrameBody::Accepted { per_operation } => {
                let mut per_operation = per_operation;
                if per_operation.len() != 1 {
                    let mut got = String::from_str("expected one supervision reply operation, got ");
                    let count = unsigned_decimal_text(per_operation.len() as u64);
                    got.append(count.as_str());
                    return Err(Self::invalid_data(got));
                }
                match per_operation.remove(0) {
                    SupervisionSubReply::Answered(payload) => Ok(payload),
                    SupervisionSubReply::Failed { detail } => Err(Self::invalid_data(detail)),
                }
            },
            SupervisionFrameBody::Rejected { reason } => Err(Self::invalid_data(reason)),
            SupervisionFrameBody::Other { detail } => {
                let mut got = String::from_str("unexpected supervision frame body: ");
                got.append(detail.as_str());
                Err(Self::invalid_data(got))
            },
        }
    }
}

impl Default for SupervisionFrameCodec {
    fn default() -> (codec: Self)
        ensures
            codec.maximum() == DEFAULT_SUPERVISION_FRAME_BYTES,
    {
        Self::new(DEFAULT_SUPERVISION_FRAME_BYTES)
    }
}

/// Every supervision request is answered, and a stop is always acknowledged:
/// the relation never refuses its supervisor.
pub proof fn law_stop_is_always_acknowledged(
    name: Seq<char>,
    kind: ComponentKind,
    health: ComponentHealth,
    stop: StopRequest,
    reply: SupervisionReply,
)
    requires
        supervision_answer(name, kind, health, SupervisionRequest::Stop(stop), reply),
    ensures
        reply is StopAcknowledged,
{
}

} // verus!
