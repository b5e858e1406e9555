//! The daemon's reading of its startup configuration and its meta-plane
//! policy.
//!
//! The working socket is the introspection-query socket; the meta socket is
//! the owner-only configuration socket, which admits every meta query and
//! answers that live reconfiguration is not built yet.
use vstd::prelude::*;

use crate::runtime::{TargetSocketDirectory, option_text};
use crate::store::StoreLocation;
use crate::wire::{
    IntrospectDaemonConfiguration, MetaIntrospectOperationKind, MetaIntrospectQuery,
    MetaIntrospectResponse, RequestUnimplemented, UnimplementedReason,
};

verus! {

/// How many working-socket requests the daemon serves at once.
pub const MAXIMUM_CONCURRENT_REQUESTS: usize = 64;

/// The component daemon itself: it carries no runtime data.
#[derive(Debug)]
pub struct IntrospectionDaemon;

/// A configured peer path, where the empty path means "no peer".
pub open spec fn peer_of(path: Seq<char>) -> Option<Seq<char>> {
    if path.len() == 0 {
        None
    } else {
        Some(path)
    }
}

/// An empty wire path means no peer is configured; a non-empty path is the
/// peer's live socket.
pub fn peer_socket(path: &String) -> (peer: Option<String>)
    ensures
        option_text(peer) == peer_of(path@),
{
    let text = path.as_str();
    if text.is_empty() {
        None
    } else {
        Some(path.clone())
    }
}

/// The daemon's binary startup configuration, read as the binding surface
/// the daemon shell drives.
#[derive(Debug, PartialEq, Eq)]
pub struct IntrospectionDaemonConfiguration {
    configuration: IntrospectDaemonConfiguration,
}

impl IntrospectionDaemonConfiguration {
    pub closed spec fn record(&self) -> IntrospectDaemonConfiguration {
        self.configuration
    }

    pub fn new(configuration: IntrospectDaemonConfiguration) -> (wrapped: Self)
        ensures
            wrapped.record() == configuration,
    {
        Self { configuration }
    }

    pub fn into_inner(self) -> (configuration: IntrospectDaemonConfiguration)
        ensures
            configuration == self.record(),
    {
        self.configuration
    }

    /// The peer sockets: each configured path, an empty one meaning none.
    pub fn targets(&self) -> (targets: TargetSocketDirectory)
        ensures
            option_text(targets.manager_socket) == peer_of(self.record().manager_socket_path@),
            option_text(targets.router_socket) == peer_of(self.record().router_socket_path@),
            option_text(targets.terminal_socket) == peer_of(self.record().terminal_socket_path@),
            option_text(targets.trace_socket) == peer_of(self.record().trace_socket_path@),
    {
        TargetSocketDirectory {
            manager_socket: peer_socket(&self.configuration.manager_socket_path),
            router_socket: peer_socket(&self.configuration.router_socket_path),
            terminal_socket: peer_socket(&self.configuration.terminal_socket_path),
            trace_socket: peer_socket(&self.configuration.trace_socket_path),
        }
    }

    /// Where the daemon's own store lives.
    pub fn store(&self) -> (store: StoreLocation)
        ensures
            store.location() == self.record().store_path@,
    {
        StoreLocation::new(self.configuration.store_path.clone())
    }

    pub fn socket_path(&self) -> (path: &str)
        ensures
            path@ == self.record().introspect_socket_path@,
    {
        self.configuration.introspect_socket_path.as_str()
    }

    pub fn socket_mode(&self) -> (mode: Option<u32>)
        ensures
            mode == Some(self.record().introspect_socket_mode),
    {
        Some(self.configuration.introspect_socket_mode)
    }

    pub fn request_concurrency_limit(&self) -> (limit: usize)
        ensures
            limit == MAXIMUM_CONCURRENT_REQUESTS,
    {
        MAXIMUM_CONCURRENT_REQUESTS
    }

    pub fn meta_socket_path(&self) -> (path: Option<&str>)
        ensures
            path matches Some(text) && text@ == self.record().supervision_socket_path@,
    {
        Some(self.configuration.supervision_socket_path.as_str())
    }

    pub fn meta_socket_mode(&self) -> (mode: Option<u32>)
        ensures
            mode == Some(self.record().supervision_socket_mode),
    {
        Some(self.configuration.supervision_socket_mode)
    }

    pub fn database_path(&self) -> (path: &str)
        ensures
            path@ == self.record().store_path@,
    {
        self.configuration.store_path.as_str()
    }
}

/// Which meta operation a meta query names.
pub open spec fn operation_of(query: MetaIntrospectQuery) -> MetaIntrospectOperationKind {
    match query {
        MetaIntrospectQuery::Configure(_) => MetaIntrospectOperationKind::Configure,
    }
}

/// Which meta operation a restored meta query names.
pub fn meta_operation_kind(query: &MetaIntrospectQuery) -> (kind: MetaIntrospectOperationKind)
    ensures
        kind == operation_of(*query),
{
    match query {
        MetaIntrospectQuery::Configure(_) => MetaIntrospectOperationKind::Configure,
    }
}

/// The meta socket's answer: every operation is admitted and answered as not
/// built yet, naming the operation asked for.
pub fn meta_response(query: &MetaIntrospectQuery) -> (response: MetaIntrospectResponse)
    ensures
        response == MetaIntrospectResponse::RequestUnimplemented(
            RequestUnimplemented {
                meta_introspect_operation_kind: operation_of(*query),
                unimplemented_reason: UnimplementedReason::NotBuiltYet,
            },
        ),
{
    MetaIntrospectResponse::RequestUnimplemented(
        RequestUnimplemented {
            meta_introspect_operation_kind: meta_operation_kind(query),
            unimplemented_reason: UnimplementedReason::NotBuiltYet,
        },
    )
}

/// The client of the introspection-query socket: the socket it speaks to.
#[derive(Debug, PartialEq, Eq)]
pub struct IntrospectionSignalClient {
    socket: String,
}

impl IntrospectionSignalClient {
    pub closed spec fn endpoint(&self) -> Seq<char> {
        self.socket@
    }

    pub fn new(socket: String) -> (client: Self)
        ensures
            client.endpoint() == socket@,
    {
        Self { socket }
    }

    pub fn socket(&self) -> (socket: &str)
        ensures
            socket@ == self.endpoint(),
    {
        self.socket.as_str()
    }
}

} // verus!
