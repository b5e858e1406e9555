//! The owner-only meta plane's client side: where the meta socket is.
use vstd::prelude::*;

verus! {

pub const DEFAULT_META_INTROSPECT_SOCKET: &'static str = "/tmp/meta-introspect.sock";

/// The owner-only meta socket a client speaks to.
#[derive(Debug, PartialEq, Eq)]
pub struct MetaIntrospectEndpoint {
    socket: String,
}

impl MetaIntrospectEndpoint {
    pub closed spec fn path(&self) -> Seq<char> {
        self.socket@
    }

    pub fn new(socket: String) -> (endpoint: Self)
        ensures
            endpoint.path() == socket@,
    {
        Self { socket }
    }

    pub fn as_path(&self) -> (path: &str)
        ensures
            path@ == self.path(),
    {
        self.socket.as_str()
    }
}

/// The meta CLI's environment: the meta socket it was pointed at.
#[derive(Debug, PartialEq, Eq)]
pub struct MetaIntrospectCommandEnvironment {
    socket: String,
}

impl MetaIntrospectCommandEnvironment {
    pub closed spec fn socket_setting(&self) -> Seq<char> {
        self.socket@
    }

    pub fn new(socket: String) -> (environment: Self)
        ensures
            environment.socket_setting() == socket@,
    {
        Self { socket }
    }

    /// The environment for a socket setting, the default socket when unset.
    pub fn from_setting(setting: Option<String>) -> (environment: Self)
        ensures
            environment.socket_setting() == match setting {
                Some(socket) => socket@,
                None => DEFAULT_META_INTROSPECT_SOCKET@,
            },
    {
        match setting {
            Some(socket) => Self::new(socket),
            None => Self::new(String::from_str(DEFAULT_META_INTROSPECT_SOCKET)),
        }
    }

    pub fn endpoint(&self) -> (endpoint: MetaIntrospectEndpoint)
        ensures
            endpoint.path() == self.socket_setting(),
    {
        MetaIntrospectEndpoint::new(self.socket.clone())
    }
}

} // verus!
