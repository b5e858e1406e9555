//! The working CLI's environment: which introspection socket it speaks to.
use vstd::prelude::*;

verus! {

pub const DEFAULT_INTROSPECT_SOCKET: &'static str = "/tmp/introspect.sock";

/// The working CLI's environment: the socket it was pointed at.
#[derive(Debug, PartialEq, Eq)]
pub struct IntrospectCommandEnvironment {
    socket: String,
}

impl IntrospectCommandEnvironment {
    pub closed spec fn socket_setting(&self) -> Seq<char> {
        self.socket@
    }

    pub fn new(socket: String) -> (environment: Self)
        ensures
            environment.socket_setting() == socket@,
    {
        Self { socket }
    }

    /// The environment for a socket setting, the default socket when unset.
    pub fn from_setting(setting: Option<String>) -> (environment: Self)
        ensures
            environment.socket_setting() == match setting {
                Some(socket) => socket@,
                None => DEFAULT_INTROSPECT_SOCKET@,
            },
    {
        match setting {
            Some(socket) => Self::new(socket),
            None => Self::new(String::from_str(DEFAULT_INTROSPECT_SOCKET)),
        }
    }

    /// The socket path the CLI connects to.
    pub fn endpoint(&self) -> (endpoint: String)
        ensures
            endpoint@ == self.socket_setting(),
    {
        self.socket.clone()
    }
}

} // verus!
