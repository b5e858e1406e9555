//! The failures introspect's own logic reports.
use vstd::prelude::*;

verus! {

#[derive(Debug, PartialEq, Eq)]
pub enum Error {
    /// An argument introspect refuses, with the reason.
    UnexpectedArgument { got: String },
    /// A frame that is not what the exchange expects.
    UnexpectedSignalFrame { got: String },
    /// A router observation reply introspect cannot read as readiness.
    UnexpectedRouterObservationReply { got: String },
    /// An actor operation that failed in transport.
    Actor { operation: String, detail: String },
    /// The component-trace socket could not ingest.
    TraceIngestion { detail: String },
    /// A datom text read or write fault.
    DatomText { detail: String },
    /// A Signal frame that failed to form or to restore.
    SignalArchive { detail: String },
}

} // verus!
