//! The inspection-plane component of the engine: the typed observations it
//! answers, the system events it admits and coalesces, the traces it keeps,
//! and the decisions its daemon, store and clients take.
pub mod contract;
pub mod wire;
pub mod coalescer;
pub mod ordering;
pub mod key_text;
pub mod store_record;
pub mod error;
pub mod store;
pub mod runtime;
pub mod supervision;
pub mod cli_argument;
pub mod command;
pub mod daemon;
pub mod datom_text;
pub mod meta;
pub mod trace_frame;
pub mod store_message;
