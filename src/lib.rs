//! Telemetry collection for a packaging machine's PLC: the wire protocol,
//! response parsing, state-aware aggregation into records, batching, and the
//! decisions of the polling and reconnection loops.

pub mod chunk;
pub mod clock;
pub mod config;
pub mod engine;
pub mod fields;
pub mod point;
pub mod poller;
pub mod protocol;
pub mod record;
pub mod response;
pub mod status;
pub mod supervisor;
