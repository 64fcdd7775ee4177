//! Verified core of a gRPC bridge to Zenoh: configuration of the listening
//! endpoints, request argument records, wire codes of the protocol enums,
//! the server's handle registry, the client's connection bookkeeping and the
//! bounded drop-oldest queues that sit between producers and consumers.

pub mod text;
pub mod config;
pub mod args;
pub mod queue;
pub mod wire;
pub mod native;
pub mod registry;
pub mod status;
pub mod connect;
pub mod client;
pub mod messages;
pub mod server;
