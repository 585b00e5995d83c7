//! In-process relay for structured logs and introspection events.
//!
//! Producers log through a logger or report events on the server; each
//! record is queued on one of three channels, from which streaming adapters
//! hand it to connected clients.

mod channel;

pub mod console_logger;
pub mod events;
pub mod grpc_logger;
pub mod grpc_server;
pub mod logging;
pub mod schema;
pub mod streaming;
pub mod time;
