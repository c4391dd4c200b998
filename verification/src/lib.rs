//! A verified core for an event-point service: the SQL it sends to
//! PostgreSQL, the decisions of its websocket and gRPC handlers, and the
//! configuration and event types they share.

pub mod text;
pub mod sql;
pub mod pg;
pub mod connect;
pub mod message;
pub mod session;
pub mod websocket;
pub mod grpc;
pub mod client;
