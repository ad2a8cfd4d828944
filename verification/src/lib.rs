//! One peer's runtime in a ring-structured overlay network: the registry of
//! in-flight operations, keyed by transaction, and the in-memory transport
//! that carries their messages between peers of one process.

pub mod conn_manager;
pub mod message;
pub mod node;
pub mod operations;
pub mod ring;
