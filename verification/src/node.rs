//! State that belongs to the local peer.

pub mod op_state;
