//! The first OODA chain: a single agent that turns the context into a chat
//! history, stopping at the first entry the history cannot hold.

/// Agents of the chain
pub mod agents;
