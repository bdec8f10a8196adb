//! Core of a minimal command-and-control node: a registry of connected
//! agents with their per-agent command queues, the per-connection relay
//! logic that classifies socket reads and tags responses, and the
//! dispatcher step that prunes disconnected agents and broadcasts
//! operator commands.

pub mod message;
pub mod registry;
pub mod relay;
pub mod listener;
pub mod dispatcher;
