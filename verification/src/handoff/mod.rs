//! The handoff of a catalogue between two processes: an agent that holds it open, and an app that
//! may write to it only once the agent has let go.
pub mod agent;
pub mod command;
pub mod orchestrator;
pub mod progress;
pub mod statements;
pub mod writer;
