//! Core of the photo catalogue: serialized access to its database connection, the handoff of the
//! catalogue between two processes, and the driver that exercises the focus-analysis writeback.
pub mod catalogue;
pub mod handoff;
pub mod repro;
pub mod text;
