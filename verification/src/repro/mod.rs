//! The driver that replays the focus-analysis writeback against a copy of a catalogue, with the
//! values, the settings and the queue that it runs on.
pub mod cadence;
pub mod candidates;
pub mod driver;
pub mod engine;
pub mod forensics;
pub mod indexes;
pub mod mixing;
pub mod receipts;
pub mod records;
pub mod results;
pub mod rows;
pub mod settings;
