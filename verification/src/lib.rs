//! Conversion engine for translating decoded FreeRTOS trace-recorder events
//! into a normalized stream of trace records for a CTF-style sink.
//!
//! The engine is a single forward pass: the driver feeds one decoded event at
//! a time together with its raw wrapping counters, and the engine reconstructs
//! a monotonic timeline, reports event loss, recovers symmetric entry/exit and
//! switch records from the asymmetric source events, and memoizes string and
//! schema registrations.  All file and sink I/O stays with the driver.

pub mod convert;
pub mod events;
pub mod plugin;
pub mod schema;
pub mod trackers;
pub mod types;
