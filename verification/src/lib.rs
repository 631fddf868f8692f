//! Scheduled extraction of sensor and power-metering readings from a
//! time-series store into per-entity, per-day tabular files.
//!
//! The crate holds the pipeline's logic: window selection, query
//! construction, projection of loosely-typed rows into typed columnar
//! tables, file naming and serialization, and the trigger arithmetic of
//! the scheduler. Network and file I/O stay outside the crate; callers
//! hand in the payload text and write out the rendered file contents.

pub mod config;
pub mod date;
pub mod emit;
pub mod pass;
pub mod payload;
pub mod project;
pub mod query;
pub mod schedule;
pub mod text;
pub mod window;
