//! Workload generation and latency measurement for a distributed data store.
//!
//! The crate holds the decisions of a rate-controlled load generator: how a
//! target throughput and read share turn into a deterministic interleaving of
//! reads and writes, how a finite dataset is replayed without end, when a run
//! stops, and how latency samples are aggregated into cumulative, draining and
//! windowed series. Everything that waits, reads a file or talks to the store
//! is left to the caller, which feeds the outcome back as plain values.

pub mod ratio;
pub mod error;
pub mod settings;
pub mod snapshot;
pub mod cursor;
pub mod scheduler;
pub mod lifecycle;
pub mod clock;
pub mod metrics_store;
pub mod metrics_manager;
pub mod columns;
