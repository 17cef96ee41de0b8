//! Core of a live host-metrics sampler: CPU tick deltas, bounded
//! time-series history, process ranking, and selection continuity.
//!
//! Sampling (kernel counters, process inventory) and rendering live
//! outside this crate; the functions here turn the sampled plain
//! values into display-ready state, with verified contracts.

pub mod app;
pub mod cpu;
pub mod fmt;
pub mod history;
pub mod procs;
