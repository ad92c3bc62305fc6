//! Execution and statistics engine of a statement-latency benchmark for an
//! embedded relational store.

pub mod bench;
pub mod clock;
pub mod config;
pub mod counter;
pub mod evict;
pub mod hook;
pub mod phase;
pub mod report;
pub mod text;
pub mod trial;
pub mod workload;
