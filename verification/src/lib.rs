//! A verified core for a periodic network-performance monitor.
//!
//! The library holds the logic of the monitor: the bounded-history ring
//! buffer that stores timestamped samples, the per-tick scheduling and
//! fan-out protocol of the orchestrator, the cooperative shutdown
//! protocol shared by every task, and the configuration decisions that
//! pick a store backend and a measurer. The surrounding process (task
//! spawning, channels, timers, signal handling, the presentation sinks
//! and the actual measurement technique) drives these verified pieces.

pub mod config;
pub mod database;
pub mod exporters;
pub mod inmemory;
pub mod measure;
pub mod monitor;
mod text;
