//! The monitors: each polls one sensor, turns its counters into a sample
//! and reports the average over a bounded window of recent samples.

pub mod cpu_monitor;
pub mod disk_monitor;
pub mod memory_monitor;
pub mod network_monitor;
