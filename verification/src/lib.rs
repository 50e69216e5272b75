//! Telemetry sampling and averaging for a desktop vitals panel.
//!
//! Raw kernel counters (CPU ticks, memory sizes, network byte counters and
//! disk operation counters) are parsed from the text of the kernel's
//! pseudo-files, turned into per-tick usages or deltas, and smoothed over a
//! bounded rolling window. The settings of the monitors are read from the
//! forms in which a user edits them, and held to their rules.
//!
//! The functions of this crate carry contracts over mathematical models of
//! the data they work on, and the contracts are proved. The few calls into
//! other crates and into parts of the standard library that have no
//! specification stand in small functions of their own, whose contracts are
//! taken on trust; each says so in its documentation.

pub mod configuration;
pub mod counters;
pub mod form_input;
pub mod monitors;
pub mod panel;
pub mod scheduler;
pub mod sensors;
pub mod settings;
pub mod simulation;
pub mod text;
pub mod window;
