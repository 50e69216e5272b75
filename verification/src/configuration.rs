//! What a user can configure of each monitor, and the rules that a new
//! setting has to meet.

pub mod app_configuration;
pub mod cpu;
pub mod disk;
pub mod general;
pub mod interval;
pub mod memory;
pub mod network;
pub mod validation;
