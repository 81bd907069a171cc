//! Charge-threshold management for ThinkPad batteries.
//!
//! The library holds the decisions: which thresholds a backend writes and in
//! which order, what a threshold reading means, when a configuration is valid,
//! and how a charge-to-full session moves between its states as battery
//! readings arrive. Reading and writing the hardware, the registry and the
//! configuration file is left to the caller, which hands the library plain
//! values and performs the steps it returns.
pub mod status;
pub mod config;
pub mod monitor;
pub mod backend;
pub mod linux;
pub mod windows;
pub mod report;
pub mod text;
