//! A verified core for a terminal resource monitor.
//!
//! The library holds the pure logic of the monitor: turning pairs of
//! cumulative network counters into throughput figures, classifying usage
//! percentages into severity bands, rendering colorized progress bars and
//! disk lines, and encoding / decoding the persisted display settings.
//! All percentages are carried as exact rationals over integer byte counts,
//! so every derived figure (rounded percents, filled bar cells, two-decimal
//! displays) is specified and proved exactly.
//!
//! Reading the OS metrics, driving the terminal and waiting for keypresses
//! are side effects that live outside the library; they hand plain values in
//! and take rendered lines back.

pub mod debug_log;
pub mod menu;
pub mod percent;
pub mod rate;
pub mod render;
pub mod settings;
pub mod snapshot;
pub mod severity;
pub mod text;
