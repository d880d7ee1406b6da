//! Host resource utilization snapshots, rendered as human-readable strings.
//!
//! The library turns raw resource readings (CPU load, used and total memory,
//! used and total disk space, all plain integers) into a formatted stats
//! report: byte counts scaled to binary units (B, KB, MB, GB, TB), usage
//! percentages with two decimal digits, and a JSON rendering of the whole
//! report. Every formatting and arithmetic step is verified against an exact
//! mathematical specification.
//!
//! Percentages are carried as integer hundredths of a percent (`3333` stands
//! for `33.33%`), so that the rounding rule — round to nearest, ties to
//! even — is stated and proved exactly, without floating point.

pub mod render;
pub mod stats;
