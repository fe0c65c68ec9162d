//! Verified core of a small host-control and telemetry endpoint.
//!
//! The library holds the logic that carries real contracts: the command
//! allowlist (registry and execution gateway), the telemetry aggregation
//! with per-source failure containment, and the power-action scheduler.
//! The HTTP front, the process spawning and the sensor reads live outside
//! the library and hand it plain values.

pub mod gateway;
pub mod power;
pub mod registry;
pub mod telemetry;
pub mod tokens;
pub mod trusted;
pub mod units;
