//! Telemetry core for a live hardware dashboard: rolling time-bounded sample
//! windows, power derivation from energy-counter deltas, sensor lookup, and a
//! debounced sampling coordinator.

pub mod coordinator;
pub mod power;
pub mod sensors;
pub mod store;
