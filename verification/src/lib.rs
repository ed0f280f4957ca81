//! The discrete core of a signal synthesis pipeline: pacing of a virtual
//! sample clock, routing of the composite signal, a bounded sample store and
//! the windowing of samples ahead of a spectral transform.
//!
//! Sample values are opaque to this crate. Time is counted in whole sample
//! periods and nanoseconds, the time scale in thousandths.

pub mod controller;
pub mod decimator;
pub mod error;
pub mod filters;
pub mod multiplexer;
pub mod samples;
pub mod scheduler;
pub mod simulation_options;
pub mod spectrum;
