//! Sampling-and-windowing engine of a terminal dashboard for a blockchain node:
//! fixed-capacity metric windows, their smoothed projection, and the per-tick
//! update of the published metrics.

pub mod dashboard;
pub mod display;
pub mod metrics;
pub mod smoothing;
pub mod window;
