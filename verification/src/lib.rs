//! A closed "ecosystem in a bottle" simulated as a discrete-time,
//! multi-species biogeochemical model, with a Monte Carlo harness that runs
//! many randomized trials and aggregates survival statistics.
//!
//! All quantities and rate constants are fixed-point integers: a value of
//! [`fixed::SCALE`] stands for one whole unit (one kilogram, one percent, one
//! pH step, and so on). Per-tick arithmetic is clamp-then-store: every write
//! saturates at the boundary of the quantity's declared domain, and
//! constructor failure is reserved for configuration and initialization.

pub mod config;
pub mod environmental;
pub mod errors;
pub mod fixed;
pub mod laws;
pub mod legacy;
pub mod monitor;
pub mod montecarlo;
pub mod organisms;
pub mod rng;
pub mod simulation;
pub mod state;
pub mod types;

pub use fixed::SCALE;
