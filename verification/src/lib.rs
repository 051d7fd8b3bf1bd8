//! Real-time digital-twin engine for a graphite-moderated, channel-type
//! reactor core.
//!
//! The engine couples six-group point kinetics, reactivity feedback,
//! thermal-hydraulics, xenon poisoning and a two-dimensional diffusion
//! coupling over the fuel-channel grid, and enforces the safety logic
//! (emergency shutdown, automatic power regulation, accident detection).
//!
//! All physical quantities are carried as fixed-point integers: one unit is
//! 10^-9 of the physical unit of the field (see [`fx`]). This keeps every
//! computation exact and machine-checkable.

pub mod fx;
pub mod params;
pub mod kinetics;
pub mod feedback;
pub mod thermal;
pub mod xenon;
pub mod rods;
pub mod regulator;
pub mod safety;
pub mod geometry;
pub mod spatial;
pub mod state;
pub mod flux;
pub mod sim;
pub mod laws;
