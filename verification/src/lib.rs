//! Core pipeline of an autonomous soccer robot: state estimation from noisy
//! ranging and camera data, behavior arbitration, and holonomic motion control.
//!
//! All physical quantities are fixed-point integers:
//! distances and field coordinates in millimeters, angles in whole degrees
//! normalized to `(-180, 180]`, trigonometric values scaled by `10_000`,
//! speed and rotation commands as thousandths of full scale, and time in
//! milliseconds.

pub mod angles;
pub mod ball;
pub mod config;
pub mod control;
pub mod coordinate;
pub mod data;
pub mod led;
pub mod logger;
pub mod movement;
pub mod num;
pub mod pid;
pub mod store;
pub mod strategy;
pub mod trig;
pub mod wire;
