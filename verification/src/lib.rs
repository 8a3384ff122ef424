//! Core of a double-buffered N-body particle simulation.
//!
//! The library models the state that drives the simulation: the parameter
//! block and its packed uniform record, the galaxy seeding plan, the
//! growable double-buffered particle storage, and the per-frame controller
//! state machine. GPU submission, windowing and UI widgets live outside the
//! library and consume plain values from it.

pub mod binary32;
pub mod config;
pub mod constants;
pub mod controller;
pub mod galaxy;
pub mod params;
pub mod rng;
pub mod store;
