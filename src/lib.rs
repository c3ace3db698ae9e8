//! Choosing a graphics device and a presentation-capable queue family.
//!
//! The selection policy works on plain descriptions of the devices and
//! queue families that a graphics driver reports; the driver itself is
//! queried by the caller, which hands the answers to the functions here.
pub mod model;
pub mod select;
pub mod queue;
pub mod synthetic;
pub mod config;
pub mod diagnostic;
pub mod session;
