//! Tiled rendering pipeline for a Monte Carlo path tracer.
//!
//! The crate holds the parts of the renderer that decide rather than
//! compute colour: how a frame is cut into tiles, how finished tiles are put
//! back together, how the driver and its workers move between their states,
//! and which transport event a light path takes at each surface.

pub mod frame;
pub mod pipe;
pub mod raster;
pub mod sample;
pub mod setup;
pub mod system;
pub mod tiles;
pub mod worker;
