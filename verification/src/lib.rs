//! Driver core for a 128x64 monochrome panel on a two-wire bus.
//!
//! The crate holds the decisions of the driver and none of its input or
//! output: the host performs the line and bus operations that the driver
//! hands out as [`display::Command`]s and reports how the bus answered.
//! Images are brought into the panel's packed format by [`normalize`].

pub mod bitmap;
pub mod bits;
pub mod display;
pub mod error;
pub mod frame;
pub mod luma;
pub mod normalize;
pub mod text;
