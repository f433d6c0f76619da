//! Error kinds of the driver.

use vstd::prelude::*;

verus! {

/// A failure of the bus or of the reset line, as the host reports it.
#[derive(Clone, Copy, Debug, PartialEq, Eq, Structural)]
pub enum TransportError {
    /// The reset line or the bus could not be acquired.
    Acquisition,
    /// A write to the bus was not acknowledged or timed out.
    Write,
}

/// What a driver operation can fail with.
#[derive(Clone, Copy, Debug, PartialEq, Eq, Structural)]
pub enum DisplayError {
    /// The transport failed while the panel was initialised or a frame was
    /// flushed. The driver does not retry.
    Transport(TransportError),
    /// A primitive does not lie inside the buffer it is composed into.
    Geometry,
    /// A draw was attempted while the panel was not ready.
    NotReady,
    /// An image has no pixels.
    InvalidDimensions,
}

} // verus!
