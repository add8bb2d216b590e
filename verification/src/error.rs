//! The uniform error and device-class model that drivers report through.

use vstd::prelude::*;

verus! {

/// Classes of device a driver can stand for.
#[derive(Clone, Copy, Debug, PartialEq, Eq)]
pub enum DeviceType {
    /// Block storage device, such as a disk.
    Block,
    /// Character device, such as a serial port.
    Char,
    /// Network device.
    Net,
    /// Graphic display device.
    Display,
}

/// Kinds of failure a device operation can report.
#[derive(Clone, Copy, Debug, PartialEq, Eq)]
pub enum DevError {
    /// An entity already exists.
    AlreadyExists,
    /// Try again, for non-blocking operations.
    Again,
    /// Bad internal state.
    BadState,
    /// Invalid parameter or argument.
    InvalidParam,
    /// Input/output error.
    Io,
    /// Not enough memory.
    NoMemory,
    /// Device or resource is busy.
    ResourceBusy,
    /// The operation is unsupported.
    Unsupported,
}

} // verus!
