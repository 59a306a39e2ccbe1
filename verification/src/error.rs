//! Failure classification for the driver.

use vstd::prelude::*;

verus! {

/// Errors that can occur when interacting with a uDMX device.
#[derive(Debug)]
pub enum UDmxError {
    /// USB communication error.
    ///
    /// Wraps errors from the underlying USB stack, surfaced unchanged.
    UsbError(rusb::Error),

    /// No uDMX device was found on the system: enumeration exhausted all
    /// candidates without an open, identity-matching handle.
    DeviceNotFound,

    /// DMX channel index exceeds the valid range (< 512). Carries the
    /// offending boundary index for diagnostics.
    ChannelOutOfRange(u64),
}

} // verus!
