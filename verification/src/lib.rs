//! Driver for a uDMX USB-to-DMX512 lighting interface.
//!
//! The controller locates the device by its fixed vendor/product identity,
//! opens it, and issues vendor-defined control transfers to set lighting
//! channels or start the firmware bootloader. Channel arguments are
//! validated before any transfer is built, so a rejected call has no wire
//! side effects.

use vstd::prelude::*;

pub mod command;
pub mod discovery;
pub mod error;
pub mod fixture;
mod usb;

use crate::command::ControlRequest;
use crate::command::channel_in_range;
use crate::command::range_end;
use crate::command::range_in_bounds;
use crate::command::set_channel_request;
use crate::command::set_channels_request;
use crate::command::start_bootloader_request;
use crate::discovery::DeviceIdentity;
use crate::discovery::matches_udmx_identity;
use crate::error::UDmxError;

verus! {

/// Transfer timeout in milliseconds; a transfer that runs past it fails
/// with a transport error.
pub const USB_TIMEOUT_MS: u64 = 5000;

/// An opened, exclusive connection to one uDMX device. The handle is owned
/// solely by this instance and is closed when it goes out of scope, on
/// success and failure paths alike.
pub struct UDmx {
    handle: usb::UsbDeviceHandle,
}

impl UDmx {
    /// Creates a new uDMX controller interface.
    ///
    /// Opens a USB context and runs discovery once. Fails with a transport
    /// error if the USB stack itself fails, and with `DeviceNotFound` if no
    /// identity-matching device could be found and opened.
    pub fn new() -> (r: Result<Self, UDmxError>)
        ensures
            r matches Err(e) ==> (e == UDmxError::DeviceNotFound || e matches
                UDmxError::UsbError(_)),
    {
        let bus = match usb::context_new() {
            Ok(bus) => bus,
            Err(e) => {
                return Err(UDmxError::UsbError(e));
            },
        };
        match Self::find_device(&bus) {
            Ok(handle) => Ok(Self { handle }),
            Err(e) => Err(e),
        }
    }

    /// Discovery: walks one snapshot of the attached devices in order. A
    /// device is a candidate when its vendor/product identity matches
    /// exactly; the first candidate that also opens is taken. A candidate
    /// that fails to open is skipped and the scan goes on. A transport
    /// failure of enumeration itself (listing, or reading a descriptor) is
    /// fatal. When no candidate is found, or every candidate failed to
    /// open, the result is `DeviceNotFound`.
    fn find_device(bus: &usb::UsbBus) -> (r: Result<usb::UsbDeviceHandle, UDmxError>)
        ensures
            r matches Err(e) ==> (e == UDmxError::DeviceNotFound || e matches
                UDmxError::UsbError(_)),
    {
        let devices = match usb::list_devices(bus) {
            Ok(devices) => devices,
            Err(e) => {
                return Err(UDmxError::UsbError(e));
            },
        };
        let mut i: usize = 0;
        while i < devices.len()
            invariant
                i <= devices.len(),
            decreases devices.len() - i,
        {
            let descriptor = match usb::device_descriptor(&devices[i]) {
                Ok(descriptor) => descriptor,
                Err(e) => {
                    return Err(UDmxError::UsbError(e));
                },
            };
            let identity = DeviceIdentity {
                vendor_id: usb::descriptor_vendor_id(&descriptor),
                product_id: usb::descriptor_product_id(&descriptor),
            };
            if matches_udmx_identity(&identity) {
                match usb::open_device(&devices[i]) {
                    Ok(handle) => {
                        return Ok(handle);
                    },
                    Err(_) => {
                        // a matching device that fails to open is skipped;
                        // another physically identical device may follow
                    },
                }
            }
            i = i + 1;
        }
        Err(UDmxError::DeviceNotFound)
    }

    /// Set a single channel to a value.
    ///
    /// A channel outside the valid range (< 512) is rejected with
    /// `ChannelOutOfRange` carrying that channel, before any transfer is
    /// attempted. Otherwise exactly one SetSingleChannel transfer is issued
    /// with wValue = `value` and wIndex = `channel`, and any transport
    /// failure is surfaced unchanged.
    pub fn set_channel(&self, channel: u16, value: u8) -> (r: Result<(), UDmxError>)
        ensures
            !channel_in_range(channel) ==> r == Err::<(), UDmxError>(
                UDmxError::ChannelOutOfRange(channel as u64),
            ),
            r matches Err(e) ==> (e matches UDmxError::UsbError(_) || (!channel_in_range(channel)
                && e == UDmxError::ChannelOutOfRange(channel as u64))),
    {
        match set_channel_request(channel, value) {
            Ok(request) => self.send_command(&request),
            Err(e) => Err(e),
        }
    }

    /// Set a range of channels to a number of values.
    ///
    /// The length of `values` determines the number of channels to set,
    /// starting at `starting_channel`. An empty `values` is a no-op that
    /// succeeds without issuing any transfer. A run that would pass the
    /// last valid channel (start + length > 512) is rejected with
    /// `ChannelOutOfRange` carrying the overflowing end index, before any
    /// transfer is attempted. Otherwise exactly one SetChannelRange
    /// transfer is issued with wValue = the value count, wIndex =
    /// `starting_channel` and the values as payload, and any transport
    /// failure is surfaced unchanged.
    pub fn set_channels(&self, starting_channel: u16, values: &[u8]) -> (r: Result<(), UDmxError>)
        ensures
            values@.len() == 0 ==> r == Ok::<(), UDmxError>(()),
            values@.len() > 0 && !range_in_bounds(starting_channel, values@.len()) ==> r == Err::<
                (),
                UDmxError,
            >(UDmxError::ChannelOutOfRange(range_end(starting_channel, values@.len()))),
            r matches Err(e) ==> (e matches UDmxError::UsbError(_) || (!range_in_bounds(
                starting_channel,
                values@.len(),
            ) && e == UDmxError::ChannelOutOfRange(range_end(starting_channel, values@.len())))),
    {
        match set_channels_request(starting_channel, values) {
            Ok(Some(request)) => self.send_command(&request),
            Ok(None) => Ok(()),
            Err(e) => Err(e),
        }
    }

    /// Start the uDMX bootloader, handing the device over to its firmware
    /// updater. No validation: one StartBootloader transfer is always
    /// issued, with wValue = 0 and wIndex = 0 and no payload. The caller
    /// must treat this controller as invalid afterwards.
    pub fn start_bootloader(&self) -> (r: Result<(), UDmxError>)
        ensures
            r matches Err(e) ==> e matches UDmxError::UsbError(_),
    {
        let request = start_bootloader_request();
        self.send_command(&request)
    }

    /// The single dispatch point: performs the blocking control transfer
    /// described by `request` with the fixed vendor-out request type and
    /// timeout. Succeeds exactly when the transport reports no failure;
    /// a transport failure is surfaced unchanged as `UsbError`.
    fn send_command(&self, request: &ControlRequest) -> (r: Result<(), UDmxError>)
        requires
            request.data@.len() <= 0xFFFF,
        ensures
            r matches Err(e) ==> e matches UDmxError::UsbError(_),
    {
        let request_type = usb::vendor_request_out();
        match usb::write_control(
            &self.handle,
            request_type,
            request.request,
            request.value,
            request.index,
            &request.data,
            USB_TIMEOUT_MS,
        ) {
            Ok(_) => Ok(()),
            Err(e) => Err(UDmxError::UsbError(e)),
        }
    }
}

} // verus!
