//! Trusted boundary to the USB stack.
//!
//! Every item here is believed, not verified: each wrapper's contract states
//! only what the underlying `rusb` function is documented to do. Nothing in
//! this module decides anything; all validation and protocol encoding is
//! verified code elsewhere in the crate.

use vstd::prelude::*;
use rusb::UsbContext;

verus! {

#[verifier::external_type_specification]
#[verifier::external_body]
pub struct ExDeviceDescriptor(rusb::DeviceDescriptor);

#[verifier::external_type_specification]
#[verifier::external_body]
pub struct ExError(rusb::Error);

/// An open libusb context. Opaque: `rusb::Context` itself cannot be declared
/// to the verifier, since carrying it through generic rusb types would need
/// the undeclarable `rusb::UsbContext` trait bound.
#[verifier::external_body]
pub struct UsbBus {
    context: rusb::Context,
}

/// One enumerated USB device, not yet opened. Opaque wrapper around
/// `rusb::Device` for the same reason as [`UsbBus`].
#[verifier::external_body]
pub struct UsbDevice {
    device: rusb::Device<rusb::Context>,
}

/// A handle to an opened USB device. Opaque wrapper around
/// `rusb::DeviceHandle`; closing is its `Drop`, which runs on every exit
/// path. Same reason as [`UsbBus`].
#[verifier::external_body]
pub struct UsbDeviceHandle {
    handle: rusb::DeviceHandle<rusb::Context>,
}

/// Relies on `rusb::Context::new`: opens a new libusb context.
#[verifier::external_body]
pub(crate) fn context_new() -> Result<UsbBus, rusb::Error> {
    match rusb::Context::new() {
        Ok(context) => Ok(UsbBus { context }),
        Err(e) => Err(e),
    }
}

/// Relies on `rusb::UsbContext::devices`: takes one snapshot of the USB
/// devices currently visible to the host.
#[verifier::external_body]
pub(crate) fn list_devices(bus: &UsbBus) -> Result<Vec<UsbDevice>, rusb::Error> {
    match bus.context.devices() {
        Ok(list) => Ok(list.iter().map(|device| UsbDevice { device }).collect()),
        Err(e) => Err(e),
    }
}

/// Relies on `rusb::Device::device_descriptor`: reads the device descriptor.
#[verifier::external_body]
pub(crate) fn device_descriptor(device: &UsbDevice) -> Result<rusb::DeviceDescriptor, rusb::Error> {
    device.device.device_descriptor()
}

/// Relies on `rusb::DeviceDescriptor::vendor_id`: the descriptor's idVendor field.
#[verifier::external_body]
pub(crate) fn descriptor_vendor_id(descriptor: &rusb::DeviceDescriptor) -> u16 {
    descriptor.vendor_id()
}

/// Relies on `rusb::DeviceDescriptor::product_id`: the descriptor's idProduct field.
#[verifier::external_body]
pub(crate) fn descriptor_product_id(descriptor: &rusb::DeviceDescriptor) -> u16 {
    descriptor.product_id()
}

/// Relies on `rusb::Device::open`: opens the device, yielding a handle.
#[verifier::external_body]
pub(crate) fn open_device(device: &UsbDevice) -> Result<UsbDeviceHandle, rusb::Error> {
    match device.device.open() {
        Ok(handle) => Ok(UsbDeviceHandle { handle }),
        Err(e) => Err(e),
    }
}

/// Relies on `rusb::request_type`: composes the bmRequestType bit field.
/// For a host-to-device, vendor-scoped, device-recipient transfer the bits
/// are Out = 0x00, Vendor = 0x02 << 5, Device = 0x00, so the value is 0x40.
#[verifier::external_body]
pub(crate) fn vendor_request_out() -> (r: u8)
    ensures
        r == 0x40u8,
{
    rusb::request_type(rusb::Direction::Out, rusb::RequestType::Vendor, rusb::Recipient::Device)
}

/// Relies on `rusb::DeviceHandle::write_control`: issues one blocking
/// host-to-device control transfer and, on success, returns the number of
/// bytes transferred, which is at most the length of the payload handed in.
/// The wire wLength field is 16 bits, so the payload must fit in it.
#[verifier::external_body]
pub(crate) fn write_control(
    handle: &UsbDeviceHandle,
    request_type: u8,
    request: u8,
    value: u16,
    index: u16,
    buf: &Vec<u8>,
    timeout_ms: u64,
) -> (r: Result<usize, rusb::Error>)
    requires
        buf@.len() <= 0xFFFF,
    ensures
        r matches Ok(n) ==> n <= buf@.len(),
{
    let timeout = std::time::Duration::from_millis(timeout_ms);
    handle.handle.write_control(request_type, request, value, index, buf.as_slice(), timeout)
}

} // verus!
