//! Tests that touch the real USB stack. No uDMX hardware is attached where
//! these run, so construction must fail; both failure classes are allowed,
//! since a host without USB access fails transport-first.

use udmx::error::UDmxError;
use udmx::UDmx;

#[test]
fn construction_without_hardware_reports_a_classified_failure() {
    match UDmx::new() {
        Ok(_) => panic!("no uDMX device should be attached here"),
        Err(UDmxError::DeviceNotFound) => {}
        Err(UDmxError::UsbError(_)) => {}
        Err(UDmxError::ChannelOutOfRange(i)) => {
            panic!("discovery cannot produce a range error, got index {i}")
        }
    }
}

#[test]
fn fixture_construction_stays_in_channel_bounds() {
    // The widest placement whose four channels still fit one byte.
    let _high = udmx::fixture::RgbFixture::new(252);
    let _low = udmx::fixture::RgbFixture::new(0);
}
