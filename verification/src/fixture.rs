//! A fixture adapter mapping the red/green/blue/brightness roles of an RGB
//! light onto four consecutive DMX channels. It only calls the controller's
//! two write operations; it never builds commands or touches the handle.

use vstd::prelude::*;

use crate::UDmx;
use crate::error::UDmxError;

verus! {

pub struct RgbFixture {
    red_channel: u8,
    green_channel: u8,
    blue_channel: u8,
    brightness_channel: u8,
}

impl RgbFixture {
    /// The fixture's four channels are consecutive, starting at the red
    /// channel, and all fit in the one-byte channel numbering the fixture
    /// uses. Every constructed fixture satisfies this, and every channel a
    /// well-formed fixture addresses is far below the DMX bound of 512, so
    /// its writes are never rejected by range validation.
    pub closed spec fn wf(&self) -> bool {
        &&& self.red_channel + 3 <= u8::MAX
        &&& self.green_channel == self.red_channel + 1
        &&& self.blue_channel == self.red_channel + 2
        &&& self.brightness_channel == self.red_channel + 3
    }

    /// The first (red) channel of the fixture.
    pub closed spec fn start_channel(&self) -> u8 {
        self.red_channel
    }

    pub fn new(start_channel: u8) -> (r: Self)
        requires
            start_channel + 3 <= u8::MAX,
        ensures
            r.wf(),
            r.start_channel() == start_channel,
    {
        RgbFixture {
            red_channel: start_channel,
            green_channel: start_channel + 1,
            blue_channel: start_channel + 2,
            brightness_channel: start_channel + 3,
        }
    }

    /// Writes red, green, blue and brightness in one ranged write starting
    /// at the red channel. A well-formed fixture always passes range
    /// validation, so only a transport failure can come back.
    pub fn set_rgb_brightness(
        &self,
        dmx: &UDmx,
        r: u8,
        g: u8,
        b: u8,
        brightness: u8,
    ) -> (res: Result<(), UDmxError>)
        requires
            self.wf(),
        ensures
            res matches Err(e) ==> e matches UDmxError::UsbError(_),
    {
        let values: [u8; 4] = [r, g, b, brightness];
        dmx.set_channels(self.red_channel as u16, values.as_slice())
    }

    /// Writes red, green and blue in one ranged write starting at the red
    /// channel. A well-formed fixture always passes range validation, so
    /// only a transport failure can come back.
    pub fn set_rgb(&self, dmx: &UDmx, r: u8, g: u8, b: u8) -> (res: Result<(), UDmxError>)
        requires
            self.wf(),
        ensures
            res matches Err(e) ==> e matches UDmxError::UsbError(_),
    {
        let values: [u8; 3] = [r, g, b];
        dmx.set_channels(self.red_channel as u16, values.as_slice())
    }

    /// Writes the brightness channel alone. A well-formed fixture's
    /// brightness channel is below 512, so only a transport failure can
    /// come back.
    pub fn set_brightness(&self, dmx: &UDmx, brightness: u8) -> (res: Result<(), UDmxError>)
        requires
            self.wf(),
        ensures
            res matches Err(e) ==> e matches UDmxError::UsbError(_),
    {
        dmx.set_channel(self.brightness_channel as u16, brightness)
    }
}

} // verus!
