//! The hardware configuration for an LED strip controller, and the
//! checks that reject parameters the device cannot take.
//!
//! Building the controller itself is left to the embedding program;
//! it must not be attempted with a configuration these checks reject.

use vstd::prelude::*;

verus! {

/// Which type of strip, and color order, the hardware is.
#[derive(Copy, Clone, PartialEq, Eq, Structural, Debug)]
pub enum StripKind {
    /// A WS2812 strip.
    Ws2812,
    /// An SK6812 strip, as on the target device's display.
    Sk6812,
}

/// Required parameters for setting up a hardware instance.
#[derive(PartialEq, Debug)]
pub struct LEDHardwareConfig {
    /// The frequency for the pulse wave signal.
    pub frequenz: u32,
    /// The DMA channel of the Raspberry Pi, between 0 and 13.
    pub dma: i32,
    /// Which GPIO the hardware is connected to.
    pub pin: i32,
    /// The total count of all LEDs.
    pub count: i32,
    /// Which type of strip the hardware is.
    pub strip_kind: StripKind,
    /// How bright the LEDs should be.
    pub brightness: u8,
    /// If the LEDs are in the inverted order.
    pub inverted: bool,
}

/// Whether a GPIO data pin exists and may be used: pin IDs 2 to 27.
pub fn check_gpio_pin(pin: u8) -> (ok: bool)
    ensures
        ok == (2 <= pin && pin <= 27),
{
    2 <= pin && pin <= 27
}

/// Whether a DMA channel of the Raspberry Pi exists: channels 0 to 13.
pub fn check_dma_channel(dma: u8) -> (ok: bool)
    ensures
        ok == (dma <= 13),
{
    dma <= 13
}

} // verus!
