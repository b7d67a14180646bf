//! Analog clock control module.
//!
//! Each submodule describes a system PLL. The register block is represented
//! by [`CcmAnalog`], a model holding the PLL control fields as plain values.
//! A PLL's lock indicator is hardware-driven: the model reports a PLL locked
//! once it is powered and enabled, folding the hardware's lock delay into
//! the observation.

pub mod pll2;
pub mod pll3;
pub mod pll4;

use vstd::prelude::*;

verus! {

/// The crystal oscillator frequency (Hz) feeding every PLL.
pub const XTAL_OSCILLATOR_HZ: u32 = 24_000_000;

/// The analog clock-control register block: the control fields of the USB
/// PLL and the Audio PLL.
pub struct CcmAnalog {
    /// USB PLL: enable the PLL.
    pub usb1_enable: bool,
    /// USB PLL: power up the PLL.
    pub usb1_power: bool,
    /// USB PLL: bypass the PLL, passing the reference clock through.
    pub usb1_bypass: bool,
    /// USB PLL: gate the USB clocks.
    pub usb1_en_usb_clks: bool,
    /// Audio PLL: the divider selection, multiplying the oscillator.
    pub audio_div_select: u32,
    /// Audio PLL: enable the PLL.
    pub audio_enable: bool,
    /// Audio PLL: power down the PLL.
    pub audio_powerdown: bool,
    /// Audio PLL: bypass the PLL, passing the reference clock through.
    pub audio_bypass: bool,
    /// Audio PLL: the fractional numerator.
    pub audio_num: u32,
    /// Audio PLL: the fractional denominator.
    pub audio_denom: u32,
}

impl CcmAnalog {
    /// The USB PLL's lock indicator: the hardware locks the PLL once it is
    /// enabled and powered.
    pub open spec fn usb1_locked(&self) -> bool {
        self.usb1_enable && self.usb1_power
    }

    /// The Audio PLL's lock indicator: the hardware locks the PLL once it
    /// is enabled and not powered down.
    pub open spec fn audio_locked(&self) -> bool {
        self.audio_enable && !self.audio_powerdown
    }

    /// Read the USB PLL's lock flag.
    pub fn usb1_lock(&self) -> (locked: bool)
        ensures
            locked == self.usb1_locked(),
    {
        self.usb1_enable && self.usb1_power
    }

    /// Read the Audio PLL's lock flag.
    pub fn audio_lock(&self) -> (locked: bool)
        ensures
            locked == self.audio_locked(),
    {
        self.audio_enable && !self.audio_powerdown
    }
}

} // verus!
