//! The USB PLL.
//!
//! When an implementation has multiple USB peripherals, this PLL is
//! associated with USB1.

use vstd::prelude::*;

use super::CcmAnalog;

verus! {

/// PLL3 frequency (Hz).
///
/// The reference manual notes that PLL3 should always run at 480MHz, so this
/// constant assumes that PLL3's divider selection isn't changed at runtime.
pub const FREQUENCY: u32 = 480_000_000;

/// The smallest PLL3 fractional divider.
pub const MIN_FRAC: u8 = 12;

/// The largest PLL3 fractional divider.
pub const MAX_FRAC: u8 = 35;

/// Restart the USB(1) PLL.
///
/// Steps the PLL through its bring-up sequence — enable, power, wait for
/// lock, drop the bypass, ungate the USB clocks — retrying from the top
/// after every register write until every condition holds, exactly as the
/// hardware requires.
pub fn restart(ccm_analog: &mut CcmAnalog)
    ensures
        final(ccm_analog).usb1_enable,
        final(ccm_analog).usb1_power,
        final(ccm_analog).usb1_locked(),
        !final(ccm_analog).usb1_bypass,
        final(ccm_analog).usb1_en_usb_clks,
        final(ccm_analog).audio_div_select == old(ccm_analog).audio_div_select,
        final(ccm_analog).audio_enable == old(ccm_analog).audio_enable,
        final(ccm_analog).audio_powerdown == old(ccm_analog).audio_powerdown,
        final(ccm_analog).audio_bypass == old(ccm_analog).audio_bypass,
        final(ccm_analog).audio_num == old(ccm_analog).audio_num,
        final(ccm_analog).audio_denom == old(ccm_analog).audio_denom,
    {
    loop
        invariant
            ccm_analog.audio_div_select == old(ccm_analog).audio_div_select,
            ccm_analog.audio_enable == old(ccm_analog).audio_enable,
            ccm_analog.audio_powerdown == old(ccm_analog).audio_powerdown,
            ccm_analog.audio_bypass == old(ccm_analog).audio_bypass,
            ccm_analog.audio_num == old(ccm_analog).audio_num,
            ccm_analog.audio_denom == old(ccm_analog).audio_denom,
        ensures
            ccm_analog.usb1_enable,
            ccm_analog.usb1_power,
            !ccm_analog.usb1_bypass,
            ccm_analog.usb1_en_usb_clks,
            ccm_analog.audio_div_select == old(ccm_analog).audio_div_select,
            ccm_analog.audio_enable == old(ccm_analog).audio_enable,
            ccm_analog.audio_powerdown == old(ccm_analog).audio_powerdown,
            ccm_analog.audio_bypass == old(ccm_analog).audio_bypass,
            ccm_analog.audio_num == old(ccm_analog).audio_num,
            ccm_analog.audio_denom == old(ccm_analog).audio_denom,
        decreases (if !ccm_analog.usb1_enable {
            1int
        } else {
            0int
        }) + (if !ccm_analog.usb1_power {
            1int
        } else {
            0int
        }) + (if ccm_analog.usb1_bypass {
            1int
        } else {
            0int
        }) + (if !ccm_analog.usb1_en_usb_clks {
            1int
        } else {
            0int
        }),
    {
        if !ccm_analog.usb1_enable {
            ccm_analog.usb1_enable = true;
            continue;
        }
        if !ccm_analog.usb1_power {
            ccm_analog.usb1_power = true;
            continue;
        }
        if !ccm_analog.usb1_lock() {
            continue;
        }
        if ccm_analog.usb1_bypass {
            ccm_analog.usb1_bypass = false;
            continue;
        }
        if !ccm_analog.usb1_en_usb_clks {
            ccm_analog.usb1_en_usb_clks = true;
            continue;
        }
        break;
    }
}

} // verus!
