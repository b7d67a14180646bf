//! The Audio PLL.

use vstd::prelude::*;

use super::{CcmAnalog, XTAL_OSCILLATOR_HZ};

verus! {

/// The smallest PLL4 fractional divider.
pub const MIN_FRAC: u8 = 12;

/// The largest PLL4 fractional divider.
pub const MAX_FRAC: u8 = 35;

/// The output frequency the Audio PLL produces for the given dividers: the
/// oscillator multiplied by the divider selection, plus the fractional part.
pub open spec fn output_frequency(div_select: u32, pll_num: u32, pll_denom: u32) -> int {
    XTAL_OSCILLATOR_HZ * div_select + (XTAL_OSCILLATOR_HZ * pll_num) / (pll_denom as int)
}

/// Restart the Audio PLL where all numerical options are enforced up front.
///
/// The caller guarantees what the hardware manual demands — a divider
/// selection from 27 to 54, a proper fraction, and an output between 650MHz
/// and 1.3GHz — so no register is ever programmed with an illegal value.
/// The sequence bypasses and powers the PLL down, programs the dividers,
/// then powers it back up, waits for lock, and drops the bypass.
pub fn restart(ccm_analog: &mut CcmAnalog, div_select: u32, pll_num: u32, pll_denom: u32)
    requires
        27 <= div_select <= 54,
        pll_num < pll_denom,
        650_000_000 < output_frequency(div_select, pll_num, pll_denom) <= 1_300_000_000,
        XTAL_OSCILLATOR_HZ * pll_num <= u32::MAX,
    ensures
        final(ccm_analog).audio_div_select == div_select,
        final(ccm_analog).audio_num == pll_num,
        final(ccm_analog).audio_denom == pll_denom,
        final(ccm_analog).audio_enable,
        !final(ccm_analog).audio_powerdown,
        final(ccm_analog).audio_locked(),
        !final(ccm_analog).audio_bypass,
        final(ccm_analog).usb1_enable == old(ccm_analog).usb1_enable,
        final(ccm_analog).usb1_power == old(ccm_analog).usb1_power,
        final(ccm_analog).usb1_bypass == old(ccm_analog).usb1_bypass,
        final(ccm_analog).usb1_en_usb_clks == old(ccm_analog).usb1_en_usb_clks,
{
    // Disable and power down the PLL.
    loop
        invariant
            ccm_analog.usb1_enable == old(ccm_analog).usb1_enable,
            ccm_analog.usb1_power == old(ccm_analog).usb1_power,
            ccm_analog.usb1_bypass == old(ccm_analog).usb1_bypass,
            ccm_analog.usb1_en_usb_clks == old(ccm_analog).usb1_en_usb_clks,
        ensures
            ccm_analog.audio_bypass,
            !ccm_analog.audio_enable,
            ccm_analog.audio_powerdown,
            ccm_analog.usb1_enable == old(ccm_analog).usb1_enable,
            ccm_analog.usb1_power == old(ccm_analog).usb1_power,
            ccm_analog.usb1_bypass == old(ccm_analog).usb1_bypass,
            ccm_analog.usb1_en_usb_clks == old(ccm_analog).usb1_en_usb_clks,
        decreases (if !ccm_analog.audio_bypass {
            1int
        } else {
            0int
        }) + (if ccm_analog.audio_enable {
            1int
        } else {
            0int
        }) + (if !ccm_analog.audio_powerdown {
            1int
        } else {
            0int
        }),
    {
        if !ccm_analog.audio_bypass {
            ccm_analog.audio_bypass = true;
            continue;
        }
        if ccm_analog.audio_enable {
            ccm_analog.audio_enable = false;
            continue;
        }
        if !ccm_analog.audio_powerdown {
            ccm_analog.audio_powerdown = true;
            continue;
        }
        break;
    }

    // Program the divider selection and the fraction.
    ccm_analog.audio_num = pll_num;
    ccm_analog.audio_denom = pll_denom;
    ccm_analog.audio_div_select = div_select;

    // Power on, enable, and lock, then leave the bypass.
    loop
        invariant
            ccm_analog.audio_div_select == div_select,
            ccm_analog.audio_num == pll_num,
            ccm_analog.audio_denom == pll_denom,
            ccm_analog.usb1_enable == old(ccm_analog).usb1_enable,
            ccm_analog.usb1_power == old(ccm_analog).usb1_power,
            ccm_analog.usb1_bypass == old(ccm_analog).usb1_bypass,
            ccm_analog.usb1_en_usb_clks == old(ccm_analog).usb1_en_usb_clks,
        ensures
            ccm_analog.audio_enable,
            !ccm_analog.audio_powerdown,
            !ccm_analog.audio_bypass,
            ccm_analog.audio_div_select == div_select,
            ccm_analog.audio_num == pll_num,
            ccm_analog.audio_denom == pll_denom,
            ccm_analog.usb1_enable == old(ccm_analog).usb1_enable,
            ccm_analog.usb1_power == old(ccm_analog).usb1_power,
            ccm_analog.usb1_bypass == old(ccm_analog).usb1_bypass,
            ccm_analog.usb1_en_usb_clks == old(ccm_analog).usb1_en_usb_clks,
        decreases (if !ccm_analog.audio_enable {
            1int
        } else {
            0int
        }) + (if ccm_analog.audio_powerdown {
            1int
        } else {
            0int
        }) + (if ccm_analog.audio_bypass {
            1int
        } else {
            0int
        }),
    {
        if !ccm_analog.audio_enable {
            ccm_analog.audio_enable = true;
            continue;
        }
        if ccm_analog.audio_powerdown {
            ccm_analog.audio_powerdown = false;
            continue;
        }
        if !ccm_analog.audio_lock() {
            continue;
        }
        if ccm_analog.audio_bypass {
            ccm_analog.audio_bypass = false;
            continue;
        }
        break;
    }
}

/// Get the current clock rate of the Audio PLL by inspecting the dividers.
pub fn clock_rate(ccm_analog: &CcmAnalog) -> (rate: u32)
    requires
        ccm_analog.audio_denom > 0,
        XTAL_OSCILLATOR_HZ * ccm_analog.audio_div_select <= u32::MAX,
        XTAL_OSCILLATOR_HZ * ccm_analog.audio_num <= u32::MAX,
        output_frequency(ccm_analog.audio_div_select, ccm_analog.audio_num, ccm_analog.audio_denom)
            <= u32::MAX,
    ensures
        rate == output_frequency(
            ccm_analog.audio_div_select,
            ccm_analog.audio_num,
            ccm_analog.audio_denom,
        ),
{
    let div_select: u32 = ccm_analog.audio_div_select;
    let pll_num: u32 = ccm_analog.audio_num;
    let pll_denom: u32 = ccm_analog.audio_denom;
    XTAL_OSCILLATOR_HZ * div_select + (XTAL_OSCILLATOR_HZ * pll_num) / pll_denom
}

} // verus!
