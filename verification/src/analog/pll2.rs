//! The system PLL.

use vstd::prelude::*;

verus! {

/// PLL2 frequency (Hz).
///
/// The reference manual notes that PLL2 should always run at 528MHz, so this
/// constant assumes that PLL2's divider selection isn't changed at runtime.
pub const FREQUENCY: u32 = 528_000_000;

/// The smallest PLL2 fractional divider.
pub const MIN_FRAC: u8 = 12;

/// The largest PLL2 fractional divider.
pub const MAX_FRAC: u8 = 35;

} // verus!
