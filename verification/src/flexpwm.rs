//! Pulse width modulation.
//!
//! Each PWM peripheral interacts with four submodules. Each submodule acts as
//! a timer with multiple compare registers, called [`ValueRegister`]s. This
//! module holds the submodule selectors, clocking choices and value-register
//! mappings that PWM users combine when they configure outputs.

use vstd::prelude::*;

verus! {

/// Bitmask for representing submodules.
///
/// The interpretation of the bits depends on the function it is handed to.
/// If you have a submodule selector, use [`SM::mask`] to obtain its bitmask.
#[derive(Clone, Copy, Debug, PartialEq, Eq, Structural)]
pub struct Mask {
    bits: u8,
}

impl Mask {
    /// The raw bits of this mask. Only the low four bits are ever set.
    pub closed spec fn bits_spec(&self) -> u8 {
        self.bits
    }

    /// Build a mask from raw bits, ignoring anything beyond the four
    /// submodule bits.
    pub fn from_bits_truncate(bits: u8) -> (m: Mask)
        ensures
            m.bits_spec() == bits & 0xF,
    {
        Mask { bits: bits & 0xF }
    }

    /// Read back the raw bits.
    pub fn bits(&self) -> (bits: u8)
        ensures
            bits == self.bits_spec(),
    {
        self.bits
    }

    /// The union of two masks.
    pub fn union(self, other: Mask) -> (m: Mask)
        ensures
            m.bits_spec() == self.bits_spec() | other.bits_spec(),
    {
        Mask { bits: self.bits | other.bits }
    }
}

/// Index for submodule access.
#[derive(Clone, Copy, Debug, PartialEq, Eq, Structural)]
pub enum SM {
    /// Submodule 0.
    SM0,
    /// Submodule 1.
    SM1,
    /// Submodule 2.
    SM2,
    /// Submodule 3.
    SM3,
}

/// The single bit that selects a submodule in a [`Mask`].
pub open spec fn sm_bit(sm: SM) -> u8 {
    match sm {
        SM::SM0 => 1,
        SM::SM1 => 2,
        SM::SM2 => 4,
        SM::SM3 => 8,
    }
}

impl SM {
    /// The mask value this submodule selects.
    pub closed spec fn mask_spec(self) -> Mask {
        Mask { bits: sm_bit(self) }
    }

    /// Return this submodule's bitmask.
    pub fn mask(self) -> (m: Mask)
        ensures
            m == self.mask_spec(),
            m.bits_spec() == sm_bit(self),
    {
        match self {
            SM::SM0 => Mask { bits: 1 },
            SM::SM1 => Mask { bits: 2 },
            SM::SM2 => Mask { bits: 4 },
            SM::SM3 => Mask { bits: 8 },
        }
    }
}

impl From<SM> for Mask {
    fn from(value: SM) -> (m: Mask) {
        value.mask()
    }
}

impl vstd::std_specs::convert::FromSpecImpl<SM> for Mask {
    open spec fn obeys_from_spec() -> bool {
        true
    }

    open spec fn from_spec(value: SM) -> Mask {
        value.mask_spec()
    }
}

/// PWM clock prescaler.
///
/// Affects all timing, except for the glitch filters.
#[derive(Clone, Copy, Debug, PartialEq, Eq, Structural)]
pub enum Prescaler {
    /// Divide the PWM clock by 1.
    Prescaler1,
    /// Divide the PWM clock by 2.
    Prescaler2,
    /// Divide the PWM clock by 4.
    Prescaler4,
    /// Divide the PWM clock by 8.
    Prescaler8,
    /// Divide the PWM clock by 16.
    Prescaler16,
    /// Divide the PWM clock by 32.
    Prescaler32,
    /// Divide the PWM clock by 64.
    Prescaler64,
    /// Divide the PWM clock by 128.
    Prescaler128,
}

/// The divisor a prescaler selection stands for.
pub open spec fn prescaler_divider(p: Prescaler) -> u32 {
    match p {
        Prescaler::Prescaler1 => 1,
        Prescaler::Prescaler2 => 2,
        Prescaler::Prescaler4 => 4,
        Prescaler::Prescaler8 => 8,
        Prescaler::Prescaler16 => 16,
        Prescaler::Prescaler32 => 32,
        Prescaler::Prescaler64 => 64,
        Prescaler::Prescaler128 => 128,
    }
}

impl Prescaler {
    /// Returns the prescaler value as a divisor.
    pub fn divider(self) -> (d: u32)
        ensures
            d == prescaler_divider(self),
    {
        match self {
            Prescaler::Prescaler1 => 1,
            Prescaler::Prescaler2 => 2,
            Prescaler::Prescaler4 => 4,
            Prescaler::Prescaler8 => 8,
            Prescaler::Prescaler16 => 16,
            Prescaler::Prescaler32 => 32,
            Prescaler::Prescaler64 => 64,
            Prescaler::Prescaler128 => 128,
        }
    }
}

/// Describes how PWM channels A and B operate.
#[derive(Clone, Copy, Debug, PartialEq, Eq, Structural)]
pub enum PairOperation {
    /// A and B form a complementary pair.
    Complementary,
    /// A and B operate independently.
    Independent,
}

/// PWM input clock selection.
#[derive(Clone, Copy, Debug, PartialEq, Eq, Structural)]
pub enum ClockSelect {
    /// Derive from the IPG clock.
    Ipg,
    /// Use EXT_CLK, an external clock.
    External,
    /// Use submodule 0's clock.
    ///
    /// The clock is controlled by SM0's run bit and affected by the SM0
    /// prescaler. You cannot use this clock for submodule 0 itself.
    Submodule0,
}

/// PWM (re)load mode.
///
/// Use the associated methods to simply define `ReloadCycle` values.
#[derive(Clone, Copy, Debug, PartialEq, Eq, Structural)]
pub enum LoadMode {
    /// Reload on the next cycle after `LDOK` is set.
    ///
    /// One of these should be set. You may set both to increase the reload
    /// opportunity frequency.
    ReloadCycle {
        /// Reload on a full cycle (VAL1 compares).
        full: bool,
        /// Reload on a half cycle (VAL0 compares).
        half: bool,
    },
    /// Reload immediately after `LDOK` is set.
    Immediate,
}

impl LoadMode {
    /// Full reload cycle.
    pub fn reload_full() -> (m: LoadMode)
        ensures
            m == (LoadMode::ReloadCycle { full: true, half: false }),
    {
        LoadMode::ReloadCycle { full: true, half: false }
    }

    /// Half reload cycle.
    pub fn reload_half() -> (m: LoadMode)
        ensures
            m == (LoadMode::ReloadCycle { full: false, half: true }),
    {
        LoadMode::ReloadCycle { full: false, half: true }
    }

    /// Full and half reload cycle.
    pub fn reload_both() -> (m: LoadMode)
        ensures
            m == (LoadMode::ReloadCycle { full: true, half: true }),
    {
        LoadMode::ReloadCycle { full: true, half: true }
    }
}

/// PWM value registers.
///
/// These value registers describe when PWM counters reset, and when outputs
/// turn on and off.
#[derive(Clone, Copy, Debug, PartialEq, Eq, Structural)]
pub enum ValueRegister {
    /// The half reload value register.
    Val0,
    /// The full reload value register.
    Val1,
    /// The [`turn_on`] register for [`Channel::A`].
    Val2,
    /// The [`turn_off`] register for [`Channel::A`].
    Val3,
    /// The [`turn_on`] register for [`Channel::B`].
    Val4,
    /// The [`turn_off`] register for [`Channel::B`].
    Val5,
}

/// The full reload value register.
///
/// When this register compares to the counter value, the counter resets.
pub const FULL_RELOAD_VALUE_REGISTER: ValueRegister = ValueRegister::Val1;

/// The half reload value register.
///
/// When this register compares to the counter value, it represents a half
/// reload opportunity.
pub const HALF_RELOAD_VALUE_REGISTER: ValueRegister = ValueRegister::Val0;

/// PWM channels.
#[derive(Clone, Copy, Debug, PartialEq, Eq, Structural)]
pub enum Channel {
    /// Channel A.
    A,
    /// Channel B.
    B,
}

/// Returns the "turn on" value register for an output channel.
///
/// When the counter compares to this value register, the PWM output turns on.
pub fn turn_on(channel: Channel) -> (v: ValueRegister)
    ensures
        channel is A ==> v is Val2,
        channel is B ==> v is Val4,
{
    match channel {
        Channel::A => ValueRegister::Val2,
        Channel::B => ValueRegister::Val4,
    }
}

/// Returns the "turn off" value register for an output channel.
///
/// When the counter compares to this value register, the PWM output turns off.
pub fn turn_off(channel: Channel) -> (v: ValueRegister)
    ensures
        channel is A ==> v is Val3,
        channel is B ==> v is Val5,
{
    match channel {
        Channel::A => ValueRegister::Val3,
        Channel::B => ValueRegister::Val5,
    }
}

} // verus!
