//! Analog-to-digital converter DMA support.
//!
//! [`DmaSource`] adapts an ADC instance so a DMA channel can collect its
//! conversion results: the engine reads the result register one half-word at
//! a time whenever a conversion completes. Conversion results enter the
//! model through [`DmaSource::stage_conversion`].

use vstd::prelude::*;

use crate::dma::peripheral::Source;

verus! {

/// The DMA request signal armed by each ADC instance's conversion-complete
/// condition.
///
/// The table is fixed per chip family and keyed by the instance number; an
/// instance outside the family's range maps to no signal.
pub open spec fn adc_receive_signal(instance: u8) -> u32 {
    match instance {
        1u8 => 24,
        2u8 => 88,
        _ => 0,
    }
}

/// The fixed address of each ADC instance's first result register.
pub open spec fn adc_result_address(instance: u8) -> u32 {
    if 1 <= instance <= 2 {
        (0x400C_4000 + (instance - 1) * 0x4000 + 0x24) as u32
    } else {
        0
    }
}

/// An ADC instance adapted as a DMA endpoint for its conversion results.
pub struct DmaSource {
    instance: u8,
    conversions: Vec<u16>,
    fetched: Ghost<Seq<u16>>,
    dma_enabled: bool,
}

impl DmaSource {
    /// The instance number this adapter was built for.
    pub closed spec fn instance_spec(&self) -> u8 {
        self.instance
    }

    /// Adapt the ADC with this instance number. Its DMA request line starts
    /// disabled and no conversion result waits.
    pub fn new(instance: u8) -> (r: DmaSource)
        requires
            1 <= instance <= 2,
        ensures
            r.instance_spec() == instance,
            r.source_queue() == Seq::<u16>::empty(),
            r.source_fetched() == Seq::<u16>::empty(),
            !r.source_request_enabled(),
            r.source_signal_spec() == adc_receive_signal(instance),
    {
        DmaSource {
            instance,
            conversions: Vec::new(),
            fetched: Ghost(Seq::empty()),
            dma_enabled: false,
        }
    }

    /// The address of the result register.
    pub fn r0(&self) -> (address: u32)
        ensures
            address == adc_result_address(self.instance_spec()),
    {
        if 1 <= self.instance && self.instance <= 2 {
            0x400C_4000 + (self.instance as u32 - 1) * 0x4000 + 0x24
        } else {
            0
        }
    }

    /// Set the converter's DMA enable bit.
    pub fn enable_dma(&mut self)
        ensures
            final(self).source_request_enabled(),
            final(self).source_queue() == old(self).source_queue(),
            final(self).source_fetched() == old(self).source_fetched(),
            final(self).instance_spec() == old(self).instance_spec(),
    {
        self.dma_enabled = true;
    }

    /// Clear the converter's DMA enable bit.
    pub fn disable_dma(&mut self)
        ensures
            !final(self).source_request_enabled(),
            final(self).source_queue() == old(self).source_queue(),
            final(self).source_fetched() == old(self).source_fetched(),
            final(self).instance_spec() == old(self).instance_spec(),
    {
        self.dma_enabled = false;
    }

    /// Whether the converter's DMA enable bit is set.
    pub fn is_dma_enabled(&self) -> (enabled: bool)
        ensures
            enabled == self.source_request_enabled(),
    {
        self.dma_enabled
    }

    /// Hardware model: a conversion completes and its result becomes
    /// readable.
    pub fn stage_conversion(&mut self, result: u16)
        ensures
            final(self).source_queue() == old(self).source_queue().push(result),
            final(self).source_fetched() == old(self).source_fetched(),
            final(self).source_request_enabled() == old(self).source_request_enabled(),
            final(self).instance_spec() == old(self).instance_spec(),
    {
        self.conversions.push(result);
    }
}

/// An ADC source adapter points to a result register that is always valid
/// for reads: the half-word-wide source capability.
impl Source<u16> for DmaSource {
    closed spec fn source_queue(&self) -> Seq<u16> {
        self.conversions@
    }

    closed spec fn source_fetched(&self) -> Seq<u16> {
        self.fetched@
    }

    closed spec fn source_request_enabled(&self) -> bool {
        self.dma_enabled
    }

    closed spec fn source_signal_spec(&self) -> u32 {
        adc_receive_signal(self.instance)
    }

    closed spec fn source_address_spec(&self) -> u32 {
        adc_result_address(self.instance)
    }

    fn source_signal(&self) -> u32 {
        match self.instance {
            1u8 => 24,
            2u8 => 88,
            _ => 0,
        }
    }

    fn source_address(&self) -> u32 {
        self.r0()
    }

    fn enable_source(&mut self) {
        self.dma_enabled = true;
    }

    fn disable_source(&mut self) {
        self.dma_enabled = false;
    }

    fn fetch(&mut self) -> (e: u16) {
        let e = self.conversions.remove(0);
        proof {
            self.fetched@ = self.fetched@.push(e);
            assert(self.conversions@ =~= old(self).conversions@.drop_first());
        }
        e
    }
}

} // verus!
