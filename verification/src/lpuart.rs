//! Low-power universal asynchronous receiver/transmitter.
//!
//! The driver models the peripheral's DMA-facing surface: the data register
//! the engine reads and writes one byte at a time, the DMA request enables,
//! and the request-signal mapping of each instance. Bytes arriving on the
//! wire enter the receive queue through [`Lpuart::stage_receive_data`];
//! bytes the engine transmits accumulate in an inspectable log.
//!
//! The UART acts as a DMA endpoint for byte-wide transfers in both
//! directions, so it implements the [`Source`] and [`Destination`]
//! capabilities at width one.

use vstd::prelude::*;

use crate::dma::channel::Channel;
use crate::dma::peripheral;
use crate::dma::peripheral::{ConfigurationError, Destination, Read, Source, Write};

verus! {

/// The DMA request signal armed by each UART instance's receive direction.
///
/// The table is fixed per chip family and keyed by the instance number; an
/// instance outside the family's range maps to no signal.
pub open spec fn lpuart_receive_signal(instance: u8) -> u32 {
    match instance {
        1u8 => 3,
        2u8 => 67,
        3u8 => 5,
        4u8 => 69,
        5u8 => 7,
        6u8 => 71,
        7u8 => 9,
        8u8 => 73,
        _ => 0,
    }
}

/// The DMA request signal armed by each UART instance's transmit direction.
pub open spec fn lpuart_transmit_signal(instance: u8) -> u32 {
    match instance {
        1u8 => 2,
        2u8 => 66,
        3u8 => 4,
        4u8 => 68,
        5u8 => 6,
        6u8 => 70,
        7u8 => 8,
        8u8 => 72,
        _ => 0,
    }
}

/// The fixed address of each UART instance's data register: the instance's
/// register block, plus the data register's offset within it.
pub open spec fn lpuart_data_address(instance: u8) -> u32 {
    if 1 <= instance <= 8 {
        (0x4018_4000 + (instance - 1) * 0x4000 + 0x1C) as u32
    } else {
        0
    }
}

/// A low-power UART instance.
pub struct Lpuart {
    instance: u8,
    transmitted: Vec<u8>,
    receive_queue: Vec<u8>,
    fetched: Ghost<Seq<u8>>,
    dma_transmit_enabled: bool,
    dma_receive_enabled: bool,
}

impl Lpuart {
    /// The instance number this driver was built for.
    pub closed spec fn instance_spec(&self) -> u8 {
        self.instance
    }

    /// Claim the UART with this instance number. Its DMA request lines start
    /// disabled, nothing has been transmitted, and no received data waits.
    pub fn new(instance: u8) -> (r: Lpuart)
        requires
            1 <= instance <= 8,
        ensures
            r.instance_spec() == instance,
            r.destination_log() == Seq::<u8>::empty(),
            r.source_queue() == Seq::<u8>::empty(),
            r.source_fetched() == Seq::<u8>::empty(),
            !r.destination_request_enabled(),
            !r.source_request_enabled(),
            r.source_signal_spec() == lpuart_receive_signal(instance),
            r.destination_signal_spec() == lpuart_transmit_signal(instance),
    {
        Lpuart {
            instance,
            transmitted: Vec::new(),
            receive_queue: Vec::new(),
            fetched: Ghost(Seq::empty()),
            dma_transmit_enabled: false,
            dma_receive_enabled: false,
        }
    }

    /// The address of the data register.
    pub fn data(&self) -> (address: u32)
        ensures
            address == lpuart_data_address(self.instance_spec()),
    {
        if 1 <= self.instance && self.instance <= 8 {
            0x4018_4000 + (self.instance as u32 - 1) * 0x4000 + 0x1C
        } else {
            0
        }
    }

    /// Set the transmit-DMA-request enable bit.
    pub fn enable_dma_transmit(&mut self)
        ensures
            final(self).destination_request_enabled(),
            final(self).source_request_enabled() == old(self).source_request_enabled(),
            final(self).source_queue() == old(self).source_queue(),
            final(self).source_fetched() == old(self).source_fetched(),
            final(self).destination_log() == old(self).destination_log(),
            final(self).instance_spec() == old(self).instance_spec(),
    {
        self.dma_transmit_enabled = true;
    }

    /// Clear the transmit-DMA-request enable bit.
    pub fn disable_dma_transmit(&mut self)
        ensures
            !final(self).destination_request_enabled(),
            final(self).source_request_enabled() == old(self).source_request_enabled(),
            final(self).source_queue() == old(self).source_queue(),
            final(self).source_fetched() == old(self).source_fetched(),
            final(self).destination_log() == old(self).destination_log(),
            final(self).instance_spec() == old(self).instance_spec(),
    {
        self.dma_transmit_enabled = false;
    }

    /// Set the receive-DMA-request enable bit.
    pub fn enable_dma_receive(&mut self)
        ensures
            final(self).source_request_enabled(),
            final(self).destination_request_enabled() == old(self).destination_request_enabled(),
            final(self).source_queue() == old(self).source_queue(),
            final(self).source_fetched() == old(self).source_fetched(),
            final(self).destination_log() == old(self).destination_log(),
            final(self).instance_spec() == old(self).instance_spec(),
    {
        self.dma_receive_enabled = true;
    }

    /// Clear the receive-DMA-request enable bit.
    pub fn disable_dma_receive(&mut self)
        ensures
            !final(self).source_request_enabled(),
            final(self).destination_request_enabled() == old(self).destination_request_enabled(),
            final(self).source_queue() == old(self).source_queue(),
            final(self).source_fetched() == old(self).source_fetched(),
            final(self).destination_log() == old(self).destination_log(),
            final(self).instance_spec() == old(self).instance_spec(),
    {
        self.dma_receive_enabled = false;
    }

    /// Whether the transmit-DMA-request enable bit is set.
    pub fn is_dma_transmit_enabled(&self) -> (enabled: bool)
        ensures
            enabled == self.destination_request_enabled(),
    {
        self.dma_transmit_enabled
    }

    /// Whether the receive-DMA-request enable bit is set.
    pub fn is_dma_receive_enabled(&self) -> (enabled: bool)
        ensures
            enabled == self.source_request_enabled(),
    {
        self.dma_receive_enabled
    }

    /// Hardware model: one byte arrives on the wire and joins the receive
    /// queue.
    pub fn stage_receive_data(&mut self, byte: u8)
        ensures
            final(self).source_queue() == old(self).source_queue().push(byte),
            final(self).source_fetched() == old(self).source_fetched(),
            final(self).destination_log() == old(self).destination_log(),
            final(self).source_request_enabled() == old(self).source_request_enabled(),
            final(self).destination_request_enabled() == old(self).destination_request_enabled(),
            final(self).instance_spec() == old(self).instance_spec(),
    {
        self.receive_queue.push(byte);
    }

    /// Every byte transmitted through the data register, in order.
    pub fn transmitted_data(&self) -> (data: &Vec<u8>)
        ensures
            data@ == self.destination_log(),
    {
        &self.transmitted
    }

    /// Use a DMA channel to write `buffer` out through the UART.
    ///
    /// The returned transfer completes once every byte has been moved into
    /// the data register. An empty buffer, or a channel whose minor loop is
    /// not one byte wide, is rejected before any state changes.
    pub fn dma_write(&mut self, channel: Channel, buffer: Vec<u8>) -> (result: Result<
        Write<u8>,
        (ConfigurationError, Channel, Vec<u8>),
    >)
        requires
            channel@.wf(),
            channel@.idle(),
            !channel@.error,
            !old(self).destination_request_enabled(),
            buffer@.len() <= u16::MAX,
        ensures
            *final(self) == *old(self),
            buffer@.len() == 0 ==> (result matches Err((e, c, b)) && e is EmptyBuffer && c@
                == channel@ && b@ == buffer@),
            buffer@.len() > 0 && channel@.minor_loop_bytes != 1 ==> (result matches
                Err((e, c, b)) && e is ElementWidthMismatch && c@ == channel@ && b@ == buffer@),
            buffer@.len() > 0 && channel@.minor_loop_bytes == 1 ==> (result matches Ok(t) && {
                &&& t.wf()
                &&& peripheral::write_coupled(t, *final(self))
                &&& t.phase_spec() is Programmed
                &&& t.elements() == buffer@
                &&& t.delivered() == 0
                &&& t.base_log() == old(self).destination_log()
                &&& t.signal_spec() == lpuart_transmit_signal(old(self).instance_spec())
                &&& t.channel_view().index == channel@.index
            }),
    {
        peripheral::write(channel, buffer, self)
    }

    /// Use a DMA channel to read data from the UART into `buffer`.
    ///
    /// The returned transfer completes once the buffer is filled. An empty
    /// buffer, or a channel whose minor loop is not one byte wide, is
    /// rejected before any state changes.
    pub fn dma_read(&mut self, channel: Channel, buffer: Vec<u8>) -> (result: Result<
        Read<u8>,
        (ConfigurationError, Channel, Vec<u8>),
    >)
        requires
            channel@.wf(),
            channel@.idle(),
            !channel@.error,
            !old(self).source_request_enabled(),
            buffer@.len() <= u16::MAX,
        ensures
            *final(self) == *old(self),
            buffer@.len() == 0 ==> (result matches Err((e, c, b)) && e is EmptyBuffer && c@
                == channel@ && b@ == buffer@),
            buffer@.len() > 0 && channel@.minor_loop_bytes != 1 ==> (result matches
                Err((e, c, b)) && e is ElementWidthMismatch && c@ == channel@ && b@ == buffer@),
            buffer@.len() > 0 && channel@.minor_loop_bytes == 1 ==> (result matches Ok(t) && {
                &&& t.wf()
                &&& peripheral::read_coupled(t, *final(self))
                &&& t.phase_spec() is Programmed
                &&& t.elements() == buffer@
                &&& t.original_elements() == buffer@
                &&& t.received_elements() == Seq::<u8>::empty()
                &&& t.received_count() == 0
                &&& t.base_fetched() == old(self).source_fetched()
                &&& t.signal_spec() == lpuart_receive_signal(old(self).instance_spec())
                &&& t.channel_view().index == channel@.index
            }),
    {
        peripheral::read(channel, self, buffer)
    }
}

/// A UART can support reads performed by a DMA engine from its data
/// register: the byte-wide source capability.
impl Source<u8> for Lpuart {
    closed spec fn source_queue(&self) -> Seq<u8> {
        self.receive_queue@
    }

    closed spec fn source_fetched(&self) -> Seq<u8> {
        self.fetched@
    }

    closed spec fn source_request_enabled(&self) -> bool {
        self.dma_receive_enabled
    }

    closed spec fn source_signal_spec(&self) -> u32 {
        lpuart_receive_signal(self.instance)
    }

    closed spec fn source_address_spec(&self) -> u32 {
        lpuart_data_address(self.instance)
    }

    fn source_signal(&self) -> u32 {
        match self.instance {
            1u8 => 3,
            2u8 => 67,
            3u8 => 5,
            4u8 => 69,
            5u8 => 7,
            6u8 => 71,
            7u8 => 9,
            8u8 => 73,
            _ => 0,
        }
    }

    fn source_address(&self) -> u32 {
        self.data()
    }

    fn enable_source(&mut self) {
        self.dma_receive_enabled = true;
    }

    fn disable_source(&mut self) {
        self.dma_receive_enabled = false;
    }

    fn fetch(&mut self) -> (e: u8) {
        let e = self.receive_queue.remove(0);
        proof {
            self.fetched@ = self.fetched@.push(e);
            assert(self.receive_queue@ =~= old(self).receive_queue@.drop_first());
        }
        e
    }
}

/// A UART can support writes from a DMA engine into its data register: the
/// byte-wide destination capability.
impl Destination<u8> for Lpuart {
    closed spec fn destination_log(&self) -> Seq<u8> {
        self.transmitted@
    }

    closed spec fn destination_request_enabled(&self) -> bool {
        self.dma_transmit_enabled
    }

    closed spec fn destination_signal_spec(&self) -> u32 {
        lpuart_transmit_signal(self.instance)
    }

    closed spec fn destination_address_spec(&self) -> u32 {
        lpuart_data_address(self.instance)
    }

    fn destination_signal(&self) -> u32 {
        match self.instance {
            1u8 => 2,
            2u8 => 66,
            3u8 => 4,
            4u8 => 68,
            5u8 => 6,
            6u8 => 70,
            7u8 => 8,
            8u8 => 72,
            _ => 0,
        }
    }

    fn destination_address(&self) -> u32 {
        self.data()
    }

    fn enable_destination(&mut self) {
        self.dma_transmit_enabled = true;
    }

    fn disable_destination(&mut self) {
        self.dma_transmit_enabled = false;
    }

    fn deliver(&mut self, e: u8) {
        self.transmitted.push(e);
    }
}

} // verus!
