//! Low-power serial peripheral interface.
//!
//! The driver models the peripheral's DMA-facing surface: the transmit and
//! receive data registers the engine writes and reads one word at a time,
//! the DMA request enables, the command queue that frames each bus
//! transaction, and the request-signal mapping of each instance.
//!
//! The modeled bus is loopback-wired: every word written to the transmit
//! register is shifted back into the receive queue, in order — the
//! configuration a full-duplex round trip runs against. Words shifted in by
//! a remote device are staged with [`Lpspi::stage_receive_data`].
//!
//! The SPI acts as a DMA endpoint for word-wide transfers in both
//! directions, and a single buffer may be safely read and written through it
//! simultaneously, so it implements the [`Source`], [`Destination`] and
//! [`Bidirectional`] capabilities at width four.

use vstd::prelude::*;
use vstd::pervasive::unreached;

use crate::dma::channel::Channel;
use crate::dma::peripheral;
use crate::dma::peripheral::{
    Bidirectional, ConfigurationError, Destination, FullDuplex, Read, Source, Write,
};

verus! {

/// Possible errors when interfacing the LPSPI.
#[derive(Clone, Copy, Debug, PartialEq, Eq, Structural)]
pub enum LpspiError {
    /// The transmit command queue has no space for another transaction.
    Busy,
    /// Caller provided no data.
    NoData,
    /// The transaction frame size is incorrect: a frame carries between 1
    /// and 128 32-bit words.
    FrameSize,
    /// The DMA transfer could not be configured.
    Dma(ConfigurationError),
}

/// One framed bus transaction, as enqueued on the transmit command queue.
#[derive(Clone, Copy, Debug, PartialEq, Eq, Structural)]
pub struct Transaction {
    /// The frame size in bits.
    pub frame_size: u16,
    /// Discard everything the bus shifts in during this transaction.
    pub receive_data_mask: bool,
    /// Drive the bus without popping transmit data for this transaction.
    pub transmit_data_mask: bool,
}

/// The largest number of 32-bit words one framed transaction can carry: the
/// frame-size field holds at most 4096 bits.
pub const MAX_FRAME_WORDS: usize = 128;

/// The DMA request signal armed by each SPI instance's receive direction.
///
/// The table is fixed per chip family and keyed by the instance number; an
/// instance outside the family's range maps to no signal.
pub open spec fn lpspi_receive_signal(instance: u8) -> u32 {
    match instance {
        1u8 => 13,
        2u8 => 77,
        3u8 => 15,
        4u8 => 79,
        _ => 0,
    }
}

/// The DMA request signal armed by each SPI instance's transmit direction.
pub open spec fn lpspi_transmit_signal(instance: u8) -> u32 {
    match instance {
        1u8 => 14,
        2u8 => 78,
        3u8 => 16,
        4u8 => 80,
        _ => 0,
    }
}

/// The fixed address of each SPI instance's receive data register.
pub open spec fn lpspi_receive_address(instance: u8) -> u32 {
    if 1 <= instance <= 4 {
        (0x4039_4000 + (instance - 1) * 0x4000 + 0x74) as u32
    } else {
        0
    }
}

/// The fixed address of each SPI instance's transmit data register.
pub open spec fn lpspi_transmit_address(instance: u8) -> u32 {
    if 1 <= instance <= 4 {
        (0x4039_4000 + (instance - 1) * 0x4000 + 0x64) as u32
    } else {
        0
    }
}

/// A low-power SPI instance, loopback-wired.
pub struct Lpspi {
    instance: u8,
    receive_queue: Vec<u32>,
    transmitted: Vec<u32>,
    fetched: Ghost<Seq<u32>>,
    dma_transmit_enabled: bool,
    dma_receive_enabled: bool,
    transactions: Vec<Transaction>,
    transmit_fifo_full: bool,
}

impl Lpspi {
    /// The instance number this driver was built for.
    pub closed spec fn instance_spec(&self) -> u8 {
        self.instance
    }

    /// The transactions enqueued on the transmit command queue, in order.
    pub closed spec fn transactions_spec(&self) -> Seq<Transaction> {
        self.transactions@
    }

    /// Whether the transmit command queue has space for another transaction.
    pub closed spec fn transmit_fifo_full_spec(&self) -> bool {
        self.transmit_fifo_full
    }

    /// Claim the SPI with this instance number. Its DMA request lines start
    /// disabled, nothing has been transmitted or enqueued, and no received
    /// data waits.
    pub fn new(instance: u8) -> (r: Lpspi)
        requires
            1 <= instance <= 4,
        ensures
            r.instance_spec() == instance,
            r.destination_log() == Seq::<u32>::empty(),
            r.source_queue() == Seq::<u32>::empty(),
            r.source_fetched() == Seq::<u32>::empty(),
            r.transactions_spec() == Seq::<Transaction>::empty(),
            !r.destination_request_enabled(),
            !r.source_request_enabled(),
            !r.transmit_fifo_full_spec(),
            r.is_loopback(),
            r.source_signal_spec() == lpspi_receive_signal(instance),
            r.destination_signal_spec() == lpspi_transmit_signal(instance),
    {
        Lpspi {
            instance,
            receive_queue: Vec::new(),
            transmitted: Vec::new(),
            fetched: Ghost(Seq::empty()),
            dma_transmit_enabled: false,
            dma_receive_enabled: false,
            transactions: Vec::new(),
            transmit_fifo_full: false,
        }
    }

    /// The address of the receive data register.
    pub fn rdr(&self) -> (address: u32)
        ensures
            address == lpspi_receive_address(self.instance_spec()),
    {
        if 1 <= self.instance && self.instance <= 4 {
            0x4039_4000 + (self.instance as u32 - 1) * 0x4000 + 0x74
        } else {
            0
        }
    }

    /// The address of the transmit data register.
    pub fn tdr(&self) -> (address: u32)
        ensures
            address == lpspi_transmit_address(self.instance_spec()),
    {
        if 1 <= self.instance && self.instance <= 4 {
            0x4039_4000 + (self.instance as u32 - 1) * 0x4000 + 0x64
        } else {
            0
        }
    }

    /// Set the receive-DMA-request enable bit.
    pub fn enable_dma_receive(&mut self)
        ensures
            final(self).source_request_enabled(),
            final(self).destination_request_enabled() == old(self).destination_request_enabled(),
            unchanged_but_requests(*old(self), *final(self)),
    {
        self.dma_receive_enabled = true;
    }

    /// Clear the receive-DMA-request enable bit.
    pub fn disable_dma_receive(&mut self)
        ensures
            !final(self).source_request_enabled(),
            final(self).destination_request_enabled() == old(self).destination_request_enabled(),
            unchanged_but_requests(*old(self), *final(self)),
    {
        self.dma_receive_enabled = false;
    }

    /// Set the transmit-DMA-request enable bit.
    pub fn enable_dma_transmit(&mut self)
        ensures
            final(self).destination_request_enabled(),
            final(self).source_request_enabled() == old(self).source_request_enabled(),
            unchanged_but_requests(*old(self), *final(self)),
    {
        self.dma_transmit_enabled = true;
    }

    /// Clear the transmit-DMA-request enable bit.
    pub fn disable_dma_transmit(&mut self)
        ensures
            !final(self).destination_request_enabled(),
            final(self).source_request_enabled() == old(self).source_request_enabled(),
            unchanged_but_requests(*old(self), *final(self)),
    {
        self.dma_transmit_enabled = false;
    }

    /// Whether the transmit-DMA-request enable bit is set.
    pub fn is_dma_transmit_enabled(&self) -> (enabled: bool)
        ensures
            enabled == self.destination_request_enabled(),
    {
        self.dma_transmit_enabled
    }

    /// Whether the receive-DMA-request enable bit is set.
    pub fn is_dma_receive_enabled(&self) -> (enabled: bool)
        ensures
            enabled == self.source_request_enabled(),
    {
        self.dma_receive_enabled
    }

    /// Hardware model: a remote device shifts one word in, joining the
    /// receive queue.
    pub fn stage_receive_data(&mut self, word: u32)
        ensures
            final(self).source_queue() == old(self).source_queue().push(word),
            final(self).source_fetched() == old(self).source_fetched(),
            final(self).destination_log() == old(self).destination_log(),
            final(self).transactions_spec() == old(self).transactions_spec(),
            final(self).source_request_enabled() == old(self).source_request_enabled(),
            final(self).destination_request_enabled() == old(self).destination_request_enabled(),
            final(self).transmit_fifo_full_spec() == old(self).transmit_fifo_full_spec(),
            final(self).instance_spec() == old(self).instance_spec(),
    {
        self.receive_queue.push(word);
    }

    /// Hardware model: force or release the transmit command queue's full
    /// condition.
    pub fn set_transmit_fifo_full(&mut self, full: bool)
        ensures
            final(self).transmit_fifo_full_spec() == full,
            final(self).source_queue() == old(self).source_queue(),
            final(self).source_fetched() == old(self).source_fetched(),
            final(self).destination_log() == old(self).destination_log(),
            final(self).transactions_spec() == old(self).transactions_spec(),
            final(self).source_request_enabled() == old(self).source_request_enabled(),
            final(self).destination_request_enabled() == old(self).destination_request_enabled(),
            final(self).instance_spec() == old(self).instance_spec(),
    {
        self.transmit_fifo_full = full;
    }

    /// Every word transmitted through the transmit data register, in order.
    pub fn transmitted_data(&self) -> (data: &Vec<u32>)
        ensures
            data@ == self.destination_log(),
    {
        &self.transmitted
    }

    /// The transactions enqueued on the transmit command queue, in order.
    pub fn enqueued_transactions(&self) -> (transactions: &Vec<Transaction>)
        ensures
            transactions@ == self.transactions_spec(),
    {
        &self.transactions
    }

    /// Frame a bus transaction for a buffer of `len` 32-bit words.
    ///
    /// An empty buffer carries no frame; more than [`MAX_FRAME_WORDS`] words
    /// overflow the frame-size field.
    pub fn bus_transaction(&self, len: usize) -> (result: Result<Transaction, LpspiError>)
        ensures
            len == 0 ==> result == Result::<Transaction, LpspiError>::Err(LpspiError::NoData),
            len > MAX_FRAME_WORDS ==> result == Result::<Transaction, LpspiError>::Err(
                LpspiError::FrameSize,
            ),
            1 <= len <= MAX_FRAME_WORDS ==> result == Result::<Transaction, LpspiError>::Ok(
                Transaction {
                    frame_size: (len * 32) as u16,
                    receive_data_mask: false,
                    transmit_data_mask: false,
                },
            ),
    {
        if len == 0 {
            Err(LpspiError::NoData)
        } else if len > MAX_FRAME_WORDS {
            Err(LpspiError::FrameSize)
        } else {
            Ok(
                Transaction {
                    frame_size: (len * 32) as u16,
                    receive_data_mask: false,
                    transmit_data_mask: false,
                },
            )
        }
    }

    /// Wait until the transmit command queue has space. The model reports
    /// the queue's condition instead of blocking: a full queue surfaces as
    /// [`LpspiError::Busy`].
    pub fn wait_for_transmit_fifo_space(&self) -> (result: Result<(), LpspiError>)
        ensures
            self.transmit_fifo_full_spec() ==> result == Result::<(), LpspiError>::Err(
                LpspiError::Busy,
            ),
            !self.transmit_fifo_full_spec() ==> result is Ok,
    {
        if self.transmit_fifo_full {
            Err(LpspiError::Busy)
        } else {
            Ok(())
        }
    }

    /// Use a DMA channel to write `buffer` out through the SPI.
    ///
    /// The returned transfer completes once every word has been moved into
    /// the transmit data register. The call frames and enqueues a bus
    /// transaction that masks receive data. Failures are reported before any
    /// state changes: no data, an overlong frame, a channel whose minor loop
    /// is not four bytes wide, or a full command queue.
    pub fn dma_write(&mut self, channel: Channel, buffer: Vec<u32>) -> (result: Result<
        Write<u32>,
        (LpspiError, Channel, Vec<u32>),
    >)
        requires
            channel@.wf(),
            channel@.idle(),
            !channel@.error,
            !old(self).destination_request_enabled(),
        ensures
            result is Err ==> (result matches Err((_, c, b)) && c@ == channel@ && b@ == buffer@
                && *final(self) == *old(self)),
            buffer@.len() == 0 ==> (result matches Err((e, _, _)) && e is NoData),
            buffer@.len() > MAX_FRAME_WORDS ==> (result matches Err((e, _, _))
                && e is FrameSize),
            1 <= buffer@.len() <= MAX_FRAME_WORDS && channel@.minor_loop_bytes != 4 ==> (result
                matches Err((e, _, _)) && e == LpspiError::Dma(
                ConfigurationError::ElementWidthMismatch,
            )),
            1 <= buffer@.len() <= MAX_FRAME_WORDS && channel@.minor_loop_bytes == 4 && old(
                self,
            ).transmit_fifo_full_spec() ==> (result matches Err((e, _, _)) && e is Busy),
            1 <= buffer@.len() <= MAX_FRAME_WORDS && channel@.minor_loop_bytes == 4 && !old(
                self,
            ).transmit_fifo_full_spec() ==> (result matches Ok(t) && {
                &&& t.wf()
                &&& peripheral::write_coupled(t, *final(self))
                &&& t.phase_spec() is Programmed
                &&& t.elements() == buffer@
                &&& t.delivered() == 0
                &&& t.base_log() == old(self).destination_log()
                &&& t.signal_spec() == lpspi_transmit_signal(old(self).instance_spec())
                &&& t.channel_view().index == channel@.index
                &&& final(self).transactions_spec() == old(self).transactions_spec().push(
                    Transaction {
                        frame_size: (buffer@.len() * 32) as u16,
                        receive_data_mask: true,
                        transmit_data_mask: false,
                    },
                )
                &&& final(self).source_queue() == old(self).source_queue()
                &&& final(self).source_fetched() == old(self).source_fetched()
                &&& final(self).destination_log() == old(self).destination_log()
                &&& !final(self).destination_request_enabled()
                &&& final(self).source_request_enabled() == old(self).source_request_enabled()
                &&& final(self).transmit_fifo_full_spec() == old(self).transmit_fifo_full_spec()
                &&& final(self).instance_spec() == old(self).instance_spec()
            }),
    {
        let mut transaction = match self.bus_transaction(buffer.len()) {
            Ok(t) => t,
            Err(e) => {
                return Err((e, channel, buffer));
            },
        };
        if channel.minor_loop_bytes() != 4 {
            return Err(
                (LpspiError::Dma(ConfigurationError::ElementWidthMismatch), channel, buffer),
            );
        }
        transaction.receive_data_mask = true;
        match self.wait_for_transmit_fifo_space() {
            Ok(()) => {},
            Err(e) => {
                return Err((e, channel, buffer));
            },
        }
        self.enqueue_transaction(&transaction);
        match peripheral::write(channel, buffer, self) {
            Ok(task) => Ok(task),
            Err(_) => unreached(),
        }
    }

    /// Use a DMA channel to read data from the SPI into `buffer`.
    ///
    /// The returned transfer completes once the buffer is filled. The call
    /// frames and enqueues a bus transaction that masks transmit data.
    /// Failures are reported before any state changes, as for
    /// [`Lpspi::dma_write`].
    pub fn dma_read(&mut self, channel: Channel, buffer: Vec<u32>) -> (result: Result<
        Read<u32>,
        (LpspiError, Channel, Vec<u32>),
    >)
        requires
            channel@.wf(),
            channel@.idle(),
            !channel@.error,
            !old(self).source_request_enabled(),
        ensures
            result is Err ==> (result matches Err((_, c, b)) && c@ == channel@ && b@ == buffer@
                && *final(self) == *old(self)),
            buffer@.len() == 0 ==> (result matches Err((e, _, _)) && e is NoData),
            buffer@.len() > MAX_FRAME_WORDS ==> (result matches Err((e, _, _))
                && e is FrameSize),
            1 <= buffer@.len() <= MAX_FRAME_WORDS && channel@.minor_loop_bytes != 4 ==> (result
                matches Err((e, _, _)) && e == LpspiError::Dma(
                ConfigurationError::ElementWidthMismatch,
            )),
            1 <= buffer@.len() <= MAX_FRAME_WORDS && channel@.minor_loop_bytes == 4 && old(
                self,
            ).transmit_fifo_full_spec() ==> (result matches Err((e, _, _)) && e is Busy),
            1 <= buffer@.len() <= MAX_FRAME_WORDS && channel@.minor_loop_bytes == 4 && !old(
                self,
            ).transmit_fifo_full_spec() ==> (result matches Ok(t) && {
                &&& t.wf()
                &&& peripheral::read_coupled(t, *final(self))
                &&& t.phase_spec() is Programmed
                &&& t.elements() == buffer@
                &&& t.original_elements() == buffer@
                &&& t.received_elements() == Seq::<u32>::empty()
                &&& t.received_count() == 0
                &&& t.base_fetched() == old(self).source_fetched()
                &&& t.signal_spec() == lpspi_receive_signal(old(self).instance_spec())
                &&& t.channel_view().index == channel@.index
                &&& final(self).transactions_spec() == old(self).transactions_spec().push(
                    Transaction {
                        frame_size: (buffer@.len() * 32) as u16,
                        receive_data_mask: false,
                        transmit_data_mask: true,
                    },
                )
                &&& final(self).source_queue() == old(self).source_queue()
                &&& final(self).source_fetched() == old(self).source_fetched()
                &&& final(self).destination_log() == old(self).destination_log()
                &&& !final(self).source_request_enabled()
                &&& final(self).destination_request_enabled() == old(
                    self,
                ).destination_request_enabled()
                &&& final(self).transmit_fifo_full_spec() == old(self).transmit_fifo_full_spec()
                &&& final(self).instance_spec() == old(self).instance_spec()
            }),
    {
        let mut transaction = match self.bus_transaction(buffer.len()) {
            Ok(t) => t,
            Err(e) => {
                return Err((e, channel, buffer));
            },
        };
        if channel.minor_loop_bytes() != 4 {
            return Err(
                (LpspiError::Dma(ConfigurationError::ElementWidthMismatch), channel, buffer),
            );
        }
        transaction.transmit_data_mask = true;
        match self.wait_for_transmit_fifo_space() {
            Ok(()) => {},
            Err(e) => {
                return Err((e, channel, buffer));
            },
        }
        self.enqueue_transaction(&transaction);
        match peripheral::read(channel, self, buffer) {
            Ok(task) => Ok(task),
            Err(_) => unreached(),
        }
    }

    /// Use two DMA channels to simultaneously read and write a single
    /// buffer through the SPI.
    ///
    /// The returned transfer completes once every word has been sent and the
    /// buffer refilled with what came back. The call frames and enqueues a
    /// bus transaction with neither data mask set. Failures are reported
    /// before any state changes, as for [`Lpspi::dma_write`]; either
    /// channel's minor loop may raise the width mismatch.
    pub fn dma_full_duplex(&mut self, rx: Channel, tx: Channel, buffer: Vec<u32>) -> (result:
        Result<FullDuplex<u32>, (LpspiError, Channel, Channel, Vec<u32>)>)
        requires
            rx@.wf(),
            tx@.wf(),
            rx@.idle(),
            tx@.idle(),
            !rx@.error,
            !tx@.error,
            !old(self).source_request_enabled(),
            !old(self).destination_request_enabled(),
        ensures
            result is Err ==> (result matches Err((_, rc, tc, b)) && rc@ == rx@ && tc@ == tx@
                && b@ == buffer@ && *final(self) == *old(self)),
            buffer@.len() == 0 ==> (result matches Err((e, _, _, _)) && e is NoData),
            buffer@.len() > MAX_FRAME_WORDS ==> (result matches Err((e, _, _, _))
                && e is FrameSize),
            1 <= buffer@.len() <= MAX_FRAME_WORDS && (rx@.minor_loop_bytes != 4
                || tx@.minor_loop_bytes != 4) ==> (result matches Err((e, _, _, _)) && e
                == LpspiError::Dma(ConfigurationError::ElementWidthMismatch)),
            1 <= buffer@.len() <= MAX_FRAME_WORDS && rx@.minor_loop_bytes == 4
                && tx@.minor_loop_bytes == 4 && old(self).transmit_fifo_full_spec() ==> (result
                matches Err((e, _, _, _)) && e is Busy),
            1 <= buffer@.len() <= MAX_FRAME_WORDS && rx@.minor_loop_bytes == 4
                && tx@.minor_loop_bytes == 4 && !old(self).transmit_fifo_full_spec() ==> (result
                matches Ok(t) && {
                &&& t.wf()
                &&& peripheral::duplex_coupled(t, *final(self))
                &&& t.phase_spec() is Programmed
                &&& t.elements() == buffer@
                &&& t.original_elements() == buffer@
                &&& t.received_elements() == Seq::<u32>::empty()
                &&& t.sent_count() == 0
                &&& t.received_count() == 0
                &&& t.base_log() == old(self).destination_log()
                &&& t.base_fetched() == old(self).source_fetched()
                &&& t.source_signal_spec() == lpspi_receive_signal(old(self).instance_spec())
                &&& t.destination_signal_spec() == lpspi_transmit_signal(
                    old(self).instance_spec(),
                )
                &&& t.rx_channel_view().index == rx@.index
                &&& t.tx_channel_view().index == tx@.index
                &&& t.round_trip() == (old(self).source_queue().len() == 0)
                &&& final(self).transactions_spec() == old(self).transactions_spec().push(
                    Transaction {
                        frame_size: (buffer@.len() * 32) as u16,
                        receive_data_mask: false,
                        transmit_data_mask: false,
                    },
                )
                &&& final(self).source_queue() == old(self).source_queue()
                &&& final(self).source_fetched() == old(self).source_fetched()
                &&& final(self).destination_log() == old(self).destination_log()
                &&& !final(self).source_request_enabled()
                &&& !final(self).destination_request_enabled()
                &&& final(self).transmit_fifo_full_spec() == old(self).transmit_fifo_full_spec()
                &&& final(self).instance_spec() == old(self).instance_spec()
            }),
    {
        let transaction = match self.bus_transaction(buffer.len()) {
            Ok(t) => t,
            Err(e) => {
                return Err((e, rx, tx, buffer));
            },
        };
        if rx.minor_loop_bytes() != 4 || tx.minor_loop_bytes() != 4 {
            return Err(
                (LpspiError::Dma(ConfigurationError::ElementWidthMismatch), rx, tx, buffer),
            );
        }
        match self.wait_for_transmit_fifo_space() {
            Ok(()) => {},
            Err(e) => {
                return Err((e, rx, tx, buffer));
            },
        }
        self.enqueue_transaction(&transaction);
        match peripheral::full_duplex(rx, tx, self, buffer) {
            Ok(task) => Ok(task),
            Err(_) => unreached(),
        }
    }

    /// Enqueue a framed transaction on the transmit command queue.
    pub fn enqueue_transaction(&mut self, transaction: &Transaction)
        ensures
            final(self).transactions_spec() == old(self).transactions_spec().push(*transaction),
            final(self).source_queue() == old(self).source_queue(),
            final(self).source_fetched() == old(self).source_fetched(),
            final(self).destination_log() == old(self).destination_log(),
            final(self).source_request_enabled() == old(self).source_request_enabled(),
            final(self).destination_request_enabled() == old(self).destination_request_enabled(),
            final(self).transmit_fifo_full_spec() == old(self).transmit_fifo_full_spec(),
            final(self).instance_spec() == old(self).instance_spec(),
    {
        self.transactions.push(*transaction);
    }
}

/// Everything of an SPI's model except its request-line enables is the same
/// in `pre` and `post`.
pub open spec fn unchanged_but_requests(pre: Lpspi, post: Lpspi) -> bool {
    &&& post.source_queue() == pre.source_queue()
    &&& post.source_fetched() == pre.source_fetched()
    &&& post.destination_log() == pre.destination_log()
    &&& post.transactions_spec() == pre.transactions_spec()
    &&& post.transmit_fifo_full_spec() == pre.transmit_fifo_full_spec()
    &&& post.instance_spec() == pre.instance_spec()
}

/// An SPI can provide data for a DMA transfer: its receive data register is
/// the word-wide source capability.
impl Source<u32> for Lpspi {
    closed spec fn source_queue(&self) -> Seq<u32> {
        self.receive_queue@
    }

    closed spec fn source_fetched(&self) -> Seq<u32> {
        self.fetched@
    }

    closed spec fn source_request_enabled(&self) -> bool {
        self.dma_receive_enabled
    }

    closed spec fn source_signal_spec(&self) -> u32 {
        lpspi_receive_signal(self.instance)
    }

    closed spec fn source_address_spec(&self) -> u32 {
        lpspi_receive_address(self.instance)
    }

    fn source_signal(&self) -> u32 {
        match self.instance {
            1u8 => 13,
            2u8 => 77,
            3u8 => 15,
            4u8 => 79,
            _ => 0,
        }
    }

    fn source_address(&self) -> u32 {
        self.rdr()
    }

    fn enable_source(&mut self) {
        self.dma_receive_enabled = true;
    }

    fn disable_source(&mut self) {
        self.dma_receive_enabled = false;
    }

    fn fetch(&mut self) -> (e: u32) {
        let e = self.receive_queue.remove(0);
        proof {
            self.fetched@ = self.fetched@.push(e);
            assert(self.receive_queue@ =~= old(self).receive_queue@.drop_first());
        }
        e
    }
}

/// An SPI can receive data for a DMA transfer: its transmit data register is
/// the word-wide destination capability.
///
/// A write-only transfer runs under a transaction whose receive data mask is
/// set, so whatever the bus shifts back during [`deliver`](Destination::deliver)
/// is discarded and the receive queue stays as it was; only the unmasked
/// bidirectional path loops transmitted words back.
impl Destination<u32> for Lpspi {
    closed spec fn destination_log(&self) -> Seq<u32> {
        self.transmitted@
    }

    closed spec fn destination_request_enabled(&self) -> bool {
        self.dma_transmit_enabled
    }

    closed spec fn destination_signal_spec(&self) -> u32 {
        lpspi_transmit_signal(self.instance)
    }

    closed spec fn destination_address_spec(&self) -> u32 {
        lpspi_transmit_address(self.instance)
    }

    fn destination_signal(&self) -> u32 {
        match self.instance {
            1u8 => 14,
            2u8 => 78,
            3u8 => 16,
            4u8 => 80,
            _ => 0,
        }
    }

    fn destination_address(&self) -> u32 {
        self.tdr()
    }

    fn enable_destination(&mut self) {
        self.dma_transmit_enabled = true;
    }

    fn disable_destination(&mut self) {
        self.dma_transmit_enabled = false;
    }

    fn deliver(&mut self, e: u32) {
        self.transmitted.push(e);
    }
}

/// An SPI can perform bidirectional I/O from a single buffer; reads from
/// the buffer are always performed before writes. The modeled bus is
/// loopback-wired: every delivered word joins the receive queue.
impl Bidirectional<u32> for Lpspi {
    closed spec fn is_loopback(&self) -> bool {
        true
    }

    fn duplex_arm(&mut self) {
        self.dma_receive_enabled = true;
        self.dma_transmit_enabled = true;
    }

    fn duplex_halt(&mut self) {
        self.dma_receive_enabled = false;
        self.dma_transmit_enabled = false;
    }

    fn duplex_deliver(&mut self, e: u32) {
        self.transmitted.push(e);
        self.receive_queue.push(e);
    }

    fn duplex_fetch(&mut self) -> (e: u32) {
        let e = self.receive_queue.remove(0);
        proof {
            self.fetched@ = self.fetched@.push(e);
            assert(self.receive_queue@ =~= old(self).receive_queue@.drop_first());
        }
        e
    }
}

} // verus!
