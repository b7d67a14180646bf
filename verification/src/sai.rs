//! Synchronous Audio Interface.
//!
//! [`Sai`] provides a pair of synchronous audio word streams containing
//! stereo data, exposing the peripheral's lower-level, hardware-dependent
//! audio stream configuration and FIFO pair.
//!
//! Each instance has at minimum a tx and rx data line. Each data line
//! supports up to 32 audio words per frame; audio words are 8 to 32 bits.
//! Each data line comes with its own 32-deep FIFO allowing a full frame to
//! be sent or received without software interaction.
//!
//! The configuration of the SAI is encoded in a configuration structure that
//! can be used with a singular configure method. The register block is
//! represented by [`SaiRegisterBlock`], a model holding the transmit and
//! receive control fields as plain values.

use vstd::prelude::*;

verus! {

/// The order bits leave or enter the serial data line.
#[derive(Clone, Copy, Debug, PartialEq, Eq, Structural)]
pub enum SaiByteOrder {
    /// Least significant bit first.
    LSB,
    /// Most significant bit first.
    MSB,
}

/// The active level of a clock or frame-sync line.
#[derive(Clone, Copy, Debug, PartialEq, Eq, Structural)]
pub enum SaiClockPolarity {
    /// The line is active high; data is sampled on the falling edge.
    ActiveHigh,
    /// The line is active low; data is sampled on the rising edge.
    ActiveLow,
}

/// Frame synchronization configuration.
#[derive(Clone, Copy, Debug, PartialEq, Eq, Structural)]
pub struct SaiFrameSync {
    /// Width of the frame-sync pulse in bit clocks.
    pub sync_width: u8,
    /// Assert frame sync one bit clock early.
    pub sync_early: bool,
    /// Polarity of the frame-sync line.
    pub polarity: SaiClockPolarity,
}

/// Master clock source selection.
#[derive(Clone, Copy, Debug, PartialEq, Eq, Structural)]
pub enum SaiMclkSource {
    /// The system clock.
    Sysclk,
    /// Clock select option 1.
    Select1,
    /// Clock select option 2.
    Select2,
    /// Clock select option 3.
    Select3,
}

/// Bit clock source selection.
#[derive(Clone, Copy, Debug, PartialEq, Eq, Structural)]
pub enum SaiBclkSource {
    /// The bus clock.
    Bus,
    /// Bit clock option 1: the divided master clock.
    Opt1,
    /// Bit clock option 2.
    Opt2,
    /// Bit clock option 3.
    Opt3,
}

/// Bit clock configuration.
#[derive(Clone, Copy, Debug, PartialEq, Eq, Structural)]
pub struct SaiBitClock {
    /// Swap the bit clock source.
    pub src_swap: bool,
    /// Sample inputs with a delayed internal bit clock.
    pub input_delay: bool,
    /// Polarity of the bit clock.
    pub polarity: SaiClockPolarity,
    /// Where the bit clock comes from.
    pub source: SaiBclkSource,
}

/// Serial data framing configuration.
#[derive(Clone, Copy, Debug, PartialEq, Eq, Structural)]
pub struct SaiSerialData {
    /// The order bits move on the wire.
    pub byte_order: SaiByteOrder,
    /// Audio word length in bits.
    pub word_length: u8,
    /// Words per frame.
    pub frame_length: u8,
}

/// Who drives the clocks.
#[derive(Clone, Copy, Debug, PartialEq, Eq, Structural)]
pub enum SaiMasterSlave {
    /// This peripheral drives bit clock and frame sync.
    Master,
    /// The other end drives bit clock and frame sync.
    Slave,
    /// Bit clock out, frame sync in.
    BclkMasterFrameSyncSlave,
    /// Bit clock in, frame sync out.
    BclkSlaveFrameSyncMaster,
}

/// How a direction's frame sync relates to the other direction's.
#[derive(Clone, Copy, Debug, PartialEq, Eq, Structural)]
pub enum SaiFrameSyncMode {
    /// Independent operation.
    Async,
    /// Synchronous with the opposite direction.
    Sync,
    /// Synchronous with the other peripheral's transmitter.
    SyncWithOtherTx,
    /// Synchronous with the other peripheral's receiver.
    SyncwithOtherRx,
}

/// The full configuration of one SAI direction.
#[derive(Clone, Copy, Debug, PartialEq, Eq, Structural)]
pub struct SaiConfig {
    /// Serial data framing.
    pub serial_data: SaiSerialData,
    /// Frame synchronization.
    pub frame_sync: SaiFrameSync,
    /// Bit clock generation.
    pub bit_clock: SaiBitClock,
    /// Clock mastership.
    pub master_slave: SaiMasterSlave,
    /// Frame-sync relationship between directions.
    pub sync_mode: SaiFrameSyncMode,
    /// First active time-division channel.
    pub start_channel: u8,
    /// Last active time-division channel.
    pub end_channel: u8,
    /// Bitmask of active data channels.
    pub channel_mask: u8,
    /// Number of active data channels.
    pub channels: u8,
}

impl SaiConfig {
    /// A stereo I2S configuration at the given word width: two words per
    /// frame, MSB first, an early, active-low frame sync one word wide, and
    /// the bit clock divided down from the master clock, sampling on the
    /// rising edge.
    pub fn i2s(bit_width: u8, channel_mask: u8) -> (config: SaiConfig)
        ensures
            config == (SaiConfig {
                serial_data: SaiSerialData {
                    byte_order: SaiByteOrder::MSB,
                    word_length: bit_width,
                    frame_length: 2,
                },
                frame_sync: SaiFrameSync {
                    sync_width: bit_width,
                    sync_early: true,
                    polarity: SaiClockPolarity::ActiveLow,
                },
                bit_clock: SaiBitClock {
                    src_swap: false,
                    input_delay: false,
                    polarity: SaiClockPolarity::ActiveLow,
                    source: SaiBclkSource::Opt1,
                },
                master_slave: SaiMasterSlave::Master,
                sync_mode: SaiFrameSyncMode::Async,
                start_channel: 0,
                end_channel: 0,
                channel_mask,
                channels: 0,
            }),
    {
        SaiConfig {
            serial_data: SaiSerialData {
                byte_order: SaiByteOrder::MSB,
                word_length: bit_width,
                frame_length: 2,
            },
            frame_sync: SaiFrameSync {
                sync_width: bit_width,
                sync_early: true,
                // Sample on the rising edge.
                polarity: SaiClockPolarity::ActiveLow,
            },
            bit_clock: SaiBitClock {
                src_swap: false,
                input_delay: false,
                // Sample on the rising edge.
                polarity: SaiClockPolarity::ActiveLow,
                // Divide down the master clock.
                source: SaiBclkSource::Opt1,
            },
            master_slave: SaiMasterSlave::Master,
            sync_mode: SaiFrameSyncMode::Async,
            start_channel: 0,
            end_channel: 0,
            channel_mask,
            channels: 0,
        }
    }
}

/// The transmit and receive frame-sync and bit-clock pins handed to
/// [`Sai::take_tx`].
pub struct TxPins<TxSync, TxBclk> {
    /// Frame sync pin.
    pub sync: TxSync,
    /// Bit clock pin.
    pub bclk: TxBclk,
}

/// The receive frame-sync and bit-clock pins handed to [`Sai::take_rx`].
pub struct RxPins<RxSync, RxBclk> {
    /// Frame sync pin.
    pub sync: RxSync,
    /// Bit clock pin.
    pub bclk: RxBclk,
}

/// The SAI register block: the control fields of the transmitter and the
/// receiver, as plain values.
pub struct SaiRegisterBlock {
    /// Transmitter software reset.
    pub tx_software_reset: bool,
    /// Transmitter control register 2.
    pub tcr2: u32,
    /// Transmitter control register 3.
    pub tcr3: u32,
    /// Transmitter control register 4.
    pub tcr4: u32,
    /// Transmitter control register 5.
    pub tcr5: u32,
    /// Transmitter word mask.
    pub tmr: u32,
    /// Receiver software reset.
    pub rx_software_reset: bool,
    /// Receiver control register 2.
    pub rcr2: u32,
    /// Receiver control register 3.
    pub rcr3: u32,
    /// Receiver control register 4.
    pub rcr4: u32,
    /// Receiver control register 5.
    pub rcr5: u32,
    /// Receiver word mask.
    pub rmr: u32,
}

/// Reset the transmitter: pulse its software reset together with the FIFO
/// reset, release the reset, and zero its control and mask registers.
pub fn reset_tx(regs: &mut SaiRegisterBlock)
    ensures
        !final(regs).tx_software_reset,
        final(regs).tcr2 == 0,
        final(regs).tcr3 == 0,
        final(regs).tcr4 == 0,
        final(regs).tcr5 == 0,
        final(regs).tmr == 0,
        final(regs).rx_software_reset == old(regs).rx_software_reset,
        final(regs).rcr2 == old(regs).rcr2,
        final(regs).rcr3 == old(regs).rcr3,
        final(regs).rcr4 == old(regs).rcr4,
        final(regs).rcr5 == old(regs).rcr5,
        final(regs).rmr == old(regs).rmr,
{
    regs.tx_software_reset = true;
    regs.tx_software_reset = false;
    regs.tcr2 = 0;
    regs.tcr3 = 0;
    regs.tcr4 = 0;
    regs.tcr5 = 0;
    regs.tmr = 0;
}

/// Reset the receiver: pulse its software reset together with the FIFO
/// reset, release the reset, and zero its control and mask registers.
pub fn reset_rx(regs: &mut SaiRegisterBlock)
    ensures
        !final(regs).rx_software_reset,
        final(regs).rcr2 == 0,
        final(regs).rcr3 == 0,
        final(regs).rcr4 == 0,
        final(regs).rcr5 == 0,
        final(regs).rmr == 0,
        final(regs).tx_software_reset == old(regs).tx_software_reset,
        final(regs).tcr2 == old(regs).tcr2,
        final(regs).tcr3 == old(regs).tcr3,
        final(regs).tcr4 == old(regs).tcr4,
        final(regs).tcr5 == old(regs).tcr5,
        final(regs).tmr == old(regs).tmr,
{
    regs.rx_software_reset = true;
    regs.rx_software_reset = false;
    regs.rcr2 = 0;
    regs.rcr3 = 0;
    regs.rcr4 = 0;
    regs.rcr5 = 0;
    regs.rmr = 0;
}

/// Possible errors when interfacing the SAI.
#[derive(Clone, Copy, Debug, PartialEq, Eq, Structural)]
pub enum SaiError {
    /// The transaction frame size is incorrect.
    ///
    /// The frame size, in bits, must be between 8 bits and 4096 bits.
    FrameSize,
    /// Caller provided no data.
    NoData,
    /// Channel already taken.
    ChannelTaken,
}

/// A SAI peripheral instance.
pub struct Sai<const N: u8> {
    sai: SaiRegisterBlock,
    tx_taken: bool,
    rx_taken: bool,
    tx_channel_taken: bool,
    rx_channel_taken: bool,
}

/// An instance of a SAI transmitter.
pub struct SaiTx<P, const N: u8> {
    pins: P,
}

/// An instance of a SAI receiver.
pub struct SaiRx<P, const N: u8> {
    pins: P,
}

/// How many words one data line's FIFO holds.
pub const FIFO_DEPTH: usize = 32;

/// An instance of a SAI transmitter channel.
///
/// A SAI channel is representative of the physical data pin and associated
/// FIFO, not a time-division channel for packing multi-channel audio into
/// each frame.
pub struct SaiTxChannel<P, const N: u8, const C: u8> {
    tx_data: P,
    fifo: Vec<u32>,
}

/// An instance of a SAI receiver channel.
///
/// A SAI channel is representative of the physical data pin and associated
/// FIFO, not a time-division channel for packing multi-channel audio into
/// each frame.
pub struct SaiRxChannel<P, const N: u8, const C: u8> {
    rx_data: P,
    fifo: Vec<u32>,
}

impl<P, const N: u8, const C: u8> SaiTxChannel<P, N, C> {
    /// The words queued in the transmit FIFO, oldest first.
    pub closed spec fn fifo_spec(&self) -> Seq<u32> {
        self.fifo@
    }

    /// Write a single word of audio data to the channel's transmit FIFO.
    pub fn write_word(&mut self, word: u32)
        requires
            old(self).fifo_spec().len() < FIFO_DEPTH,
        ensures
            final(self).fifo_spec() == old(self).fifo_spec().push(word),
    {
        self.fifo.push(word);
    }

    /// How many words wait in the transmit FIFO.
    pub fn fifo_level(&self) -> (level: usize)
        ensures
            level == self.fifo_spec().len(),
    {
        self.fifo.len()
    }

    /// Hardware model: the transmitter shifts the oldest queued word out
    /// onto the data line.
    pub fn shift_out(&mut self) -> (word: u32)
        requires
            old(self).fifo_spec().len() > 0,
        ensures
            word == old(self).fifo_spec()[0],
            final(self).fifo_spec() == old(self).fifo_spec().drop_first(),
    {
        let word = self.fifo.remove(0);
        proof {
            assert(self.fifo@ =~= old(self).fifo@.drop_first());
        }
        word
    }
}

impl<P, const N: u8, const C: u8> SaiRxChannel<P, N, C> {
    /// The words waiting in the receive FIFO, oldest first.
    pub closed spec fn fifo_spec(&self) -> Seq<u32> {
        self.fifo@
    }

    /// Read a single word of audio data from the channel's receive FIFO.
    pub fn read_word(&mut self) -> (word: u32)
        requires
            old(self).fifo_spec().len() > 0,
        ensures
            word == old(self).fifo_spec()[0],
            final(self).fifo_spec() == old(self).fifo_spec().drop_first(),
    {
        let word = self.fifo.remove(0);
        proof {
            assert(self.fifo@ =~= old(self).fifo@.drop_first());
        }
        word
    }

    /// How many words wait in the receive FIFO.
    pub fn fifo_level(&self) -> (level: usize)
        ensures
            level == self.fifo_spec().len(),
    {
        self.fifo.len()
    }

    /// Hardware model: the receiver shifts one word in from the data line,
    /// queueing it in the receive FIFO.
    pub fn shift_in(&mut self, word: u32)
        requires
            old(self).fifo_spec().len() < FIFO_DEPTH,
        ensures
            final(self).fifo_spec() == old(self).fifo_spec().push(word),
    {
        self.fifo.push(word);
    }
}

/// Trait a SAI receiver implements for each channel available for taking.
pub trait TakeRxChannel<P, const N: u8, const C: u8> {
    /// Whether this receive channel has already been handed out.
    spec fn rx_channel_taken(&self) -> bool;

    /// Take exclusive possession of the receive channel driving `rx_data`.
    /// Succeeds at most once.
    fn take_channel(&mut self, rx_data: P) -> (r: Result<SaiRxChannel<P, N, C>, SaiError>)
        ensures
            old(self).rx_channel_taken() ==> r == Result::<
                SaiRxChannel<P, N, C>,
                SaiError,
            >::Err(SaiError::ChannelTaken),
            !old(self).rx_channel_taken() ==> (r matches Ok(c) && c.fifo_spec() == Seq::<
                u32,
            >::empty()),
            final(self).rx_channel_taken(),
    ;
}

/// Trait a SAI transmitter implements for each channel available for taking.
pub trait TakeTxChannel<P, const N: u8, const C: u8> {
    /// Whether this transmit channel has already been handed out.
    spec fn tx_channel_taken(&self) -> bool;

    /// Take exclusive possession of the transmit channel driving `tx_data`.
    /// Succeeds at most once.
    fn take_channel(&mut self, tx_data: P) -> (r: Result<SaiTxChannel<P, N, C>, SaiError>)
        ensures
            old(self).tx_channel_taken() ==> r == Result::<
                SaiTxChannel<P, N, C>,
                SaiError,
            >::Err(SaiError::ChannelTaken),
            !old(self).tx_channel_taken() ==> (r matches Ok(c) && c.fifo_spec() == Seq::<
                u32,
            >::empty()),
            final(self).tx_channel_taken(),
    ;
}

impl<const N: u8> Sai<N> {
    /// The modeled register block.
    pub closed spec fn registers(&self) -> SaiRegisterBlock {
        self.sai
    }

    /// Whether the transmit handle has been handed out.
    pub closed spec fn tx_taken_spec(&self) -> bool {
        self.tx_taken
    }

    /// Whether the receive handle has been handed out.
    pub closed spec fn rx_taken_spec(&self) -> bool {
        self.rx_taken
    }

    /// Initialize the SAI instance by resetting everything.
    #[allow(unused_variables)]
    pub fn init(sai: SaiRegisterBlock, sample_rate: u32, cfg: &SaiConfig) -> (r: Sai<N>)
        ensures
            !r.registers().tx_software_reset,
            r.registers().tcr2 == 0,
            r.registers().tcr3 == 0,
            r.registers().tcr4 == 0,
            r.registers().tcr5 == 0,
            r.registers().tmr == 0,
            !r.registers().rx_software_reset,
            r.registers().rcr2 == 0,
            r.registers().rcr3 == 0,
            r.registers().rcr4 == 0,
            r.registers().rcr5 == 0,
            r.registers().rmr == 0,
            !r.tx_taken_spec(),
            !r.rx_taken_spec(),
    {
        let mut sai = sai;
        reset_tx(&mut sai);
        reset_rx(&mut sai);
        Sai {
            sai,
            tx_taken: false,
            rx_taken: false,
            tx_channel_taken: false,
            rx_channel_taken: false,
        }
    }

    /// Take the SAI transmit handle given a set of transmit pins. Succeeds
    /// at most once.
    pub fn take_tx<TxSync, TxBclk, P>(&mut self, pins: P) -> (r: Result<SaiTx<P, N>, SaiError>)
        ensures
            old(self).tx_taken_spec() ==> (r is Err && r->Err_0 == SaiError::ChannelTaken),
            !old(self).tx_taken_spec() ==> r is Ok,
            final(self).tx_taken_spec(),
            final(self).rx_taken_spec() == old(self).rx_taken_spec(),
            final(self).registers() == old(self).registers(),
    {
        if self.tx_taken {
            return Err(SaiError::ChannelTaken);
        }
        self.tx_taken = true;
        Ok(SaiTx { pins })
    }

    /// Take the SAI receive handle given a set of receive pins. Succeeds at
    /// most once.
    pub fn take_rx<RxSync, RxBclk, P>(&mut self, pins: P) -> (r: Result<SaiRx<P, N>, SaiError>)
        ensures
            old(self).rx_taken_spec() ==> (r is Err && r->Err_0 == SaiError::ChannelTaken),
            !old(self).rx_taken_spec() ==> r is Ok,
            final(self).rx_taken_spec(),
            final(self).tx_taken_spec() == old(self).tx_taken_spec(),
            final(self).registers() == old(self).registers(),
    {
        if self.rx_taken {
            return Err(SaiError::ChannelTaken);
        }
        self.rx_taken = true;
        Ok(SaiRx { pins })
    }
}

impl<P> TakeTxChannel<P, 1, 1> for Sai<1> {
    closed spec fn tx_channel_taken(&self) -> bool {
        self.tx_channel_taken
    }

    fn take_channel(&mut self, tx_data: P) -> (r: Result<SaiTxChannel<P, 1, 1>, SaiError>) {
        if self.tx_channel_taken {
            return Err(SaiError::ChannelTaken);
        }
        self.tx_channel_taken = true;
        Ok(SaiTxChannel { tx_data, fifo: Vec::new() })
    }
}

impl<P> TakeRxChannel<P, 1, 1> for Sai<1> {
    closed spec fn rx_channel_taken(&self) -> bool {
        self.rx_channel_taken
    }

    fn take_channel(&mut self, rx_data: P) -> (r: Result<SaiRxChannel<P, 1, 1>, SaiError>) {
        if self.rx_channel_taken {
            return Err(SaiError::ChannelTaken);
        }
        self.rx_channel_taken = true;
        Ok(SaiRxChannel { rx_data, fifo: Vec::new() })
    }
}

} // verus!
