//! One hardware DMA engine lane.
//!
//! A [`Channel`] owns the model of a lane's register block: the transfer
//! descriptor (addresses, element width, iteration counts, addressing modes),
//! the routing configuration, and the status flags. All state is plain data,
//! and every operation states exactly how it changes the registers.
//!
//! Hardware progress is modeled by [`Channel::retire_minor_loop`]: one call
//! stands for the engine completing one service request. The elapsed/complete
//! flag is sticky — set by the hardware model when the major loop finishes,
//! and only cleared by an explicit software write.

use vstd::prelude::*;

verus! {

/// How a channel is routed to a peripheral's request signal.
#[derive(Clone, Copy, Debug, PartialEq, Eq, Structural)]
pub enum ChannelConfiguration {
    /// The channel responds to no request signal.
    Off,
    /// The channel is armed by the peripheral request line with this
    /// identifier.
    Enable {
        /// The DMA request signal identifier.
        signal: u32,
    },
    /// The channel is always armed, independent of any peripheral.
    AlwaysOn,
}

/// The register-level state of one channel, as contracts see it.
pub struct ChannelView {
    /// Which lane of the controller this is.
    pub index: usize,
    /// Request-signal routing.
    pub configuration: ChannelConfiguration,
    /// Where the engine reads.
    pub source_address: u32,
    /// Whether the source address advances after each read (a linear buffer)
    /// or stays fixed (a hardware port).
    pub source_increments: bool,
    /// Where the engine writes.
    pub destination_address: u32,
    /// Whether the destination address advances after each write.
    pub destination_increments: bool,
    /// Bytes moved per service request: the element width.
    pub minor_loop_bytes: u32,
    /// Programmed major loop count: the number of elements to move.
    pub iterations: u16,
    /// Minor loops the hardware model has retired since the descriptor was
    /// programmed.
    pub retired: u16,
    /// When set, the channel masks its request line once the major loop
    /// completes, preventing spurious re-triggering.
    pub disable_on_completion: bool,
    /// When set, completion raises the channel's interrupt.
    pub interrupt_on_completion: bool,
    /// The request line is unmasked: the engine services requests.
    pub enabled: bool,
    /// The hardware is currently signaling (a request is in flight).
    pub active: bool,
    /// Sticky elapsed/complete flag. Set by hardware when the major loop
    /// finishes; cleared only by software.
    pub complete: bool,
    /// Sticky error flag for bus faults. Never raised by the model's own
    /// transitions: a bus fault is fatal and outside this transition system.
    pub error: bool,
}

impl ChannelView {
    /// The state a lane holds right after a reset: no routing, an empty
    /// descriptor, all flags clear.
    pub open spec fn reset(index: usize) -> ChannelView {
        ChannelView {
            index,
            configuration: ChannelConfiguration::Off,
            source_address: 0,
            source_increments: false,
            destination_address: 0,
            destination_increments: false,
            minor_loop_bytes: 0,
            iterations: 0,
            retired: 0,
            disable_on_completion: false,
            interrupt_on_completion: false,
            enabled: false,
            active: false,
            complete: false,
            error: false,
        }
    }

    /// Register-level consistency: the hardware never retires more minor
    /// loops than the major loop asks for, completion means the major loop
    /// ran to its end, and a request can only be in flight mid-transfer.
    pub open spec fn wf(self) -> bool {
        &&& self.retired <= self.iterations
        &&& self.complete ==> self.retired == self.iterations
        &&& self.active ==> self.enabled && !self.complete && self.retired < self.iterations
    }

    /// The channel is idle: not servicing requests and none in flight.
    pub open spec fn idle(self) -> bool {
        !self.enabled && !self.active
    }
}

/// One hardware DMA engine lane.
///
/// A `Channel` is minted only by its controller's
/// [`ChannelRegistry`](crate::dma::registry::ChannelRegistry), which hands
/// out each lane at most once; holding a `Channel` is proof of exclusive
/// access to the lane.
#[derive(Debug)]
pub struct Channel {
    index: usize,
    configuration: ChannelConfiguration,
    source_address: u32,
    source_increments: bool,
    destination_address: u32,
    destination_increments: bool,
    minor_loop_bytes: u32,
    iterations: u16,
    retired: u16,
    disable_on_completion: bool,
    interrupt_on_completion: bool,
    enabled: bool,
    active: bool,
    complete: bool,
    error: bool,
}

impl View for Channel {
    type V = ChannelView;

    closed spec fn view(&self) -> ChannelView {
        ChannelView {
            index: self.index,
            configuration: self.configuration,
            source_address: self.source_address,
            source_increments: self.source_increments,
            destination_address: self.destination_address,
            destination_increments: self.destination_increments,
            minor_loop_bytes: self.minor_loop_bytes,
            iterations: self.iterations,
            retired: self.retired,
            disable_on_completion: self.disable_on_completion,
            interrupt_on_completion: self.interrupt_on_completion,
            enabled: self.enabled,
            active: self.active,
            complete: self.complete,
            error: self.error,
        }
    }
}

impl Channel {
    /// Mint the lane with this index, in its reset state. Only the registry
    /// creates channels.
    pub(crate) fn new(index: usize) -> (c: Channel)
        ensures
            c@ == ChannelView::reset(index),
    {
        Channel {
            index,
            configuration: ChannelConfiguration::Off,
            source_address: 0,
            source_increments: false,
            destination_address: 0,
            destination_increments: false,
            minor_loop_bytes: 0,
            iterations: 0,
            retired: 0,
            disable_on_completion: false,
            interrupt_on_completion: false,
            enabled: false,
            active: false,
            complete: false,
            error: false,
        }
    }

    /// Which lane of the controller this is.
    pub fn index(&self) -> (i: usize)
        ensures
            i == self@.index,
    {
        self.index
    }

    /// Clear any pending configuration and error state. Always safe to call
    /// when idle.
    pub fn reset(&mut self)
        ensures
            final(self)@ == ChannelView::reset(old(self)@.index),
    {
        self.configuration = ChannelConfiguration::Off;
        self.source_address = 0;
        self.source_increments = false;
        self.destination_address = 0;
        self.destination_increments = false;
        self.minor_loop_bytes = 0;
        self.iterations = 0;
        self.retired = 0;
        self.disable_on_completion = false;
        self.interrupt_on_completion = false;
        self.enabled = false;
        self.active = false;
        self.complete = false;
        self.error = false;
    }

    /// Program the request-signal routing. Must be set before any transfer;
    /// persists across transfers unless changed.
    pub fn set_channel_configuration(&mut self, configuration: ChannelConfiguration)
        ensures
            final(self)@ == (ChannelView { configuration, ..old(self)@ }),
    {
        self.configuration = configuration;
    }

    /// Read back the request-signal routing.
    pub fn channel_configuration(&self) -> (c: ChannelConfiguration)
        ensures
            c == self@.configuration,
    {
        self.configuration
    }

    /// Program the source side as a linearly incrementing memory buffer
    /// starting at `address`.
    pub fn set_source_linear_buffer(&mut self, address: u32)
        ensures
            final(self)@ == (ChannelView {
                source_address: address,
                source_increments: true,
                ..old(self)@
            }),
    {
        self.source_address = address;
        self.source_increments = true;
    }

    /// Program the source side as a fixed hardware port at `address`.
    pub fn set_source_hardware(&mut self, address: u32)
        ensures
            final(self)@ == (ChannelView {
                source_address: address,
                source_increments: false,
                ..old(self)@
            }),
    {
        self.source_address = address;
        self.source_increments = false;
    }

    /// Program the destination side as a linearly incrementing memory buffer
    /// starting at `address`.
    pub fn set_destination_linear_buffer(&mut self, address: u32)
        ensures
            final(self)@ == (ChannelView {
                destination_address: address,
                destination_increments: true,
                ..old(self)@
            }),
    {
        self.destination_address = address;
        self.destination_increments = true;
    }

    /// Program the destination side as a fixed hardware port at `address`.
    pub fn set_destination_hardware(&mut self, address: u32)
        ensures
            final(self)@ == (ChannelView {
                destination_address: address,
                destination_increments: false,
                ..old(self)@
            }),
    {
        self.destination_address = address;
        self.destination_increments = false;
    }

    /// Program the bytes moved per service request — the element width.
    pub fn set_minor_loop_bytes(&mut self, bytes: u32)
        ensures
            final(self)@ == (ChannelView { minor_loop_bytes: bytes, ..old(self)@ }),
    {
        self.minor_loop_bytes = bytes;
    }

    /// Read back the bytes moved per service request.
    pub fn minor_loop_bytes(&self) -> (bytes: u32)
        ensures
            bytes == self@.minor_loop_bytes,
    {
        self.minor_loop_bytes
    }

    /// Program the major loop count: how many minor loops make up the
    /// transfer. Writing the count restarts the major loop, so the retired
    /// counter and the stale completion flag are cleared with it.
    pub fn set_transfer_iterations(&mut self, count: u16)
        ensures
            final(self)@ == (ChannelView {
                iterations: count,
                retired: 0,
                complete: false,
                ..old(self)@
            }),
    {
        self.iterations = count;
        self.retired = 0;
        self.complete = false;
    }

    /// Read back the programmed major loop count.
    pub fn transfer_iterations(&self) -> (count: u16)
        ensures
            count == self@.iterations,
    {
        self.iterations
    }

    /// When `value` is set, the channel auto-disables itself — the request
    /// line is masked — once the major loop completes.
    pub fn set_disable_on_completion(&mut self, value: bool)
        ensures
            final(self)@ == (ChannelView { disable_on_completion: value, ..old(self)@ }),
    {
        self.disable_on_completion = value;
    }

    /// When `value` is set, completion raises the channel's interrupt.
    pub fn set_interrupt_on_completion(&mut self, value: bool)
        ensures
            final(self)@ == (ChannelView { interrupt_on_completion: value, ..old(self)@ }),
    {
        self.interrupt_on_completion = value;
    }

    /// Unmask the request line: the engine starts servicing requests.
    pub fn enable(&mut self)
        ensures
            final(self)@ == (ChannelView { enabled: true, ..old(self)@ }),
    {
        self.enabled = true;
    }

    /// Mask the request line and halt the engine. Disabling retires the
    /// in-flight indicator: nothing is signaling once the line is masked.
    pub fn disable(&mut self)
        ensures
            final(self)@ == (ChannelView { enabled: false, active: false, ..old(self)@ }),
    {
        self.enabled = false;
        self.active = false;
    }

    /// Whether the request line is unmasked.
    pub fn is_enabled(&self) -> (e: bool)
        ensures
            e == self@.enabled,
    {
        self.enabled
    }

    /// Whether the hardware is currently signaling — a request is in flight.
    /// Completion and "no longer asserting a request" are not the same
    /// instant; callers that must guarantee register drain busy-wait on this.
    pub fn is_hardware_signaling(&self) -> (a: bool)
        ensures
            a == self@.active,
    {
        self.active
    }

    /// Read the sticky elapsed/complete flag.
    pub fn is_complete(&self) -> (c: bool)
        ensures
            c == self@.complete,
    {
        self.complete
    }

    /// Clear the sticky elapsed/complete flag. Until cleared, the flag can
    /// never again be observed as freshly set: its semantics are
    /// edge-triggered, not level-triggered.
    pub fn clear_complete(&mut self)
        ensures
            final(self)@ == (ChannelView { complete: false, ..old(self)@ }),
    {
        self.complete = false;
    }

    /// Read the sticky error flag.
    pub fn has_error(&self) -> (e: bool)
        ensures
            e == self@.error,
    {
        self.error
    }

    /// Clear the sticky error flag.
    pub fn clear_error(&mut self)
        ensures
            final(self)@ == (ChannelView { error: false, ..old(self)@ }),
    {
        self.error = false;
    }

    /// How many minor loops the hardware model has retired since the
    /// descriptor was programmed — the service-request counter.
    pub fn minor_loops_retired(&self) -> (n: u16)
        ensures
            n == self@.retired,
    {
        self.retired
    }

    /// Whether the channel's interrupt line is asserted: the sticky
    /// completion flag is set and the descriptor asked for an interrupt.
    ///
    /// An interrupt handler and a polling caller observe completion through
    /// the same sticky flag, so the two paths report the same outcome;
    /// whichever clears the flag first makes the other observation a no-op.
    pub fn is_interrupt_asserted(&self) -> (asserted: bool)
        ensures
            asserted == (self@.complete && self@.interrupt_on_completion),
    {
        self.complete && self.interrupt_on_completion
    }

    /// Hardware model: the engine completes one service request, retiring
    /// one minor loop.
    ///
    /// The engine only makes progress while the request line is unmasked and
    /// the major loop has iterations left. Retiring the final minor loop sets
    /// the sticky completion flag, deasserts the request, and — when
    /// disable-on-completion is programmed — masks the request line.
    pub fn retire_minor_loop(&mut self)
        requires
            old(self)@.enabled,
            !old(self)@.complete,
            old(self)@.retired < old(self)@.iterations,
        ensures
            final(self)@ == (ChannelView {
                retired: (old(self)@.retired + 1) as u16,
                complete: old(self)@.retired + 1 == old(self)@.iterations,
                active: old(self)@.retired + 1 < old(self)@.iterations,
                enabled: !(old(self)@.disable_on_completion
                    && old(self)@.retired + 1 == old(self)@.iterations),
                ..old(self)@
            }),
    {
        self.retired = self.retired + 1;
        if self.retired == self.iterations {
            self.complete = true;
            self.active = false;
            if self.disable_on_completion {
                self.enabled = false;
            }
        } else {
            self.active = true;
        }
    }
}

} // verus!
