//! The peripheral capability interface and the suspendable transfer tasks.
//!
//! A peripheral driver declares that it can act as a DMA endpoint by
//! implementing [`Source`] (the engine may read its register), [`Destination`]
//! (the engine may write its register), or [`Bidirectional`] (one buffer may
//! be safely used for simultaneous read and write, reads always ordered
//! before writes within a minor loop).
//!
//! The traits carry the hardware model of the peripheral's port: the elements
//! it will provide, the elements it has accepted, and its request-line state.
//! [`fetch`](Source::fetch) and [`deliver`](Destination::deliver) stand for
//! the engine's read or write of the fixed register address during one
//! service request.
//!
//! A transfer task — [`Write`], [`Read`] or [`FullDuplex`] — couples one or
//! two channels and the caller's buffer into a single suspendable operation.
//! The task owns the buffer until the hardware is quiescent: the only ways to
//! get the buffer back are observing completion or the cancellation path,
//! both of which leave the channel disabled first.

use vstd::prelude::*;
use vstd::pervasive::VecAdditionalExecFns;

use crate::dma::channel::{Channel, ChannelConfiguration, ChannelView};

verus! {

/// An element width the engine can move per service request.
pub trait Element: Copy {
    /// The element width in bytes.
    spec fn width_spec() -> u32;

    /// The element width in bytes.
    fn width() -> (w: u32)
        ensures
            w == Self::width_spec(),
            w == 1 || w == 2 || w == 4,
    ;
}

impl Element for u8 {
    open spec fn width_spec() -> u32 {
        1
    }

    fn width() -> u32 {
        1
    }
}

impl Element for u16 {
    open spec fn width_spec() -> u32 {
        2
    }

    fn width() -> u32 {
        2
    }
}

impl Element for u32 {
    open spec fn width_spec() -> u32 {
        4
    }

    fn width() -> u32 {
        4
    }
}

/// A configuration fault detected while constructing a transfer, before any
/// hardware state is touched.
#[derive(Clone, Copy, Debug, PartialEq, Eq, Structural)]
pub enum ConfigurationError {
    /// The caller's buffer holds no elements.
    EmptyBuffer,
    /// The capability's element width does not match the channel's
    /// configured minor loop.
    ElementWidthMismatch,
}

/// What one poll of a transfer task reports.
#[derive(Clone, Copy, Debug, PartialEq, Eq, Structural)]
pub enum Poll {
    /// The transfer has not completed yet.
    Pending,
    /// The buffer is fully transferred.
    Complete,
}

/// Where a transfer task stands in its lifecycle.
#[derive(Clone, Copy, Debug, PartialEq, Eq, Structural)]
pub enum TaskPhase {
    /// The descriptor is programmed; the hardware is not yet armed.
    Programmed,
    /// The channel and the peripheral request line are armed; the engine
    /// runs independently of polling.
    Armed,
    /// Completion has been observed and the sticky flag cleared.
    Complete,
}

/// A peripheral capability: the engine may read this peripheral's register.
pub trait Source<E: Element> {
    /// The elements the peripheral will provide, in order.
    spec fn source_queue(&self) -> Seq<E>;

    /// Every element the engine has read from the peripheral, in order.
    spec fn source_fetched(&self) -> Seq<E>;

    /// Whether the peripheral's receive-DMA-request line is enabled.
    spec fn source_request_enabled(&self) -> bool;

    /// The DMA request signal identifier for this peripheral's receive
    /// direction.
    spec fn source_signal_spec(&self) -> u32;

    /// The fixed address of the readable register.
    spec fn source_address_spec(&self) -> u32;

    /// The DMA request signal identifier for this peripheral's receive
    /// direction.
    fn source_signal(&self) -> (signal: u32)
        ensures
            signal == self.source_signal_spec(),
    ;

    /// The fixed address of the readable register.
    fn source_address(&self) -> (address: u32)
        ensures
            address == self.source_address_spec(),
    ;

    /// Enable the peripheral's receive-DMA-request line.
    fn enable_source(&mut self)
        ensures
            final(self).source_request_enabled(),
            final(self).source_queue() == old(self).source_queue(),
            final(self).source_fetched() == old(self).source_fetched(),
            final(self).source_signal_spec() == old(self).source_signal_spec(),
            final(self).source_address_spec() == old(self).source_address_spec(),
    ;

    /// Disable the peripheral's receive-DMA-request line.
    fn disable_source(&mut self)
        ensures
            !final(self).source_request_enabled(),
            final(self).source_queue() == old(self).source_queue(),
            final(self).source_fetched() == old(self).source_fetched(),
            final(self).source_signal_spec() == old(self).source_signal_spec(),
            final(self).source_address_spec() == old(self).source_address_spec(),
    ;

    /// Hardware model: the engine reads one element from the peripheral's
    /// register during a service request.
    fn fetch(&mut self) -> (e: E)
        requires
            old(self).source_request_enabled(),
            old(self).source_queue().len() > 0,
        ensures
            e == old(self).source_queue()[0],
            final(self).source_queue() == old(self).source_queue().drop_first(),
            final(self).source_fetched() == old(self).source_fetched().push(e),
            final(self).source_request_enabled(),
            final(self).source_signal_spec() == old(self).source_signal_spec(),
            final(self).source_address_spec() == old(self).source_address_spec(),
    ;
}

/// A peripheral capability: the engine may write this peripheral's register.
pub trait Destination<E: Element> {
    /// Every element the peripheral has accepted, in order.
    spec fn destination_log(&self) -> Seq<E>;

    /// Whether the peripheral's transmit-DMA-request line is enabled.
    spec fn destination_request_enabled(&self) -> bool;

    /// The DMA request signal identifier for this peripheral's transmit
    /// direction.
    spec fn destination_signal_spec(&self) -> u32;

    /// The fixed address of the writable register.
    spec fn destination_address_spec(&self) -> u32;

    /// The DMA request signal identifier for this peripheral's transmit
    /// direction.
    fn destination_signal(&self) -> (signal: u32)
        ensures
            signal == self.destination_signal_spec(),
    ;

    /// The fixed address of the writable register.
    fn destination_address(&self) -> (address: u32)
        ensures
            address == self.destination_address_spec(),
    ;

    /// Enable the peripheral's transmit-DMA-request line.
    fn enable_destination(&mut self)
        ensures
            final(self).destination_request_enabled(),
            final(self).destination_log() == old(self).destination_log(),
            final(self).destination_signal_spec() == old(self).destination_signal_spec(),
            final(self).destination_address_spec() == old(self).destination_address_spec(),
    ;

    /// Disable the peripheral's transmit-DMA-request line.
    fn disable_destination(&mut self)
        ensures
            !final(self).destination_request_enabled(),
            final(self).destination_log() == old(self).destination_log(),
            final(self).destination_signal_spec() == old(self).destination_signal_spec(),
            final(self).destination_address_spec() == old(self).destination_address_spec(),
    ;

    /// Hardware model: the engine writes one element to the peripheral's
    /// register during a service request.
    fn deliver(&mut self, e: E)
        requires
            old(self).destination_request_enabled(),
        ensures
            final(self).destination_log() == old(self).destination_log().push(e),
            final(self).destination_request_enabled(),
            final(self).destination_signal_spec() == old(self).destination_signal_spec(),
            final(self).destination_address_spec() == old(self).destination_address_spec(),
    ;
}

/// The model address standing for a transfer task's own buffer. The task owns
/// the memory the engine walks, so the linear side of the descriptor needs no
/// real address; the hardware side carries the peripheral's register address.
pub const TASK_BUFFER_ADDRESS: u32 = 0;

/// A write transfer task and the peripheral it was built against agree: the
/// peripheral has accepted exactly the prefix of the buffer the engine has
/// retired, and its request line is enabled exactly while the task is armed.
pub open spec fn write_coupled<E: Element, P: Destination<E>>(t: Write<E>, p: P) -> bool {
    &&& p.destination_signal_spec() == t.signal_spec()
    &&& p.destination_log() == t.base_log() + t.elements().take(t.delivered())
    &&& p.destination_request_enabled() == (t.phase_spec() is Armed)
}

/// A suspendable transfer moving the caller's buffer into a peripheral's
/// register, one element per service request.
///
/// The task owns the channel and the buffer for its whole lifetime: the
/// buffer cannot be reused, dropped or reallocated until [`Write::release`]
/// (after observed completion) or [`Write::cancel`] (the cancellation guard)
/// gives it back, and both leave the hardware quiescent first.
pub struct Write<E: Element> {
    channel: Channel,
    buffer: Vec<E>,
    phase: TaskPhase,
    signal: Ghost<u32>,
    base_log: Ghost<Seq<E>>,
}

impl<E: Element> Write<E> {
    /// Where the task stands in its lifecycle.
    pub closed spec fn phase_spec(&self) -> TaskPhase {
        self.phase
    }

    /// The caller's buffer.
    pub closed spec fn elements(&self) -> Seq<E> {
        self.buffer@
    }

    /// How many elements the engine has moved: the retired minor loops.
    pub closed spec fn delivered(&self) -> int {
        self.channel@.retired as int
    }

    /// The channel's sticky completion flag: the hardware finished the major
    /// loop, whether or not software has observed it yet.
    pub closed spec fn hardware_complete(&self) -> bool {
        self.channel@.complete
    }

    /// The owned channel's register state.
    pub closed spec fn channel_view(&self) -> ChannelView {
        self.channel@
    }

    /// The destination request signal this transfer is routed to.
    pub closed spec fn signal_spec(&self) -> u32 {
        self.signal@
    }

    /// What the peripheral had accepted before this transfer began.
    pub closed spec fn base_log(&self) -> Seq<E> {
        self.base_log@
    }

    /// The task's internal consistency: the descriptor matches the buffer,
    /// and the channel state matches the lifecycle phase.
    pub closed spec fn wf(&self) -> bool {
        &&& self.channel@.wf()
        &&& !self.channel@.error
        &&& self.channel@.configuration == (ChannelConfiguration::Enable { signal: self.signal@ })
        &&& self.channel@.minor_loop_bytes == E::width_spec()
        &&& self.channel@.iterations == self.buffer@.len()
        &&& self.buffer@.len() > 0
        &&& self.channel@.source_increments
        &&& !self.channel@.destination_increments
        &&& self.channel@.disable_on_completion
        &&& match self.phase {
            TaskPhase::Programmed => {
                &&& self.channel@.idle()
                &&& !self.channel@.complete
                &&& self.channel@.retired == 0
            },
            TaskPhase::Armed => {
                &&& self.channel@.enabled == !self.channel@.complete
                &&& self.channel@.complete == (self.channel@.retired == self.channel@.iterations)
                &&& self.channel@.active == (0 < self.channel@.retired
                    < self.channel@.iterations)
            },
            TaskPhase::Complete => {
                &&& self.channel@.idle()
                &&& !self.channel@.complete
                &&& self.channel@.retired == self.channel@.iterations
            },
        }
    }

    /// The service-request counter: minor loops retired so far.
    pub fn minor_loops_retired(&self) -> (n: u16)
        ensures
            n as int == self.delivered(),
    {
        self.channel.minor_loops_retired()
    }

    /// Drive the suspension protocol one step.
    ///
    /// The first poll arms the hardware as a side effect (lazy start): it
    /// enables the peripheral's request line and unmasks the channel. Every
    /// later poll reads the sticky completion flag. The first poll that
    /// observes the flag clears it, disables the peripheral request line to
    /// mirror the channel's auto-disable, and reports completion; polling a
    /// completed task again has no side effects at all.
    pub fn poll<P: Destination<E>>(&mut self, peripheral: &mut P) -> (status: Poll)
        requires
            old(self).wf(),
            write_coupled(*old(self), *old(peripheral)),
        ensures
            final(self).wf(),
            write_coupled(*final(self), *final(peripheral)),
            final(self).elements() == old(self).elements(),
            final(self).base_log() == old(self).base_log(),
            final(self).signal_spec() == old(self).signal_spec(),
            final(self).delivered() == old(self).delivered(),
            final(self).channel_view().index == old(self).channel_view().index,
            final(peripheral).destination_log() == old(peripheral).destination_log(),
            final(self).phase_spec() is Armed ==> (final(self).hardware_complete() <==> final(self).delivered() == final(self).elements().len()),
            status is Complete <==> final(self).phase_spec() is Complete,
            old(self).phase_spec() is Programmed ==> final(self).phase_spec() is Armed
                && status is Pending,
            old(self).phase_spec() is Armed && !old(self).hardware_complete() ==> *final(self)
                == *old(self) && *final(peripheral) == *old(peripheral) && status is Pending,
            old(self).phase_spec() is Armed && old(self).hardware_complete() ==> final(self).phase_spec() is Complete,
            old(self).phase_spec() is Complete ==> *final(self) == *old(self) && *final(peripheral) == *old(peripheral) && status is Complete,
            status is Complete ==> final(self).delivered() == final(self).elements().len()
                && final(peripheral).destination_log() == final(self).base_log() + final(self).elements(),
    {
        match self.phase {
            TaskPhase::Programmed => {
                peripheral.enable_destination();
                self.channel.enable();
                self.phase = TaskPhase::Armed;
                Poll::Pending
            },
            TaskPhase::Armed => {
                if self.channel.is_complete() {
                    self.channel.clear_complete();
                    peripheral.disable_destination();
                    self.phase = TaskPhase::Complete;
                    proof {
                        assert(self.buffer@.take(self.buffer@.len() as int) =~= self.buffer@);
                    }
                    Poll::Complete
                } else {
                    Poll::Pending
                }
            },
            TaskPhase::Complete => Poll::Complete,
        }
    }

    /// Hardware model: the engine performs one service request, moving the
    /// next buffer element into the peripheral's register and retiring one
    /// minor loop. Retiring the last one sets the sticky completion flag and
    /// auto-disables the channel.
    pub fn service<P: Destination<E>>(&mut self, peripheral: &mut P)
        requires
            old(self).wf(),
            write_coupled(*old(self), *old(peripheral)),
            old(self).phase_spec() is Armed,
            !old(self).hardware_complete(),
        ensures
            final(self).wf(),
            write_coupled(*final(self), *final(peripheral)),
            final(self).phase_spec() is Armed,
            final(self).elements() == old(self).elements(),
            final(self).base_log() == old(self).base_log(),
            final(self).signal_spec() == old(self).signal_spec(),
            final(self).channel_view().index == old(self).channel_view().index,
            final(self).delivered() == old(self).delivered() + 1,
            final(peripheral).destination_log() == old(peripheral).destination_log().push(
                old(self).elements()[old(self).delivered()],
            ),
            final(self).hardware_complete() <==> final(self).delivered() == final(self).elements().len(),
    {
        let index = self.channel.minor_loops_retired();
        let element = self.buffer[index as usize];
        peripheral.deliver(element);
        self.channel.retire_minor_loop();
        proof {
            assert(self.buffer@.take(self.channel@.retired as int) =~= old(self).buffer@.take(old(self).channel@.retired as int).push(element));
        }
    }

    /// Observe completion and take the channel and the buffer back.
    ///
    /// Only a completed task releases its resources this way; an abandoned
    /// one goes through [`Write::cancel`].
    pub fn release(self) -> (r: (Channel, Vec<E>))
        requires
            self.wf(),
            self.phase_spec() is Complete,
        ensures
            r.0@ == self.channel_view(),
            r.0@.wf(),
            r.0@.idle(),
            !r.0@.complete,
            r.1@ == self.elements(),
    {
        (self.channel, self.buffer)
    }

    /// The cancellation guard: abandon the transfer.
    ///
    /// Runs unconditionally, whatever the task's phase: the channel is halted
    /// and disabled and the peripheral's request line is disabled before the
    /// buffer — the exclusive borrow — is handed back. If the transfer had
    /// already completed, the guard is a no-op beyond returning the
    /// resources.
    pub fn cancel<P: Destination<E>>(self, peripheral: &mut P) -> (r: (Channel, Vec<E>))
        requires
            self.wf(),
            write_coupled(self, *old(peripheral)),
        ensures
            r.0@.wf(),
            r.0@.idle(),
            !r.0@.error,
            r.0@.index == self.channel_view().index,
            r.1@ == self.elements(),
            !final(peripheral).destination_request_enabled(),
            final(peripheral).destination_log() == old(peripheral).destination_log(),
            final(peripheral).destination_signal_spec() == old(peripheral).destination_signal_spec(),
            self.phase_spec() is Complete ==> *final(peripheral) == *old(peripheral) && r.0@
                == self.channel_view(),
    {
        let Write { mut channel, buffer, phase, signal: _, base_log: _ } = self;
        match phase {
            TaskPhase::Complete => (channel, buffer),
            _ => {
                channel.disable();
                peripheral.disable_destination();
                (channel, buffer)
            },
        }
    }
}

/// Build a write transfer: move `buffer` into `peripheral`'s register via
/// `channel`.
///
/// Validates the configuration before touching any hardware state: an empty
/// buffer and an element width that does not match the channel's configured
/// minor loop are rejected with the channel and buffer handed back untouched.
/// On success the channel's descriptor is programmed — routing from the
/// peripheral's transmit signal, the buffer as the incrementing source at the
/// model address [`TASK_BUFFER_ADDRESS`], the peripheral register as the
/// fixed destination, one element per service request, auto-disable on
/// completion — but nothing is armed until the first poll.
pub fn write<E: Element, P: Destination<E>>(
    channel: Channel,
    buffer: Vec<E>,
    peripheral: &P,
) -> (result: Result<Write<E>, (ConfigurationError, Channel, Vec<E>)>)
    requires
        channel@.wf(),
        channel@.idle(),
        !channel@.error,
        !peripheral.destination_request_enabled(),
        buffer@.len() <= u16::MAX,
    ensures
        buffer@.len() == 0 ==> (result matches Err((e, c, b)) && e is EmptyBuffer && c@
            == channel@ && b@ == buffer@),
        buffer@.len() > 0 && channel@.minor_loop_bytes != E::width_spec() ==> (result matches
            Err((e, c, b)) && e is ElementWidthMismatch && c@ == channel@ && b@ == buffer@),
        buffer@.len() > 0 && channel@.minor_loop_bytes == E::width_spec() ==> (result matches
            Ok(t) && {
            &&& t.wf()
            &&& write_coupled(t, *peripheral)
            &&& t.phase_spec() is Programmed
            &&& t.elements() == buffer@
            &&& t.delivered() == 0
            &&& t.base_log() == peripheral.destination_log()
            &&& t.signal_spec() == peripheral.destination_signal_spec()
            &&& t.channel_view().index == channel@.index
        }),
{
    let mut channel = channel;
    if buffer.len() == 0 {
        return Err((ConfigurationError::EmptyBuffer, channel, buffer));
    }
    if channel.minor_loop_bytes() != E::width() {
        return Err((ConfigurationError::ElementWidthMismatch, channel, buffer));
    }
    let signal = peripheral.destination_signal();
    channel.set_channel_configuration(ChannelConfiguration::Enable { signal });
    channel.set_source_linear_buffer(TASK_BUFFER_ADDRESS);
    channel.set_destination_hardware(peripheral.destination_address());
    channel.set_transfer_iterations(buffer.len() as u16);
    channel.set_disable_on_completion(true);
    let task = Write {
        channel,
        buffer,
        phase: TaskPhase::Programmed,
        signal: Ghost(signal),
        base_log: Ghost(peripheral.destination_log()),
    };
    proof {
        assert(task.elements().take(0) =~= Seq::<E>::empty());
        assert(task.base_log() + task.elements().take(0) =~= task.base_log());
    }
    Ok(task)
}

/// A read transfer task and its peripheral agree: beyond the fetch history
/// the task started from, the peripheral has handed out exactly what the
/// task wrote into its buffer, and the request line is enabled exactly while
/// the task is armed.
pub open spec fn read_coupled<E: Element, P: Source<E>>(t: Read<E>, p: P) -> bool {
    &&& p.source_signal_spec() == t.signal_spec()
    &&& p.source_fetched() == t.base_fetched() + t.received_elements()
    &&& p.source_request_enabled() == (t.phase_spec() is Armed)
}

/// A suspendable transfer filling the caller's buffer from a peripheral's
/// register, one element per service request.
///
/// The task owns the channel and the buffer for its whole lifetime; see
/// [`Write`] for the ownership discipline.
pub struct Read<E: Element> {
    channel: Channel,
    buffer: Vec<E>,
    phase: TaskPhase,
    signal: Ghost<u32>,
    base_fetched: Ghost<Seq<E>>,
    received: Ghost<Seq<E>>,
    original: Ghost<Seq<E>>,
}

impl<E: Element> Read<E> {
    /// Where the task stands in its lifecycle.
    pub closed spec fn phase_spec(&self) -> TaskPhase {
        self.phase
    }

    /// The buffer's current contents: a received prefix, then the original
    /// contents.
    pub closed spec fn elements(&self) -> Seq<E> {
        self.buffer@
    }

    /// The buffer's contents when the transfer was constructed.
    pub closed spec fn original_elements(&self) -> Seq<E> {
        self.original@
    }

    /// The elements the engine has fetched into the buffer, in order.
    pub closed spec fn received_elements(&self) -> Seq<E> {
        self.received@
    }

    /// How many elements the engine has moved: the retired minor loops.
    pub closed spec fn received_count(&self) -> int {
        self.channel@.retired as int
    }

    /// The channel's sticky completion flag.
    pub closed spec fn hardware_complete(&self) -> bool {
        self.channel@.complete
    }

    /// The owned channel's register state.
    pub closed spec fn channel_view(&self) -> ChannelView {
        self.channel@
    }

    /// The source request signal this transfer is routed to.
    pub closed spec fn signal_spec(&self) -> u32 {
        self.signal@
    }

    /// What the engine had fetched from the peripheral before this transfer
    /// began.
    pub closed spec fn base_fetched(&self) -> Seq<E> {
        self.base_fetched@
    }

    /// The task's internal consistency: the descriptor matches the buffer,
    /// the buffer is the received prefix followed by its original tail, and
    /// the channel state matches the lifecycle phase.
    pub closed spec fn wf(&self) -> bool {
        &&& self.channel@.wf()
        &&& !self.channel@.error
        &&& self.channel@.configuration == (ChannelConfiguration::Enable { signal: self.signal@ })
        &&& self.channel@.minor_loop_bytes == E::width_spec()
        &&& self.channel@.iterations == self.original@.len()
        &&& self.original@.len() > 0
        &&& !self.channel@.source_increments
        &&& self.channel@.destination_increments
        &&& self.channel@.disable_on_completion
        &&& self.received@.len() == self.channel@.retired
        &&& self.buffer@ == self.received@ + self.original@.skip(self.channel@.retired as int)
        &&& match self.phase {
            TaskPhase::Programmed => {
                &&& self.channel@.idle()
                &&& !self.channel@.complete
                &&& self.channel@.retired == 0
            },
            TaskPhase::Armed => {
                &&& self.channel@.enabled == !self.channel@.complete
                &&& self.channel@.complete == (self.channel@.retired == self.channel@.iterations)
                &&& self.channel@.active == (0 < self.channel@.retired
                    < self.channel@.iterations)
            },
            TaskPhase::Complete => {
                &&& self.channel@.idle()
                &&& !self.channel@.complete
                &&& self.channel@.retired == self.channel@.iterations
            },
        }
    }

    /// The service-request counter: minor loops retired so far.
    pub fn minor_loops_retired(&self) -> (n: u16)
        ensures
            n as int == self.received_count(),
    {
        self.channel.minor_loops_retired()
    }

    /// Drive the suspension protocol one step; see [`Write::poll`] for the
    /// lazy-arm, sticky-flag, idempotent-completion sequence.
    pub fn poll<P: Source<E>>(&mut self, peripheral: &mut P) -> (status: Poll)
        requires
            old(self).wf(),
            read_coupled(*old(self), *old(peripheral)),
        ensures
            final(self).wf(),
            read_coupled(*final(self), *final(peripheral)),
            final(self).elements() == old(self).elements(),
            final(self).received_elements() == old(self).received_elements(),
            final(self).original_elements() == old(self).original_elements(),
            final(self).base_fetched() == old(self).base_fetched(),
            final(self).signal_spec() == old(self).signal_spec(),
            final(self).received_count() == old(self).received_count(),
            final(self).channel_view().index == old(self).channel_view().index,
            final(peripheral).source_queue() == old(peripheral).source_queue(),
            final(peripheral).source_fetched() == old(peripheral).source_fetched(),
            final(self).phase_spec() is Armed ==> (final(self).hardware_complete() <==> final(self).received_count() == final(self).original_elements().len()),
            status is Complete <==> final(self).phase_spec() is Complete,
            old(self).phase_spec() is Programmed ==> final(self).phase_spec() is Armed
                && status is Pending,
            old(self).phase_spec() is Armed && !old(self).hardware_complete() ==> *final(self)
                == *old(self) && *final(peripheral) == *old(peripheral) && status is Pending,
            old(self).phase_spec() is Armed && old(self).hardware_complete() ==> final(self).phase_spec() is Complete,
            old(self).phase_spec() is Complete ==> *final(self) == *old(self) && *final(peripheral) == *old(peripheral) && status is Complete,
            status is Complete ==> final(self).received_count() == final(self).original_elements().len() && final(self).elements() == final(self).received_elements(),
    {
        match self.phase {
            TaskPhase::Programmed => {
                peripheral.enable_source();
                self.channel.enable();
                self.phase = TaskPhase::Armed;
                Poll::Pending
            },
            TaskPhase::Armed => {
                if self.channel.is_complete() {
                    self.channel.clear_complete();
                    peripheral.disable_source();
                    self.phase = TaskPhase::Complete;
                    proof {
                        assert(self.buffer@ =~= self.received@);
                    }
                    Poll::Complete
                } else {
                    Poll::Pending
                }
            },
            TaskPhase::Complete => Poll::Complete,
        }
    }

    /// Hardware model: the engine performs one service request, moving one
    /// element from the peripheral's register into the next buffer slot and
    /// retiring one minor loop.
    pub fn service<P: Source<E>>(&mut self, peripheral: &mut P)
        requires
            old(self).wf(),
            read_coupled(*old(self), *old(peripheral)),
            old(self).phase_spec() is Armed,
            !old(self).hardware_complete(),
            old(peripheral).source_queue().len() > 0,
        ensures
            final(self).wf(),
            read_coupled(*final(self), *final(peripheral)),
            final(self).phase_spec() is Armed,
            final(self).original_elements() == old(self).original_elements(),
            final(self).base_fetched() == old(self).base_fetched(),
            final(self).signal_spec() == old(self).signal_spec(),
            final(self).channel_view().index == old(self).channel_view().index,
            final(self).received_count() == old(self).received_count() + 1,
            final(self).received_elements() == old(self).received_elements().push(
                old(peripheral).source_queue()[0],
            ),
            final(self).elements() == old(self).elements().update(
                old(self).received_count(),
                old(peripheral).source_queue()[0],
            ),
            final(peripheral).source_queue() == old(peripheral).source_queue().drop_first(),
            final(self).hardware_complete() <==> final(self).received_count() == final(self).original_elements().len(),
    {
        let element = peripheral.fetch();
        let index = self.channel.minor_loops_retired();
        self.buffer.set(index as usize, element);
        self.channel.retire_minor_loop();
        proof {
            self.received@ = self.received@.push(element);
            assert(self.buffer@ =~= self.received@ + self.original@.skip(
                self.channel@.retired as int,
            ));
        }
    }

    /// Observe completion and take the channel and the filled buffer back.
    pub fn release(self) -> (r: (Channel, Vec<E>))
        requires
            self.wf(),
            self.phase_spec() is Complete,
        ensures
            r.0@ == self.channel_view(),
            r.0@.wf(),
            r.0@.idle(),
            !r.0@.complete,
            r.1@ == self.elements(),
            r.1@ == self.received_elements(),
    {
        proof {
            assert(self.buffer@ =~= self.received@);
        }
        (self.channel, self.buffer)
    }

    /// The cancellation guard: abandon the transfer. See [`Write::cancel`];
    /// the buffer comes back holding whatever prefix the engine had already
    /// received, with its original contents beyond that.
    pub fn cancel<P: Source<E>>(self, peripheral: &mut P) -> (r: (Channel, Vec<E>))
        requires
            self.wf(),
            read_coupled(self, *old(peripheral)),
        ensures
            r.0@.wf(),
            r.0@.idle(),
            !r.0@.error,
            r.0@.index == self.channel_view().index,
            r.1@ == self.elements(),
            !final(peripheral).source_request_enabled(),
            final(peripheral).source_queue() == old(peripheral).source_queue(),
            final(peripheral).source_fetched() == old(peripheral).source_fetched(),
            final(peripheral).source_signal_spec() == old(peripheral).source_signal_spec(),
            self.phase_spec() is Complete ==> *final(peripheral) == *old(peripheral) && r.0@
                == self.channel_view(),
    {
        let Read { mut channel, buffer, phase, signal: _, base_fetched: _, received: _, original: _ } = self;
        match phase {
            TaskPhase::Complete => (channel, buffer),
            _ => {
                channel.disable();
                peripheral.disable_source();
                (channel, buffer)
            },
        }
    }
}

/// Build a read transfer: fill `buffer` from `peripheral`'s register via
/// `channel`.
///
/// Validation and descriptor programming mirror [`write`], with the
/// peripheral register as the fixed source and the buffer as the
/// incrementing destination.
pub fn read<E: Element, P: Source<E>>(
    channel: Channel,
    peripheral: &P,
    buffer: Vec<E>,
) -> (result: Result<Read<E>, (ConfigurationError, Channel, Vec<E>)>)
    requires
        channel@.wf(),
        channel@.idle(),
        !channel@.error,
        !peripheral.source_request_enabled(),
        buffer@.len() <= u16::MAX,
    ensures
        buffer@.len() == 0 ==> (result matches Err((e, c, b)) && e is EmptyBuffer && c@
            == channel@ && b@ == buffer@),
        buffer@.len() > 0 && channel@.minor_loop_bytes != E::width_spec() ==> (result matches
            Err((e, c, b)) && e is ElementWidthMismatch && c@ == channel@ && b@ == buffer@),
        buffer@.len() > 0 && channel@.minor_loop_bytes == E::width_spec() ==> (result matches
            Ok(t) && {
            &&& t.wf()
            &&& read_coupled(t, *peripheral)
            &&& t.phase_spec() is Programmed
            &&& t.elements() == buffer@
            &&& t.original_elements() == buffer@
            &&& t.received_elements() == Seq::<E>::empty()
            &&& t.received_count() == 0
            &&& t.base_fetched() == peripheral.source_fetched()
            &&& t.signal_spec() == peripheral.source_signal_spec()
            &&& t.channel_view().index == channel@.index
        }),
{
    let mut channel = channel;
    if buffer.len() == 0 {
        return Err((ConfigurationError::EmptyBuffer, channel, buffer));
    }
    if channel.minor_loop_bytes() != E::width() {
        return Err((ConfigurationError::ElementWidthMismatch, channel, buffer));
    }
    let signal = peripheral.source_signal();
    channel.set_channel_configuration(ChannelConfiguration::Enable { signal });
    channel.set_source_hardware(peripheral.source_address());
    channel.set_destination_linear_buffer(TASK_BUFFER_ADDRESS);
    channel.set_transfer_iterations(buffer.len() as u16);
    channel.set_disable_on_completion(true);
    let ghost original_contents = buffer@;
    let task = Read {
        channel,
        buffer,
        phase: TaskPhase::Programmed,
        signal: Ghost(signal),
        base_fetched: Ghost(peripheral.source_fetched()),
        received: Ghost(Seq::empty()),
        original: Ghost(original_contents),
    };
    proof {
        assert(task.received_elements() + task.original_elements().skip(0)
            =~= task.original_elements());
        assert(task.base_fetched() + task.received_elements() =~= task.base_fetched());
    }
    Ok(task)
}

/// A peripheral capability: a single buffer may be safely used for
/// simultaneous read and write through this peripheral, with reads always
/// ordered before writes within the same minor loop — the shape a full-duplex
/// serial-style peripheral needs.
///
/// Because a bidirectional port couples both directions of the same hardware,
/// its operations state how each direction leaves the other: delivering an
/// element leaves the fetch history alone, fetching leaves the accept log
/// alone, and on a loopback-wired peripheral every delivered element joins
/// the receive queue.
pub trait Bidirectional<E: Element>: Source<E> + Destination<E> {
    /// Whether the peripheral is wired so that every transmitted element
    /// comes back on the receive side, in order.
    spec fn is_loopback(&self) -> bool;

    /// Enable both request lines.
    fn duplex_arm(&mut self)
        ensures
            final(self).source_request_enabled(),
            final(self).destination_request_enabled(),
            final(self).source_queue() == old(self).source_queue(),
            final(self).source_fetched() == old(self).source_fetched(),
            final(self).destination_log() == old(self).destination_log(),
            final(self).is_loopback() == old(self).is_loopback(),
            final(self).source_signal_spec() == old(self).source_signal_spec(),
            final(self).destination_signal_spec() == old(self).destination_signal_spec(),
            final(self).source_address_spec() == old(self).source_address_spec(),
            final(self).destination_address_spec() == old(self).destination_address_spec(),
    ;

    /// Disable both request lines.
    fn duplex_halt(&mut self)
        ensures
            !final(self).source_request_enabled(),
            !final(self).destination_request_enabled(),
            final(self).source_queue() == old(self).source_queue(),
            final(self).source_fetched() == old(self).source_fetched(),
            final(self).destination_log() == old(self).destination_log(),
            final(self).is_loopback() == old(self).is_loopback(),
            final(self).source_signal_spec() == old(self).source_signal_spec(),
            final(self).destination_signal_spec() == old(self).destination_signal_spec(),
            final(self).source_address_spec() == old(self).source_address_spec(),
            final(self).destination_address_spec() == old(self).destination_address_spec(),
    ;

    /// Hardware model: the engine writes one element to the transmit
    /// register while the receive side keeps running.
    fn duplex_deliver(&mut self, e: E)
        requires
            old(self).destination_request_enabled(),
        ensures
            final(self).destination_log() == old(self).destination_log().push(e),
            final(self).source_fetched() == old(self).source_fetched(),
            old(self).is_loopback() ==> final(self).source_queue() == old(self).source_queue().push(e),
            !old(self).is_loopback() ==> final(self).source_queue() == old(self).source_queue(),
            final(self).source_request_enabled() == old(self).source_request_enabled(),
            final(self).destination_request_enabled(),
            final(self).is_loopback() == old(self).is_loopback(),
            final(self).source_signal_spec() == old(self).source_signal_spec(),
            final(self).destination_signal_spec() == old(self).destination_signal_spec(),
            final(self).source_address_spec() == old(self).source_address_spec(),
            final(self).destination_address_spec() == old(self).destination_address_spec(),
    ;

    /// Hardware model: the engine reads one element from the receive
    /// register while the transmit side keeps running.
    fn duplex_fetch(&mut self) -> (e: E)
        requires
            old(self).source_request_enabled(),
            old(self).source_queue().len() > 0,
        ensures
            e == old(self).source_queue()[0],
            final(self).source_queue() == old(self).source_queue().drop_first(),
            final(self).source_fetched() == old(self).source_fetched().push(e),
            final(self).destination_log() == old(self).destination_log(),
            final(self).source_request_enabled(),
            final(self).destination_request_enabled() == old(self).destination_request_enabled(),
            final(self).is_loopback() == old(self).is_loopback(),
            final(self).source_signal_spec() == old(self).source_signal_spec(),
            final(self).destination_signal_spec() == old(self).destination_signal_spec(),
            final(self).source_address_spec() == old(self).source_address_spec(),
            final(self).destination_address_spec() == old(self).destination_address_spec(),
    ;
}

/// A full-duplex transfer task and the peripheral it was built against
/// agree: the peripheral has accepted the transmitted prefix of the buffer,
/// the fetches since construction are what the task wrote back into the
/// buffer, both request lines follow the task's phase — and on a loopback
/// wiring that started with an empty receive queue, the queue holds exactly
/// the transmitted-but-not-yet-received window of the original buffer.
pub open spec fn duplex_coupled<E: Element, P: Bidirectional<E>>(t: FullDuplex<E>, p: P) -> bool {
    &&& p.destination_signal_spec() == t.destination_signal_spec()
    &&& p.source_signal_spec() == t.source_signal_spec()
    &&& p.destination_log() == t.base_log() + t.original_elements().take(t.sent_count())
    &&& p.source_fetched() == t.base_fetched() + t.received_elements()
    &&& p.source_request_enabled() == (t.phase_spec() is Armed)
    &&& p.destination_request_enabled() == (t.phase_spec() is Armed)
    &&& t.round_trip() ==> {
        &&& p.is_loopback()
        &&& p.source_queue() == t.original_elements().subrange(t.received_count(), t.sent_count())
        &&& t.received_elements() == t.original_elements().take(t.received_count())
    }
}

/// A suspendable transfer simultaneously sending the caller's buffer out
/// through a bidirectional peripheral and filling the same buffer with what
/// comes back, using one channel per direction.
///
/// Within the buffer, the engine's read of an element always precedes the
/// write that overwrites it: the receive side never runs ahead of the
/// transmit side. The task owns both channels and the buffer for its whole
/// lifetime; see [`Write`] for the ownership discipline.
pub struct FullDuplex<E: Element> {
    rx_channel: Channel,
    tx_channel: Channel,
    buffer: Vec<E>,
    phase: TaskPhase,
    source_signal: Ghost<u32>,
    destination_signal: Ghost<u32>,
    original: Ghost<Seq<E>>,
    base_log: Ghost<Seq<E>>,
    base_fetched: Ghost<Seq<E>>,
    received: Ghost<Seq<E>>,
    loop_clean: Ghost<bool>,
}

impl<E: Element> FullDuplex<E> {
    /// Where the task stands in its lifecycle.
    pub closed spec fn phase_spec(&self) -> TaskPhase {
        self.phase
    }

    /// The buffer's current contents: a received prefix, then the original
    /// contents.
    pub closed spec fn elements(&self) -> Seq<E> {
        self.buffer@
    }

    /// The buffer's contents when the transfer was constructed.
    pub closed spec fn original_elements(&self) -> Seq<E> {
        self.original@
    }

    /// The elements the engine has fetched back into the buffer, in order.
    pub closed spec fn received_elements(&self) -> Seq<E> {
        self.received@
    }

    /// Elements sent: the transmit channel's retired minor loops.
    pub closed spec fn sent_count(&self) -> int {
        self.tx_channel@.retired as int
    }

    /// Elements received: the receive channel's retired minor loops.
    pub closed spec fn received_count(&self) -> int {
        self.rx_channel@.retired as int
    }

    /// Both channels' sticky completion flags are set.
    pub closed spec fn hardware_complete(&self) -> bool {
        self.rx_channel@.complete && self.tx_channel@.complete
    }

    /// The owned receive channel's register state.
    pub closed spec fn rx_channel_view(&self) -> ChannelView {
        self.rx_channel@
    }

    /// The owned transmit channel's register state.
    pub closed spec fn tx_channel_view(&self) -> ChannelView {
        self.tx_channel@
    }

    /// The receive request signal this transfer is routed to.
    pub closed spec fn source_signal_spec(&self) -> u32 {
        self.source_signal@
    }

    /// The transmit request signal this transfer is routed to.
    pub closed spec fn destination_signal_spec(&self) -> u32 {
        self.destination_signal@
    }

    /// What the peripheral had accepted before this transfer began.
    pub closed spec fn base_log(&self) -> Seq<E> {
        self.base_log@
    }

    /// What the engine had fetched from the peripheral before this transfer
    /// began.
    pub closed spec fn base_fetched(&self) -> Seq<E> {
        self.base_fetched@
    }

    /// The transfer began against a loopback-wired peripheral with an empty
    /// receive queue: everything received is the transfer's own data, so a
    /// completed transfer reproduces the original buffer exactly.
    pub closed spec fn round_trip(&self) -> bool {
        self.loop_clean@
    }

    /// The task's internal consistency: both descriptors match the buffer,
    /// the buffer is the received prefix followed by its original tail, the
    /// receive side never runs ahead of the transmit side, and both channels
    /// match the lifecycle phase.
    pub closed spec fn wf(&self) -> bool {
        &&& self.rx_channel@.wf()
        &&& self.tx_channel@.wf()
        &&& !self.rx_channel@.error
        &&& !self.tx_channel@.error
        &&& self.rx_channel@.configuration == (ChannelConfiguration::Enable {
            signal: self.source_signal@,
        })
        &&& self.tx_channel@.configuration == (ChannelConfiguration::Enable {
            signal: self.destination_signal@,
        })
        &&& self.rx_channel@.minor_loop_bytes == E::width_spec()
        &&& self.tx_channel@.minor_loop_bytes == E::width_spec()
        &&& self.rx_channel@.iterations == self.original@.len()
        &&& self.tx_channel@.iterations == self.original@.len()
        &&& self.original@.len() > 0
        &&& !self.rx_channel@.source_increments
        &&& self.rx_channel@.destination_increments
        &&& self.tx_channel@.source_increments
        &&& !self.tx_channel@.destination_increments
        &&& self.rx_channel@.disable_on_completion
        &&& self.tx_channel@.disable_on_completion
        &&& self.rx_channel@.retired <= self.tx_channel@.retired
        &&& self.received@.len() == self.rx_channel@.retired
        &&& self.buffer@ == self.received@ + self.original@.skip(self.rx_channel@.retired as int)
        &&& match self.phase {
            TaskPhase::Programmed => {
                &&& self.rx_channel@.idle()
                &&& self.tx_channel@.idle()
                &&& !self.rx_channel@.complete
                &&& !self.tx_channel@.complete
                &&& self.rx_channel@.retired == 0
                &&& self.tx_channel@.retired == 0
            },
            TaskPhase::Armed => {
                &&& self.rx_channel@.enabled == !self.rx_channel@.complete
                &&& self.tx_channel@.enabled == !self.tx_channel@.complete
                &&& self.rx_channel@.complete == (self.rx_channel@.retired
                    == self.rx_channel@.iterations)
                &&& self.tx_channel@.complete == (self.tx_channel@.retired
                    == self.tx_channel@.iterations)
                &&& self.rx_channel@.active == (0 < self.rx_channel@.retired
                    < self.rx_channel@.iterations)
                &&& self.tx_channel@.active == (0 < self.tx_channel@.retired
                    < self.tx_channel@.iterations)
            },
            TaskPhase::Complete => {
                &&& self.rx_channel@.idle()
                &&& self.tx_channel@.idle()
                &&& !self.rx_channel@.complete
                &&& !self.tx_channel@.complete
                &&& self.rx_channel@.retired == self.rx_channel@.iterations
                &&& self.tx_channel@.retired == self.tx_channel@.iterations
            },
        }
    }

    /// The transmit-side service-request counter.
    pub fn transmit_minor_loops_retired(&self) -> (n: u16)
        ensures
            n as int == self.sent_count(),
    {
        self.tx_channel.minor_loops_retired()
    }

    /// The receive-side service-request counter.
    pub fn receive_minor_loops_retired(&self) -> (n: u16)
        ensures
            n as int == self.received_count(),
    {
        self.rx_channel.minor_loops_retired()
    }

    /// Drive the suspension protocol one step; see [`Write::poll`] for the
    /// lazy-arm, sticky-flag, idempotent-completion sequence. Completion is
    /// reported only once both directions' flags are set: every element was
    /// sent and every slot was filled with what came back.
    pub fn poll<P: Bidirectional<E>>(&mut self, peripheral: &mut P) -> (status: Poll)
        requires
            old(self).wf(),
            duplex_coupled(*old(self), *old(peripheral)),
        ensures
            final(self).wf(),
            duplex_coupled(*final(self), *final(peripheral)),
            final(self).elements() == old(self).elements(),
            final(self).received_elements() == old(self).received_elements(),
            final(self).original_elements() == old(self).original_elements(),
            final(self).base_log() == old(self).base_log(),
            final(self).base_fetched() == old(self).base_fetched(),
            final(self).source_signal_spec() == old(self).source_signal_spec(),
            final(self).destination_signal_spec() == old(self).destination_signal_spec(),
            final(self).round_trip() == old(self).round_trip(),
            final(self).sent_count() == old(self).sent_count(),
            final(self).received_count() == old(self).received_count(),
            final(self).rx_channel_view().index == old(self).rx_channel_view().index,
            final(self).tx_channel_view().index == old(self).tx_channel_view().index,
            final(peripheral).source_queue() == old(peripheral).source_queue(),
            final(peripheral).source_fetched() == old(peripheral).source_fetched(),
            final(peripheral).destination_log() == old(peripheral).destination_log(),
            final(self).phase_spec() is Armed ==> (final(self).hardware_complete() <==> (final(self).sent_count() == final(self).original_elements().len() && final(self).received_count() == final(self).original_elements().len())),
            status is Complete <==> final(self).phase_spec() is Complete,
            old(self).phase_spec() is Programmed ==> final(self).phase_spec() is Armed
                && status is Pending,
            old(self).phase_spec() is Armed && !old(self).hardware_complete() ==> *final(self)
                == *old(self) && *final(peripheral) == *old(peripheral) && status is Pending,
            old(self).phase_spec() is Armed && old(self).hardware_complete() ==> final(self).phase_spec() is Complete,
            old(self).phase_spec() is Complete ==> *final(self) == *old(self) && *final(peripheral) == *old(peripheral) && status is Complete,
            status is Complete ==> {
                &&& final(self).sent_count() == final(self).original_elements().len()
                &&& final(self).received_count() == final(self).original_elements().len()
                &&& final(self).elements() == final(self).received_elements()
                &&& final(peripheral).destination_log() == final(self).base_log() + final(self).original_elements()
            },
            status is Complete && final(self).round_trip() ==> final(self).elements() == final(self).original_elements(),
    {
        match self.phase {
            TaskPhase::Programmed => {
                peripheral.duplex_arm();
                self.rx_channel.enable();
                self.tx_channel.enable();
                self.phase = TaskPhase::Armed;
                Poll::Pending
            },
            TaskPhase::Armed => {
                if self.rx_channel.is_complete() && self.tx_channel.is_complete() {
                    self.rx_channel.clear_complete();
                    self.tx_channel.clear_complete();
                    peripheral.duplex_halt();
                    self.phase = TaskPhase::Complete;
                    proof {
                        assert(self.buffer@ =~= self.received@);
                        assert(self.original@.take(self.original@.len() as int)
                            =~= self.original@);
                    }
                    Poll::Complete
                } else {
                    Poll::Pending
                }
            },
            TaskPhase::Complete => Poll::Complete,
        }
    }

    /// Hardware model: the transmit channel performs one service request,
    /// moving the next untransmitted buffer element into the peripheral's
    /// transmit register. The element sent is always original buffer data:
    /// the receive side has not yet overwritten it.
    pub fn service_transmit<P: Bidirectional<E>>(&mut self, peripheral: &mut P)
        requires
            old(self).wf(),
            duplex_coupled(*old(self), *old(peripheral)),
            old(self).phase_spec() is Armed,
            old(self).sent_count() < old(self).original_elements().len(),
        ensures
            final(self).wf(),
            duplex_coupled(*final(self), *final(peripheral)),
            final(self).phase_spec() is Armed,
            final(self).elements() == old(self).elements(),
            final(self).received_elements() == old(self).received_elements(),
            final(self).original_elements() == old(self).original_elements(),
            final(self).base_log() == old(self).base_log(),
            final(self).base_fetched() == old(self).base_fetched(),
            final(self).source_signal_spec() == old(self).source_signal_spec(),
            final(self).destination_signal_spec() == old(self).destination_signal_spec(),
            final(self).round_trip() == old(self).round_trip(),
            final(self).rx_channel_view().index == old(self).rx_channel_view().index,
            final(self).tx_channel_view().index == old(self).tx_channel_view().index,
            final(self).sent_count() == old(self).sent_count() + 1,
            final(self).received_count() == old(self).received_count(),
            final(peripheral).destination_log() == old(peripheral).destination_log().push(
                old(self).original_elements()[old(self).sent_count()],
            ),
            final(peripheral).source_fetched() == old(peripheral).source_fetched(),
            old(self).round_trip() ==> final(peripheral).source_queue() == old(peripheral).source_queue().push(old(self).original_elements()[old(self).sent_count()]),
            final(self).hardware_complete() <==> (final(self).sent_count() == final(self).original_elements().len() && final(self).received_count() == final(self).original_elements().len()),
    {
        let index = self.tx_channel.minor_loops_retired();
        let element = self.buffer[index as usize];
        proof {
            assert(self.buffer@[index as int] == self.original@[index as int]);
        }
        peripheral.duplex_deliver(element);
        self.tx_channel.retire_minor_loop();
        proof {
            assert(self.original@.take(self.tx_channel@.retired as int) =~= old(self).original@.take(old(self).tx_channel@.retired as int).push(element));
            if self.loop_clean@ {
                assert(self.original@.subrange(
                    self.rx_channel@.retired as int,
                    self.tx_channel@.retired as int,
                ) =~= old(self).original@.subrange(
                    old(self).rx_channel@.retired as int,
                    old(self).tx_channel@.retired as int,
                ).push(element));
            }
        }
    }

    /// Hardware model: the receive channel performs one service request,
    /// moving one element from the peripheral's receive register into the
    /// next buffer slot. Within the buffer, the read of a slot always
    /// precedes the write: the receive side stays strictly behind the
    /// transmit side.
    pub fn service_receive<P: Bidirectional<E>>(&mut self, peripheral: &mut P)
        requires
            old(self).wf(),
            duplex_coupled(*old(self), *old(peripheral)),
            old(self).phase_spec() is Armed,
            old(self).received_count() < old(self).sent_count(),
            old(peripheral).source_queue().len() > 0,
        ensures
            final(self).wf(),
            duplex_coupled(*final(self), *final(peripheral)),
            final(self).phase_spec() is Armed,
            final(self).original_elements() == old(self).original_elements(),
            final(self).base_log() == old(self).base_log(),
            final(self).base_fetched() == old(self).base_fetched(),
            final(self).source_signal_spec() == old(self).source_signal_spec(),
            final(self).destination_signal_spec() == old(self).destination_signal_spec(),
            final(self).round_trip() == old(self).round_trip(),
            final(self).rx_channel_view().index == old(self).rx_channel_view().index,
            final(self).tx_channel_view().index == old(self).tx_channel_view().index,
            final(self).sent_count() == old(self).sent_count(),
            final(self).received_count() == old(self).received_count() + 1,
            final(self).received_elements() == old(self).received_elements().push(
                old(peripheral).source_queue()[0],
            ),
            final(self).elements() == old(self).elements().update(
                old(self).received_count(),
                old(peripheral).source_queue()[0],
            ),
            final(peripheral).source_queue() == old(peripheral).source_queue().drop_first(),
            final(peripheral).destination_log() == old(peripheral).destination_log(),
            old(self).round_trip() ==> final(self).elements() == old(self).elements(),
            final(self).hardware_complete() <==> (final(self).sent_count() == final(self).original_elements().len() && final(self).received_count() == final(self).original_elements().len()),
    {
        let element = peripheral.duplex_fetch();
        let index = self.rx_channel.minor_loops_retired();
        proof {
            if self.loop_clean@ {
                assert(old(peripheral).source_queue()[0] == self.original@[index as int]);
                assert(self.buffer@[index as int] == self.original@[index as int]);
            }
        }
        self.buffer.set(index as usize, element);
        self.rx_channel.retire_minor_loop();
        proof {
            self.received@ = self.received@.push(element);
            assert(self.buffer@ =~= self.received@ + self.original@.skip(
                self.rx_channel@.retired as int,
            ));
            if self.loop_clean@ {
                assert(self.received@ =~= self.original@.take(self.rx_channel@.retired as int));
                assert(self.original@.subrange(
                    self.rx_channel@.retired as int,
                    self.tx_channel@.retired as int,
                ) =~= old(peripheral).source_queue().drop_first());
                assert(self.buffer@ =~= old(self).buffer@);
            }
        }
    }

    /// Observe completion and take both channels and the buffer back.
    pub fn release(self) -> (r: (Channel, Channel, Vec<E>))
        requires
            self.wf(),
            self.phase_spec() is Complete,
        ensures
            r.0@ == self.rx_channel_view(),
            r.1@ == self.tx_channel_view(),
            r.0@.wf(),
            r.1@.wf(),
            r.0@.idle(),
            r.1@.idle(),
            !r.0@.complete,
            !r.1@.complete,
            r.2@ == self.elements(),
            r.2@ == self.received_elements(),
    {
        proof {
            assert(self.buffer@ =~= self.received@);
        }
        (self.rx_channel, self.tx_channel, self.buffer)
    }

    /// The cancellation guard: abandon the transfer. Both channels are
    /// halted and disabled and both request lines are disabled before the
    /// buffer is handed back; a no-op beyond returning the resources if the
    /// transfer had already completed.
    pub fn cancel<P: Bidirectional<E>>(self, peripheral: &mut P) -> (r: (Channel, Channel, Vec<E>))
        requires
            self.wf(),
            duplex_coupled(self, *old(peripheral)),
        ensures
            r.0@.wf(),
            r.1@.wf(),
            r.0@.idle(),
            r.1@.idle(),
            !r.0@.error,
            !r.1@.error,
            r.0@.index == self.rx_channel_view().index,
            r.1@.index == self.tx_channel_view().index,
            r.2@ == self.elements(),
            !final(peripheral).source_request_enabled(),
            !final(peripheral).destination_request_enabled(),
            final(peripheral).source_queue() == old(peripheral).source_queue(),
            final(peripheral).source_fetched() == old(peripheral).source_fetched(),
            final(peripheral).destination_log() == old(peripheral).destination_log(),
            self.phase_spec() is Complete ==> *final(peripheral) == *old(peripheral) && r.0@
                == self.rx_channel_view() && r.1@ == self.tx_channel_view(),
    {
        let FullDuplex {
            mut rx_channel,
            mut tx_channel,
            buffer,
            phase,
            source_signal: _,
            destination_signal: _,
            original: _,
            base_log: _,
            base_fetched: _,
            received: _,
            loop_clean: _,
        } = self;
        match phase {
            TaskPhase::Complete => (rx_channel, tx_channel, buffer),
            _ => {
                rx_channel.disable();
                tx_channel.disable();
                peripheral.duplex_halt();
                (rx_channel, tx_channel, buffer)
            },
        }
    }
}

/// Build a full-duplex transfer: simultaneously send `buffer` out through
/// `peripheral` on `tx_channel` and fill the same buffer with what comes
/// back on `rx_channel`.
///
/// Validation and descriptor programming mirror [`write`] and [`read`], with
/// both channels checked against the capability's element width before any
/// state is touched.
pub fn full_duplex<E: Element, P: Bidirectional<E>>(
    rx_channel: Channel,
    tx_channel: Channel,
    peripheral: &P,
    buffer: Vec<E>,
) -> (result: Result<FullDuplex<E>, (ConfigurationError, Channel, Channel, Vec<E>)>)
    requires
        rx_channel@.wf(),
        tx_channel@.wf(),
        rx_channel@.idle(),
        tx_channel@.idle(),
        !rx_channel@.error,
        !tx_channel@.error,
        !peripheral.source_request_enabled(),
        !peripheral.destination_request_enabled(),
        buffer@.len() <= u16::MAX,
    ensures
        buffer@.len() == 0 ==> (result matches Err((e, rc, tc, b)) && e is EmptyBuffer && rc@
            == rx_channel@ && tc@ == tx_channel@ && b@ == buffer@),
        buffer@.len() > 0 && (rx_channel@.minor_loop_bytes != E::width_spec()
            || tx_channel@.minor_loop_bytes != E::width_spec()) ==> (result matches
            Err((e, rc, tc, b)) && e is ElementWidthMismatch && rc@ == rx_channel@ && tc@
            == tx_channel@ && b@ == buffer@),
        buffer@.len() > 0 && rx_channel@.minor_loop_bytes == E::width_spec()
            && tx_channel@.minor_loop_bytes == E::width_spec() ==> (result matches Ok(t) && {
            &&& t.wf()
            &&& duplex_coupled(t, *peripheral)
            &&& t.phase_spec() is Programmed
            &&& t.elements() == buffer@
            &&& t.original_elements() == buffer@
            &&& t.received_elements() == Seq::<E>::empty()
            &&& t.sent_count() == 0
            &&& t.received_count() == 0
            &&& t.base_log() == peripheral.destination_log()
            &&& t.base_fetched() == peripheral.source_fetched()
            &&& t.source_signal_spec() == peripheral.source_signal_spec()
            &&& t.destination_signal_spec() == peripheral.destination_signal_spec()
            &&& t.rx_channel_view().index == rx_channel@.index
            &&& t.tx_channel_view().index == tx_channel@.index
            &&& t.round_trip() == (peripheral.is_loopback() && peripheral.source_queue().len()
                == 0)
        }),
{
    let mut rx_channel = rx_channel;
    let mut tx_channel = tx_channel;
    if buffer.len() == 0 {
        return Err((ConfigurationError::EmptyBuffer, rx_channel, tx_channel, buffer));
    }
    if rx_channel.minor_loop_bytes() != E::width() || tx_channel.minor_loop_bytes() != E::width() {
        return Err((ConfigurationError::ElementWidthMismatch, rx_channel, tx_channel, buffer));
    }
    let source_signal = peripheral.source_signal();
    let destination_signal = peripheral.destination_signal();
    rx_channel.set_channel_configuration(ChannelConfiguration::Enable { signal: source_signal });
    rx_channel.set_source_hardware(peripheral.source_address());
    rx_channel.set_destination_linear_buffer(TASK_BUFFER_ADDRESS);
    rx_channel.set_transfer_iterations(buffer.len() as u16);
    rx_channel.set_disable_on_completion(true);
    tx_channel.set_channel_configuration(
        ChannelConfiguration::Enable { signal: destination_signal },
    );
    tx_channel.set_source_linear_buffer(TASK_BUFFER_ADDRESS);
    tx_channel.set_destination_hardware(peripheral.destination_address());
    tx_channel.set_transfer_iterations(buffer.len() as u16);
    tx_channel.set_disable_on_completion(true);
    let ghost original_contents = buffer@;
    let ghost clean = peripheral.is_loopback() && peripheral.source_queue().len() == 0;
    let task = FullDuplex {
        rx_channel,
        tx_channel,
        buffer,
        phase: TaskPhase::Programmed,
        source_signal: Ghost(source_signal),
        destination_signal: Ghost(destination_signal),
        original: Ghost(original_contents),
        base_log: Ghost(peripheral.destination_log()),
        base_fetched: Ghost(peripheral.source_fetched()),
        received: Ghost(Seq::empty()),
        loop_clean: Ghost(clean),
    };
    proof {
        assert(task.received_elements() + task.original_elements().skip(0)
            =~= task.original_elements());
        assert(task.base_log() + task.original_elements().take(0) =~= task.base_log());
        assert(task.base_fetched() + task.received_elements() =~= task.base_fetched());
        if task.round_trip() {
            assert(peripheral.source_queue() =~= task.original_elements().subrange(0, 0));
            assert(task.received_elements() =~= task.original_elements().take(0));
        }
    }
    Ok(task)
}

} // verus!
