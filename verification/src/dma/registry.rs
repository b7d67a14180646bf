//! The fixed-size pool of all hardware channels for one DMA controller.
//!
//! On initialization every lane is reset to a known-idle state. Each lane's
//! exclusive handle is handed out at most once: taking a channel leaves an
//! empty marker in its slot, and there is no give-back primitive — channel
//! handles are borrowed for the lifetime of the calling driver, which is the
//! intended safety boundary. A lane is reconfigured in place across uses.

use vstd::prelude::*;

use crate::dma::channel::{Channel, ChannelView};

verus! {

/// A successful take needs the slot to still hold its channel.
pub open spec fn take_succeeds(slots: Seq<Option<ChannelView>>, index: int) -> bool {
    0 <= index < slots.len() && slots[index] is Some
}

/// The registry contents after the channel at `index` was taken.
pub open spec fn after_take(
    slots: Seq<Option<ChannelView>>,
    index: int,
) -> Seq<Option<ChannelView>> {
    slots.update(index, None)
}

/// Exclusivity of channel handles: once a channel is taken, taking the same
/// index again — without any way to give the first handle back — must fail.
/// No second live handle to a lane can ever be minted.
pub proof fn lemma_take_is_exclusive(slots: Seq<Option<ChannelView>>, index: int)
    requires
        take_succeeds(slots, index),
    ensures
        !take_succeeds(after_take(slots, index), index),
{
}

/// The channel pool of one DMA controller.
pub struct ChannelRegistry {
    slots: Vec<Option<Channel>>,
}

impl View for ChannelRegistry {
    type V = Seq<Option<ChannelView>>;

    closed spec fn view(&self) -> Seq<Option<ChannelView>> {
        self.slots@.map_values(
            |slot: Option<Channel>|
                match slot {
                    Some(c) => Some(c@),
                    None => None,
                },
        )
    }
}

impl ChannelRegistry {
    /// Build the pool for a controller with `count` lanes, resetting every
    /// lane to its known-idle state.
    pub fn new(count: usize) -> (r: ChannelRegistry)
        ensures
            r@.len() == count,
            forall|i: int|
                0 <= i < count ==> r@[i] == Some(ChannelView::reset(i as usize)),
    {
        let mut slots: Vec<Option<Channel>> = Vec::new();
        let mut index: usize = 0;
        while index < count
            invariant
                index <= count,
                slots@.len() == index,
                forall|i: int|
                    0 <= i < index ==> (#[trigger] slots@[i] matches Some(c) && c@
                        == ChannelView::reset(i as usize)),
            decreases count - index,
        {
            let mut channel = Channel::new(index);
            channel.reset();
            slots.push(Some(channel));
            index = index + 1;
        }
        let r = ChannelRegistry { slots };
        proof {
            assert(forall|i: int|
                0 <= i < count ==> r@[i] == Some(ChannelView::reset(i as usize)));
        }
        r
    }

    /// How many lanes the controller has.
    pub fn channel_count(&self) -> (n: usize)
        ensures
            n == self@.len(),
    {
        self.slots.len()
    }

    /// Take exclusive possession of the channel at `index`.
    ///
    /// Succeeds exactly once per lane: the handle moves out and an empty
    /// marker stays behind, so a second take of the same index fails rather
    /// than aliasing the first handle. Out-of-range indices and already-taken
    /// slots report failure with the pool unchanged, so callers can probe
    /// availability.
    pub fn take_channel(&mut self, index: usize) -> (r: Option<Channel>)
        ensures
            take_succeeds(old(self)@, index as int) ==> {
                &&& r matches Some(c) && Some(c@) == old(self)@[index as int]
                &&& final(self)@ == after_take(old(self)@, index as int)
            },
            !take_succeeds(old(self)@, index as int) ==> {
                &&& r is None
                &&& final(self)@ == old(self)@
            },
    {
        if index >= self.slots.len() {
            return None;
        }
        let slot = &mut self.slots[index];
        let r = slot.take();
        proof {
            if take_succeeds(old(self)@, index as int) {
                assert(self@ =~= after_take(old(self)@, index as int));
            } else {
                assert(self@ =~= old(self)@);
            }
        }
        r
    }
}

} // verus!
