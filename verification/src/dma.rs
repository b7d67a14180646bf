//! Direct memory access.
//!
//! The DMA engine copies elements between memory buffers and fixed peripheral
//! registers while software cooperatively suspends and resumes around the
//! copy. The pieces:
//!
//! - [`channel::Channel`] is one hardware engine lane and its register-level
//!   configuration.
//! - [`registry::ChannelRegistry`] owns every lane of a controller and hands
//!   each exclusive handle out at most once.
//! - [`peripheral`] holds the capability interface peripheral drivers
//!   implement to act as DMA endpoints, and the suspendable transfer tasks
//!   built on top of it.
//!
//! Hardware registers are represented by explicit model state on the types,
//! and hardware progress — one minor loop retiring per service request — is
//! an explicit step on a transfer task. Callers drive that step where real
//! hardware would run on its own, and every step and observation carries a
//! contract.

pub mod channel;
pub mod peripheral;
pub mod registry;

use vstd::prelude::*;

verus! {

/// The total number of DMA channels per controller.
pub const CHANNEL_COUNT: usize = 32;

} // verus!
