//! Hardware abstraction layer for the i.MX RT family of microcontrollers,
//! centered on the asynchronous DMA transfer subsystem.
//!
//! Hardware register blocks are represented by explicit model types holding
//! plain values, so that every driver operation carries a contract over the
//! modeled registers and the transfer protocol is verified end to end:
//! channels are handed out exactly once, a transfer's buffer is owned by the
//! task until the engine is quiescent, and completion is a sticky,
//! idempotently observed flag.

pub mod adc;
pub mod analog;
pub mod dma;
pub mod flexpwm;
pub mod lpspi;
pub mod lpuart;
pub mod sai;
