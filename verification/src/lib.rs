//! Interconnect of an 8-bit game console: the address decoders of the CPU-side
//! and picture-side buses, the OAM DMA hand-off between them, and the
//! orchestrator that drives the master clock.
//!
//! The processor, the picture unit, the audio unit, the controllers and the
//! cartridge are supplied by the user through the traits in [`device`].
//! Everything that the interconnect itself decides is verified: which memory
//! or device an address resolves to ([`decode`]), what the buses hold and
//! hand on ([`bus`]), what a DMA costs and where its bytes land ([`dma`]), in
//! which order a step of the master clock runs ([`nes`]), and what a session
//! answers before a console is loaded ([`session`]).
pub mod bus;
pub mod decode;
pub mod device;
pub mod dma;
pub mod error;
pub mod nes;
pub mod session;
pub mod word;
