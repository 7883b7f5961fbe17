//! Hardware abstraction layer for the STM32L0x3 family of microcontrollers.
//!
//! The heart of the crate is the clock tree: a builder collects the desired
//! oscillator and bus frequencies, a pure resolver turns them into the
//! divider and multiplier settings the hardware can actually decode, and a
//! sequencer emits the register writes in the one order that never leaves
//! the chip in an invalid intermediate state.

pub mod exti;
pub mod i2c;
pub mod lpusart;
pub mod prelude;
pub mod rcc;
pub mod sequencer;
pub mod time;
