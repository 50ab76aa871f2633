//! Hardware-abstraction layer for the MSP430FR2x5x family: GPIO pin
//! typestates with alternate-function multiplexing, and the Timer B
//! capture/compare peripheral, built on a bit-exact model of the
//! memory-mapped register blocks.
//!
//! Every register mutation is a masked set/clear/toggle of single bits, so
//! sibling pins sharing a register are never disturbed; the model records the
//! exact sequence of writes each operation issues.

pub mod batch_gpio;
pub mod bits;
pub mod gpio;
pub mod hw_traits;
