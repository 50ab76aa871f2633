//! Bit-exact models of the memory-mapped register blocks the HAL drives: one
//! GPIO port block and one Timer B block. Every mutation is a masked
//! read-modify-write or a whole-register write, exactly as the hardware
//! accepts them.

pub mod gpio;
pub mod timerb;
