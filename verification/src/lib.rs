//! Register-level core of a driver for the TEA5767 FM radio tuner.
//!
//! The chip is set by writing it a frame of five bytes and observed by reading
//! one of five bytes. This crate builds the one and reads the other; moving
//! them over the bus is left to the caller.

pub mod bits;
pub mod defs;
pub mod device;
pub mod regs;
pub mod search;
