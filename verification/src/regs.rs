//! Where each field lies in the five bytes written to the chip and in the five
//! bytes read from it.
//!
//! A position counts from the least significant bit of its byte; a range
//! excludes its end. `WM` marks the frame written, `RM` the frame read, and
//! `DB1` to `DB5` the data bytes in the order in which they travel.

use core::ops::Range;
use vstd::prelude::*;

verus! {

/// The chip's bus address, in seven bits.
pub const DEVICE_ADDRESS: u8 = 0x60;

// Written, data byte 1
/// Mute both channels.
pub const WM_DB1_MUTE: usize = 7;

/// Search mode.
pub const WM_DB1_SM: usize = 6;

/// High six bits of the divisor.
pub const WM_DB1_PLL: Range<usize> = 0..6;

// Written, data byte 2
/// Low eight bits of the divisor.
pub const WM_DB2_PLL: Range<usize> = 0..8;

// Written, data byte 3
/// Search up rather than down.
pub const WM_DB3_SUD: usize = 7;

/// Signal level at which a search stops.
pub const WM_DB3_SSL: Range<usize> = 5..7;

/// High-side injection.
pub const WM_DB3_HLSI: usize = 4;

/// Forced mono.
pub const WM_DB3_MS: usize = 3;

/// Mute the right channel.
pub const WM_DB3_MR: usize = 2;

/// Mute the left channel.
pub const WM_DB3_ML: usize = 1;

/// Software programmable port 1.
pub const WM_DB3_SWP1: usize = 0;

// Written, data byte 4
/// Software programmable port 2.
pub const WM_DB4_SWP2: usize = 7;

/// Standby.
pub const WM_DB4_STBY: usize = 6;

/// Japanese band rather than the European and US band.
pub const WM_DB4_BL: usize = 5;

/// Clock taken from a 32.768 kHz crystal.
pub const WM_DB4_XTAL: usize = 4;

/// Soft mute.
pub const WM_DB4_SMUTE: usize = 3;

/// High cut control.
pub const WM_DB4_HCC: usize = 2;

/// Stereo noise cancelling.
pub const WM_DB4_SNC: usize = 1;

/// Search indicator.
pub const WM_DB4_SI: usize = 0;

// Written, data byte 5
/// Clock taken from a 6.5 MHz reference.
pub const WM_DB5_PLLREF: usize = 7;

/// De-emphasis of 75 microseconds rather than 50.
pub const WM_DB5_DTC: usize = 6;

// Read, data byte 1
/// Ready: a station was found or the band limit reached.
pub const RM_DB1_RF: usize = 7;

/// The band limit was reached.
pub const RM_DB1_BLF: usize = 6;

/// High six bits of the divisor.
pub const RM_DB1_PLL: Range<usize> = 0..6;

// Read, data byte 2
/// Low eight bits of the divisor.
pub const RM_DB2_PLL: Range<usize> = 0..8;

// Read, data byte 3
/// Stereo reception.
pub const RM_DB3_STEREO: usize = 7;

// Read, data byte 4
/// Level of the signal, as the chip's converter reports it.
pub const RM_DB4_LEV: Range<usize> = 4..8;

/// Bits of a sixteen-bit divisor word that the high byte of a frame carries.
pub const PLL_HIGH: Range<usize> = 8..14;

/// Bits of a sixteen-bit divisor word that the low byte of a frame carries.
pub const PLL_LOW: Range<usize> = 0..8;

/// The two bits of a frame's first byte that lie above the divisor.
pub const PLL_ABOVE: Range<usize> = 6..8;

} // verus!
