//! Byte-level transport and device-protocol layer for integrity-checked
//! binary frames over byte-oriented links.
//!
//! The crate provides a streaming byte-stuffing codec (a reversible,
//! delimiter-safe encoding of arbitrary payloads), a word-oriented
//! command-framing protocol with CRC-16 integrity checking, and small
//! register-level drivers for a multi-channel analog-to-digital converter,
//! a temperature sensor and an I/O expander, all specified and verified
//! against mathematical models of the wire formats.

use vstd::prelude::*;

pub mod ads131m08;
pub mod cobs;
pub mod crc;
pub mod p3t1755;
pub mod protocol;
pub mod storage;
pub mod tca9535;
pub mod transport;

verus! {

/// The battery cell monitoring agent: the firmware-side owner of the
/// drivers and codecs this crate provides.
pub struct Cellagent {
    _private: (),
}

} // verus!
