//! Marker types for the individual pins of the I/O expander, for callers
//! that dedicate a type to each wired pin.

use vstd::prelude::*;

verus! {

/// Pin 0 of the low port.
pub struct P0;

/// Pin 1 of the low port.
pub struct P1;

/// Pin 2 of the low port.
pub struct P2;

/// Pin 3 of the low port.
pub struct P3;

/// Pin 4 of the low port.
pub struct P4;

/// Pin 5 of the low port.
pub struct P5;

/// Pin 6 of the low port.
pub struct P6;

/// Pin 7 of the low port.
pub struct P7;

/// Pin 0 of the high port.
pub struct P8;

/// Pin 1 of the high port.
pub struct P9;

/// Pin 2 of the high port.
pub struct P10;

/// Pin 3 of the high port.
pub struct P11;

/// Pin 4 of the high port.
pub struct P12;

/// Pin 5 of the high port.
pub struct P13;

/// Pin 6 of the high port.
pub struct P14;

/// Pin 7 of the high port.
pub struct P15;

} // verus!
