//! Register map of the analog-to-digital converter.

use vstd::prelude::*;

verus! {

/// Device identification register.
pub const ID: u8 = 0x00;

/// Status register.
pub const STATUS: u8 = 0x01;

/// Mode register.
pub const MODE: u8 = 0x02;

/// Clock register.
pub const CLOCK: u8 = 0x03;

/// Gain register for channels 0 to 3.
pub const GAIN1: u8 = 0x04;

/// Gain register for channels 4 to 7.
pub const GAIN2: u8 = 0x05;

/// Configuration register.
pub const CFG: u8 = 0x06;

/// Current-detect threshold register, high word.
pub const THRESHOLD_MSB: u8 = 0x07;

/// Current-detect threshold register, low word.
pub const THRESHOLD_LSB: u8 = 0x08;

/// First per-channel register.
pub const CH_BASE: u8 = 0x09;

/// Number of registers per channel.
pub const CH_STRIDE: u8 = 0x05;

/// Offset of a channel's configuration register within its group.
pub const CH_CFG_OFFSET: u8 = 0x00;

/// Offset of a channel's offset-calibration high word within its group.
pub const CH_OCAL_MSB_OFFSET: u8 = 0x01;

/// Offset of a channel's gain-calibration high word within its group.
pub const CH_GCAL_MSB_OFFSET: u8 = 0x03;

/// The address of a per-channel register.
pub open spec fn spec_ch_reg(channel: u8, offset: u8) -> int {
    CH_BASE + channel * CH_STRIDE + offset
}

/// The address of a per-channel register.
fn ch_reg(channel: u8, offset: u8) -> (r: u8)
    requires
        channel < 8,
        offset < CH_STRIDE,
    ensures
        r == spec_ch_reg(channel, offset),
{
    CH_BASE + channel * CH_STRIDE + offset
}

/// The configuration register of the given channel.
pub fn ch_cfg(channel: u8) -> (r: u8)
    requires
        channel < 8,
    ensures
        r == spec_ch_reg(channel, CH_CFG_OFFSET),
{
    ch_reg(channel, CH_CFG_OFFSET)
}

/// The offset-calibration high-word register of the given channel.
pub fn ch_ocal_msb(channel: u8) -> (r: u8)
    requires
        channel < 8,
    ensures
        r == spec_ch_reg(channel, CH_OCAL_MSB_OFFSET),
{
    ch_reg(channel, CH_OCAL_MSB_OFFSET)
}

/// The gain-calibration high-word register of the given channel.
pub fn ch_gcal_msb(channel: u8) -> (r: u8)
    requires
        channel < 8,
    ensures
        r == spec_ch_reg(channel, CH_GCAL_MSB_OFFSET),
{
    ch_reg(channel, CH_GCAL_MSB_OFFSET)
}

/// The contents of the status register.
#[derive(Clone, Copy, Debug, PartialEq, Eq, Structural)]
pub struct Status(pub u16);

impl Status {
    /// Whether the register map is locked.
    pub fn locked(self) -> (r: bool)
        ensures
            r == (self.0 & 0x8000 != 0),
    {
        (self.0 & 0x8000) != 0
    }
}

} // verus!
