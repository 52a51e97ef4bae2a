//! Command words of the analog-to-digital converter protocol.
//!
//! Fixed opcodes are constants with the literal bit patterns the device
//! defines; register-addressed opcodes pack a 7-bit register address and
//! a 6-bit register count into the low bits of the command word.

use vstd::prelude::*;

verus! {

/// No operation.
pub const NULL: u16 = 0b0000_0000_0000_0000;

/// Reset the device.
pub const RESET: u16 = 0b0000_0000_0001_0001;

/// Place the device into standby mode.
pub const STANDBY: u16 = 0b0000_0000_0010_0010;

/// Wake the device from standby mode to conversion mode.
pub const WAKEUP: u16 = 0b0000_0000_0011_0011;

/// Lock the interface such that only the [`NULL`], [`UNLOCK`], and
/// [`RREG`] commands are valid.
pub const LOCK: u16 = 0b0000_0101_0101_0101;

/// Unlock the interface after the interface is locked.
pub const UNLOCK: u16 = 0b0000_0110_0110_0110;

/// The RREG command is used to read the device registers.
pub const RREG: u16 = 0b1010_0000_0000_0000;

/// The WREG command allows writing an arbitrary number of contiguous
/// device registers.
pub const WREG: u16 = 0b0110_0000_0000_0000;

/// A register-addressed command word: opcode bits in the high-order
/// positions, a 7-bit register address, and a 6-bit `count - 1` field.
pub open spec fn spec_xreg(cmd: u16, addr: u16, n: u16) -> u16
    recommends
        addr < 128,
        1 <= n <= 64,
{
    cmd | (addr << 6) | ((n - 1) as u16)
}

/// Packs a register-addressed command word.
pub fn xreg(cmd: u16, addr: u16, n: u16) -> (r: u16)
    requires
        addr < 128,
        1 <= n <= 64,
    ensures
        r == spec_xreg(cmd, addr, n),
{
    cmd | (addr << 6u16) | (n - 1)
}

/// Read `n` contiguous registers starting at address `addr`.
pub fn rreg(addr: u8, n: u8) -> (r: u16)
    requires
        addr < 128,
        1 <= n <= 64,
    ensures
        r == spec_xreg(RREG, addr as u16, n as u16),
{
    xreg(RREG, addr as u16, n as u16)
}

/// Write `n` contiguous registers starting at address `addr`.
pub fn wreg(addr: u8, n: u8) -> (r: u16)
    requires
        addr < 128,
        1 <= n <= 64,
    ensures
        r == spec_xreg(WREG, addr as u16, n as u16),
{
    xreg(WREG, addr as u16, n as u16)
}

} // verus!
