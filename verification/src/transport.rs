//! Transport collaborators.
//!
//! The protocol layers in this crate exchange bytes through small
//! transport traits: a synchronous full-duplex transceiver for the
//! converter's command bus, and a register-oriented two-wire bus for the
//! auxiliary peripherals. The traits state only what holds of every
//! implementation; implementations backed by real hardware live outside
//! the verified library, while the in-memory implementations here give
//! the drivers something to be exercised against.

use vstd::prelude::*;

pub mod sim;

verus! {

/// An opaque transport-layer failure, surfaced to callers unchanged.
#[derive(Clone, Copy, Debug, PartialEq, Eq, Structural)]
pub enum TransportError {
    /// The addressed device did not acknowledge its address.
    AddressNack,
    /// Any other bus fault.
    Other,
}

/// A synchronous full-duplex byte transceiver.
///
/// An implementation may additionally be *scripted*: it then discloses,
/// as ghost state, the queue of response frames it will hand out, one per
/// full-duplex exchange. Nothing is promised about when an operation
/// succeeds; a scripted transport that succeeds must serve its script in
/// order.
pub trait SpiTransport: Sized {
    /// Whether this transport discloses a script of responses. An
    /// implementation that does not (a hardware transceiver) leaves the
    /// default, of which nothing further is promised.
    open spec fn is_scripted(&self) -> bool {
        false
    }

    /// The response frames still to be handed out, front first.
    open spec fn script(&self) -> Seq<Seq<u8>> {
        Seq::empty()
    }

    /// Writes one frame to the device, discarding whatever the device
    /// sends back during the exchange.
    fn write(&mut self, data: &[u8]) -> (r: Result<(), TransportError>)
        ensures
            final(self).is_scripted() == old(self).is_scripted(),
            old(self).is_scripted() ==> final(self).script() == old(self).script(),
    ;

    /// One full-duplex exchange: sends the buffer and overwrites it with
    /// the response. The buffer keeps its length; on failure it is left
    /// unchanged.
    fn transfer_in_place(&mut self, buf: &mut Vec<u8>) -> (r: Result<(), TransportError>)
        ensures
            final(buf)@.len() == old(buf)@.len(),
            final(self).is_scripted() == old(self).is_scripted(),
            old(self).is_scripted() ==> match r {
                Ok(()) => old(self).script().len() > 0 && old(self).script()[0].len() == old(
                    buf,
                )@.len() && final(buf)@ == old(self).script()[0] && final(self).script() == old(self).script().drop_first(),
                Err(_) => final(self).script() == old(self).script() && final(buf)@ == old(buf)@,
            },
    ;
}

/// Ghost model of a single register-file device on a two-wire bus: its
/// bus address, its latched register pointer, and the contents of its
/// registers.
pub struct I2cDeviceModel {
    /// The device's bus address.
    pub addr: u8,
    /// The register the device's pointer currently selects.
    pub pointer: u8,
    /// The register file: each register's bytes.
    pub regs: Map<u8, Seq<u8>>,
}

/// A register-oriented two-wire bus.
///
/// An implementation may additionally be *modeled*: it then discloses, as
/// ghost state, a single register-file device it simulates. Nothing is
/// promised about when an operation succeeds; a modeled bus that succeeds
/// must behave as the modeled device: transactions addressed elsewhere
/// are not acknowledged, a plain read serves the register the pointer
/// selects, and writes latch the pointer.
pub trait I2cBus: Sized {
    /// Whether this bus discloses a modeled device. An implementation
    /// that does not (a hardware bus) leaves the default, of which
    /// nothing further is promised.
    open spec fn is_modeled(&self) -> bool {
        false
    }

    /// The modeled device.
    open spec fn model(&self) -> I2cDeviceModel {
        I2cDeviceModel { addr: 0, pointer: 0, regs: Map::empty() }
    }

    /// Reads `n` bytes from the device at `addr` without addressing a
    /// register: the device serves the register its pointer selects.
    fn read(&mut self, addr: u8, n: usize) -> (r: Result<Vec<u8>, TransportError>)
        ensures
            final(self).is_modeled() == old(self).is_modeled(),
            r is Ok ==> r.unwrap()@.len() == n,
            old(self).is_modeled() ==> ({
                let m = old(self).model();
                &&& final(self).model() == m
                &&& (addr != m.addr ==> r == Err::<Vec<u8>, TransportError>(
                    TransportError::AddressNack,
                ))
                &&& ((r is Ok && addr == m.addr && m.regs.contains_key(m.pointer)
                    && m.regs[m.pointer].len() == n) ==> r.unwrap()@ == m.regs[m.pointer])
            }),
    ;

    /// Writes the register pointer, then reads `n` bytes from the
    /// selected register, in one transaction.
    fn write_read(&mut self, addr: u8, reg: u8, n: usize) -> (r: Result<Vec<u8>, TransportError>)
        ensures
            final(self).is_modeled() == old(self).is_modeled(),
            r is Ok ==> r.unwrap()@.len() == n,
            old(self).is_modeled() ==> ({
                let m = old(self).model();
                &&& (addr != m.addr ==> r == Err::<Vec<u8>, TransportError>(
                    TransportError::AddressNack,
                ))
                &&& ((r is Ok && addr == m.addr) ==> final(self).model() == (I2cDeviceModel {
                    pointer: reg,
                    ..m
                }) && (m.regs.contains_key(reg) && m.regs[reg].len() == n ==> r.unwrap()@
                    == m.regs[reg]))
                &&& (!(r is Ok && addr == m.addr) ==> final(self).model() == m)
            }),
    ;

    /// Writes the register pointer and the register's data, in one
    /// transaction.
    fn write_reg(&mut self, addr: u8, reg: u8, data: &[u8]) -> (r: Result<(), TransportError>)
        ensures
            final(self).is_modeled() == old(self).is_modeled(),
            old(self).is_modeled() ==> ({
                let m = old(self).model();
                &&& (addr != m.addr ==> r == Err::<(), TransportError>(TransportError::AddressNack))
                &&& ((r is Ok && addr == m.addr) ==> final(self).model() == (I2cDeviceModel {
                    addr: m.addr,
                    pointer: reg,
                    regs: m.regs.insert(reg, data@),
                }))
                &&& (!(r is Ok && addr == m.addr) ==> final(self).model() == m)
            }),
    ;
}

} // verus!
