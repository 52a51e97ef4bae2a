//! Low level driver for a 16-bit two-wire I/O expander.
//!
//! The device exposes four register pairs (input, output, polarity
//! inversion, configuration), each read and written as two bytes,
//! low-order port first. This driver provides only that low level
//! interface, together with plain value types for the register pairs.

use vstd::arithmetic::div_mod::lemma_fundamental_div_mod;
use vstd::prelude::*;

use crate::transport::{I2cBus, I2cDeviceModel, TransportError};

pub mod pin;

verus! {

/// Register number of the low input port.
pub const INPUT_PORT0: u8 = 0x00;

/// Register number of the low output port.
pub const OUTPUT_PORT0: u8 = 0x02;

/// Register number of the low polarity-inversion port.
pub const POLARITY_INVERSION_PORT0: u8 = 0x04;

/// Register number of the low configuration port.
pub const CONFIGURATION_PORT0: u8 = 0x06;

/// The 16-bit value encoded little-endian by two bytes.
pub open spec fn spec_le16(lo: u8, hi: u8) -> u16 {
    (lo + hi * 256) as u16
}

/// The two-byte little-endian encoding of a 16-bit value.
pub open spec fn spec_u16_le(v: u16) -> Seq<u8> {
    seq![(v % 256) as u8, (v / 256) as u8]
}

/// Encoding a 16-bit value little-endian and reading it back yields the
/// value.
pub proof fn lemma_le16_round_trip(v: u16)
    ensures
        spec_u16_le(v).len() == 2,
        spec_le16(spec_u16_le(v)[0], spec_u16_le(v)[1]) == v,
{
    lemma_fundamental_div_mod(v as int, 256);
}

/// Whether the modeled device can serve a 16-bit register pair at `start`.
pub open spec fn pair_readable(m: I2cDeviceModel, start: u8) -> bool {
    m.regs.contains_key(start) && m.regs[start].len() == 2
}

/// The value of a 16-bit register pair of the modeled device, low byte
/// first.
pub open spec fn spec_pair_value(m: I2cDeviceModel, start: u8) -> u16
    recommends
        pair_readable(m, start),
{
    spec_le16(m.regs[start][0], m.regs[start][1])
}

/// What a register-pair read does to a modeled device and what it
/// returns: transactions addressed elsewhere are not acknowledged; a
/// successful read latches the device's register pointer, leaves the
/// register file unchanged, and returns the pair's value when the device
/// holds one.
pub open spec fn spec_pair_read<I: I2cBus>(
    pre: I,
    post: I,
    addr: u8,
    start: u8,
    r: Result<u16, TransportError>,
) -> bool {
    pre.is_modeled() ==> {
        let m = pre.model();
        &&& (addr != m.addr ==> r == Err::<u16, TransportError>(TransportError::AddressNack))
        &&& ((r is Ok && addr == m.addr) ==> post.model() == (I2cDeviceModel {
            pointer: start,
            ..m
        }) && (pair_readable(m, start) ==> r.unwrap() == spec_pair_value(m, start)))
        &&& (!(r is Ok && addr == m.addr) ==> post.model() == m)
    }
}

/// What a register-pair write does to a modeled device: a successful
/// write latches the device's register pointer and replaces the pair with
/// the little-endian encoding of the value.
pub open spec fn spec_pair_write<I: I2cBus>(
    pre: I,
    post: I,
    addr: u8,
    start: u8,
    v: u16,
    r: Result<(), TransportError>,
) -> bool {
    pre.is_modeled() ==> {
        let m = pre.model();
        &&& (addr != m.addr ==> r == Err::<(), TransportError>(TransportError::AddressNack))
        &&& ((r is Ok && addr == m.addr) ==> post.model() == (I2cDeviceModel {
            addr: m.addr,
            pointer: start,
            regs: m.regs.insert(start, spec_u16_le(v)),
        }))
        &&& (!(r is Ok && addr == m.addr) ==> post.model() == m)
    }
}

/// Register write idempotence law: after a register pair has been written
/// to a value, the device it was written to holds that pair, and reading
/// the pair back yields exactly the written value — whenever the
/// underlying transport reports no error and the device accepts writes,
/// as the modeled device does.
pub proof fn lemma_write_read_pair(m: I2cDeviceModel, start: u8, v: u16)
    ensures
        ({
            let m2 = I2cDeviceModel {
                addr: m.addr,
                pointer: start,
                regs: m.regs.insert(start, spec_u16_le(v)),
            };
            &&& pair_readable(m2, start)
            &&& spec_pair_value(m2, start) == v
        }),
{
    lemma_le16_round_trip(v);
}

/// Low level driver instance, owning its bus handle exclusively.
pub struct Tca9535<I> {
    i2c: I,
    addr: Address,
}

impl<I: I2cBus> Tca9535<I> {
    /// The underlying bus handle.
    pub closed spec fn bus(self) -> I {
        self.i2c
    }

    /// The bus address this driver instance talks to.
    pub closed spec fn address_of(self) -> u8 {
        self.addr.spec_get()
    }

    /// Creates a new driver instance.
    pub fn new(i2c: I, addr: Address) -> (d: Self)
        ensures
            d.bus() == i2c,
            d.address_of() == addr.spec_get(),
    {
        Tca9535 { i2c, addr }
    }

    /// Releases the bus handle from the driver.
    pub fn into_inner(self) -> (r: I)
        ensures
            r == self.bus(),
    {
        self.i2c
    }

    /// Reads a 16-bit register pair starting at `start`, low byte first.
    fn read_register_pair(&mut self, start: u8) -> (r: Result<u16, TransportError>)
        ensures
            final(self).bus().is_modeled() == old(self).bus().is_modeled(),
            final(self).address_of() == old(self).address_of(),
            spec_pair_read(old(self).bus(), final(self).bus(), old(self).address_of(), start, r),
    {
        let addr = self.addr.get();
        let data = match self.i2c.write_read(addr, start, 2) {
            Err(e) => {
                return Err(e);
            },
            Ok(d) => d,
        };
        Ok(le16(data[0], data[1]))
    }

    /// Writes a 16-bit register pair starting at `start`, low byte first.
    fn write_register_pair(&mut self, start: u8, value: u16) -> (r: Result<(), TransportError>)
        ensures
            final(self).bus().is_modeled() == old(self).bus().is_modeled(),
            final(self).address_of() == old(self).address_of(),
            spec_pair_write(
                old(self).bus(),
                final(self).bus(),
                old(self).address_of(),
                start,
                value,
                r,
            ),
    {
        let addr = self.addr.get();
        let mut bytes: Vec<u8> = Vec::new();
        bytes.push((value % 256) as u8);
        bytes.push((value / 256) as u8);
        proof {
            assert(bytes@ =~= spec_u16_le(value));
        }
        self.i2c.write_reg(addr, start, bytes.as_slice())
    }

    /// Reads the input registers.
    pub fn read_input(&mut self) -> (r: Result<Input, TransportError>)
        ensures
            final(self).bus().is_modeled() == old(self).bus().is_modeled(),
            final(self).address_of() == old(self).address_of(),
            spec_pair_read(
                old(self).bus(),
                final(self).bus(),
                old(self).address_of(),
                INPUT_PORT0,
                match r {
                    Ok(v) => Ok::<u16, TransportError>(v.0),
                    Err(e) => Err::<u16, TransportError>(e),
                },
            ),
    {
        match self.read_register_pair(INPUT_PORT0) {
            Ok(v) => Ok(Input(v)),
            Err(e) => Err(e),
        }
    }

    /// Reads the output registers.
    pub fn read_output(&mut self) -> (r: Result<Output, TransportError>)
        ensures
            final(self).bus().is_modeled() == old(self).bus().is_modeled(),
            final(self).address_of() == old(self).address_of(),
            spec_pair_read(
                old(self).bus(),
                final(self).bus(),
                old(self).address_of(),
                OUTPUT_PORT0,
                match r {
                    Ok(v) => Ok::<u16, TransportError>(v.0),
                    Err(e) => Err::<u16, TransportError>(e),
                },
            ),
    {
        match self.read_register_pair(OUTPUT_PORT0) {
            Ok(v) => Ok(Output(v)),
            Err(e) => Err(e),
        }
    }

    /// Writes the output registers.
    pub fn write_output(&mut self, value: Output) -> (r: Result<(), TransportError>)
        ensures
            final(self).bus().is_modeled() == old(self).bus().is_modeled(),
            final(self).address_of() == old(self).address_of(),
            spec_pair_write(
                old(self).bus(),
                final(self).bus(),
                old(self).address_of(),
                OUTPUT_PORT0,
                value.0,
                r,
            ),
    {
        self.write_register_pair(OUTPUT_PORT0, value.0)
    }

    /// Reads the polarity inversion registers.
    pub fn read_polarity_inversion(&mut self) -> (r: Result<PolarityInversion, TransportError>)
        ensures
            final(self).bus().is_modeled() == old(self).bus().is_modeled(),
            final(self).address_of() == old(self).address_of(),
            spec_pair_read(
                old(self).bus(),
                final(self).bus(),
                old(self).address_of(),
                POLARITY_INVERSION_PORT0,
                match r {
                    Ok(v) => Ok::<u16, TransportError>(v.0),
                    Err(e) => Err::<u16, TransportError>(e),
                },
            ),
    {
        match self.read_register_pair(POLARITY_INVERSION_PORT0) {
            Ok(v) => Ok(PolarityInversion(v)),
            Err(e) => Err(e),
        }
    }

    /// Writes the polarity inversion registers.
    pub fn write_polarity_inversion(&mut self, value: PolarityInversion) -> (r: Result<
        (),
        TransportError,
    >)
        ensures
            final(self).bus().is_modeled() == old(self).bus().is_modeled(),
            final(self).address_of() == old(self).address_of(),
            spec_pair_write(
                old(self).bus(),
                final(self).bus(),
                old(self).address_of(),
                POLARITY_INVERSION_PORT0,
                value.0,
                r,
            ),
    {
        self.write_register_pair(POLARITY_INVERSION_PORT0, value.0)
    }

    /// Reads the configuration registers.
    pub fn read_configuration(&mut self) -> (r: Result<Configuration, TransportError>)
        ensures
            final(self).bus().is_modeled() == old(self).bus().is_modeled(),
            final(self).address_of() == old(self).address_of(),
            spec_pair_read(
                old(self).bus(),
                final(self).bus(),
                old(self).address_of(),
                CONFIGURATION_PORT0,
                match r {
                    Ok(v) => Ok::<u16, TransportError>(v.0),
                    Err(e) => Err::<u16, TransportError>(e),
                },
            ),
    {
        match self.read_register_pair(CONFIGURATION_PORT0) {
            Ok(v) => Ok(Configuration(v)),
            Err(e) => Err(e),
        }
    }

    /// Writes the configuration registers.
    pub fn write_configuration(&mut self, value: Configuration) -> (r: Result<(), TransportError>)
        ensures
            final(self).bus().is_modeled() == old(self).bus().is_modeled(),
            final(self).address_of() == old(self).address_of(),
            spec_pair_write(
                old(self).bus(),
                final(self).bus(),
                old(self).address_of(),
                CONFIGURATION_PORT0,
                value.0,
                r,
            ),
    {
        self.write_register_pair(CONFIGURATION_PORT0, value.0)
    }
}

/// Reads the 16-bit value encoded little-endian by two bytes.
fn le16(lo: u8, hi: u8) -> (r: u16)
    ensures
        r == spec_le16(lo, hi),
{
    (lo as u16) + (hi as u16) * 256
}

/// Bus address options for the device.
///
/// The address is determined by the logic levels applied to pins A2, A1,
/// and A0, allowing up to eight devices on the same bus.
#[derive(Clone, Copy, Debug, PartialEq, Eq, Structural)]
pub enum Address {
    /// A2=L, A1=L, A0=L (0x20)
    Lll,
    /// A2=L, A1=L, A0=H (0x21)
    Llh,
    /// A2=L, A1=H, A0=L (0x22)
    Lhl,
    /// A2=L, A1=H, A0=H (0x23)
    Lhh,
    /// A2=H, A1=L, A0=L (0x24)
    Hll,
    /// A2=H, A1=L, A0=H (0x25)
    Hlh,
    /// A2=H, A1=H, A0=L (0x26)
    Hhl,
    /// A2=H, A1=H, A0=H (0x27)
    Hhh,
}

impl Address {
    /// The underlying bus address value.
    pub open spec fn spec_get(self) -> u8 {
        match self {
            Address::Lll => 0x20,
            Address::Llh => 0x21,
            Address::Lhl => 0x22,
            Address::Lhh => 0x23,
            Address::Hll => 0x24,
            Address::Hlh => 0x25,
            Address::Hhl => 0x26,
            Address::Hhh => 0x27,
        }
    }

    /// Creates an address from its underlying value.
    ///
    /// Returns `None` if the value does not correspond to a valid
    /// address.
    pub fn new(value: u8) -> (r: Option<Address>)
        ensures
            r is Some <==> 0x20 <= value < 0x28,
            r is Some ==> r.unwrap().spec_get() == value,
    {
        match value {
            0x20 => Some(Address::Lll),
            0x21 => Some(Address::Llh),
            0x22 => Some(Address::Lhl),
            0x23 => Some(Address::Lhh),
            0x24 => Some(Address::Hll),
            0x25 => Some(Address::Hlh),
            0x26 => Some(Address::Hhl),
            0x27 => Some(Address::Hhh),
            _ => None,
        }
    }

    /// Returns the underlying address.
    pub fn get(self) -> (r: u8)
        ensures
            r == self.spec_get(),
    {
        match self {
            Address::Lll => 0x20,
            Address::Llh => 0x21,
            Address::Lhl => 0x22,
            Address::Lhh => 0x23,
            Address::Hll => 0x24,
            Address::Hlh => 0x25,
            Address::Hhl => 0x26,
            Address::Hhh => 0x27,
        }
    }
}

/// Bit-index for one of the sixteen pins.
#[derive(Clone, Copy, Debug, PartialEq, Eq, Structural)]
pub enum PinIndex {
    /// Pin 0 of the low port.
    P0,
    /// Pin 1 of the low port.
    P1,
    /// Pin 2 of the low port.
    P2,
    /// Pin 3 of the low port.
    P3,
    /// Pin 4 of the low port.
    P4,
    /// Pin 5 of the low port.
    P5,
    /// Pin 6 of the low port.
    P6,
    /// Pin 7 of the low port.
    P7,
    /// Pin 0 of the high port.
    P8,
    /// Pin 1 of the high port.
    P9,
    /// Pin 2 of the high port.
    P10,
    /// Pin 3 of the high port.
    P11,
    /// Pin 4 of the high port.
    P12,
    /// Pin 5 of the high port.
    P13,
    /// Pin 6 of the high port.
    P14,
    /// Pin 7 of the high port.
    P15,
}

impl PinIndex {
    /// The bit position of this pin.
    pub open spec fn spec_bit(self) -> u8 {
        match self {
            PinIndex::P0 => 0,
            PinIndex::P1 => 1,
            PinIndex::P2 => 2,
            PinIndex::P3 => 3,
            PinIndex::P4 => 4,
            PinIndex::P5 => 5,
            PinIndex::P6 => 6,
            PinIndex::P7 => 7,
            PinIndex::P8 => 8,
            PinIndex::P9 => 9,
            PinIndex::P10 => 10,
            PinIndex::P11 => 11,
            PinIndex::P12 => 12,
            PinIndex::P13 => 13,
            PinIndex::P14 => 14,
            PinIndex::P15 => 15,
        }
    }

    /// A bitmask with only this pin set.
    pub open spec fn spec_mask(self) -> u16 {
        1u16 << self.spec_bit()
    }

    /// Returns the bit position of this pin (0-15).
    pub fn bit(self) -> (r: u8)
        ensures
            r == self.spec_bit(),
    {
        match self {
            PinIndex::P0 => 0,
            PinIndex::P1 => 1,
            PinIndex::P2 => 2,
            PinIndex::P3 => 3,
            PinIndex::P4 => 4,
            PinIndex::P5 => 5,
            PinIndex::P6 => 6,
            PinIndex::P7 => 7,
            PinIndex::P8 => 8,
            PinIndex::P9 => 9,
            PinIndex::P10 => 10,
            PinIndex::P11 => 11,
            PinIndex::P12 => 12,
            PinIndex::P13 => 13,
            PinIndex::P14 => 14,
            PinIndex::P15 => 15,
        }
    }

    /// Returns a bitmask with only this pin set.
    pub fn mask(self) -> (r: u16)
        ensures
            r == self.spec_mask(),
    {
        1u16 << self.bit()
    }
}

/// Input registers.
#[derive(Clone, Copy, Debug, PartialEq, Eq, Structural)]
pub struct Input(pub u16);

impl Input {
    /// Returns true if the specified pin is high.
    pub fn is_high(self, pin: PinIndex) -> (r: bool)
        ensures
            r == (self.0 & pin.spec_mask() != 0),
    {
        self.0 & pin.mask() != 0
    }

    /// Returns true if the specified pin is low.
    pub fn is_low(self, pin: PinIndex) -> (r: bool)
        ensures
            r == (self.0 & pin.spec_mask() == 0),
    {
        self.0 & pin.mask() == 0
    }
}

/// Output registers.
#[derive(Clone, Copy, Debug, PartialEq, Eq, Structural)]
pub struct Output(pub u16);

impl Output {
    /// Returns a new value with the specified pin set high.
    pub fn with_high(self, pin: PinIndex) -> (r: Self)
        ensures
            r.0 == self.0 | pin.spec_mask(),
    {
        Output(self.0 | pin.mask())
    }

    /// Returns a new value with the specified pin set low.
    pub fn with_low(self, pin: PinIndex) -> (r: Self)
        ensures
            r.0 == self.0 & !pin.spec_mask(),
    {
        Output(self.0 & !pin.mask())
    }

    /// Returns true if the specified pin is high.
    pub fn is_high(self, pin: PinIndex) -> (r: bool)
        ensures
            r == (self.0 & pin.spec_mask() != 0),
    {
        self.0 & pin.mask() != 0
    }
}

/// Polarity inversion registers.
#[derive(Clone, Copy, Debug, PartialEq, Eq, Structural)]
pub struct PolarityInversion(pub u16);

impl PolarityInversion {
    /// Returns a new value with the specified pin inverted.
    pub fn with_inverted(self, pin: PinIndex) -> (r: Self)
        ensures
            r.0 == self.0 | pin.spec_mask(),
    {
        PolarityInversion(self.0 | pin.mask())
    }

    /// Returns a new value with the specified pin set to normal polarity.
    pub fn with_normal(self, pin: PinIndex) -> (r: Self)
        ensures
            r.0 == self.0 & !pin.spec_mask(),
    {
        PolarityInversion(self.0 & !pin.mask())
    }

    /// Returns true if the specified pin is inverted.
    pub fn is_inverted(self, pin: PinIndex) -> (r: bool)
        ensures
            r == (self.0 & pin.spec_mask() != 0),
    {
        self.0 & pin.mask() != 0
    }

    /// Returns true if the specified pin has normal polarity.
    pub fn is_normal(self, pin: PinIndex) -> (r: bool)
        ensures
            r == (self.0 & pin.spec_mask() == 0),
    {
        self.0 & pin.mask() == 0
    }
}

/// Configuration registers.
#[derive(Clone, Copy, Debug, PartialEq, Eq, Structural)]
pub struct Configuration(pub u16);

impl Configuration {
    /// Returns a new value with the specified pin configured as input.
    pub fn with_input(self, pin: PinIndex) -> (r: Self)
        ensures
            r.0 == self.0 | pin.spec_mask(),
    {
        Configuration(self.0 | pin.mask())
    }

    /// Returns a new value with the specified pin configured as output.
    pub fn with_output(self, pin: PinIndex) -> (r: Self)
        ensures
            r.0 == self.0 & !pin.spec_mask(),
    {
        Configuration(self.0 & !pin.mask())
    }

    /// Returns true if the specified pin is configured as input.
    pub fn is_input(self, pin: PinIndex) -> (r: bool)
        ensures
            r == (self.0 & pin.spec_mask() != 0),
    {
        self.0 & pin.mask() != 0
    }
}

} // verus!
