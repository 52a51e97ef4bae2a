//! Temperature sensor driver.
//!
//! A register-level driver for a digital temperature sensor on a two-wire
//! bus: a configuration register, two threshold registers, and the
//! measured temperature. The device latches its register pointer, so a
//! repeated read of the same register skips re-addressing it.

use vstd::prelude::*;

pub use self::address::Address;
pub use self::register::{Config, ConversionTime, FaultQueue, Register, Temperature};

pub mod address;
pub mod alert;
pub mod register;

use self::register::{spec_temp_raw, CONF_REG};
use crate::transport::{I2cBus, I2cDeviceModel, TransportError};

verus! {

/// Whether the modeled device can serve register `reg` with width `n`.
pub open spec fn reg_readable(m: I2cDeviceModel, reg: u8, n: int) -> bool {
    m.regs.contains_key(reg) && m.regs[reg].len() == n
}

/// Temperature sensor driver instance, owning its bus handle exclusively.
pub struct P3t1755<I> {
    i2c: I,
    addr: Address,
    latched_reg: Option<Register>,
}

impl<I: I2cBus> P3t1755<I> {
    /// The underlying bus handle.
    pub closed spec fn bus(self) -> I {
        self.i2c
    }

    /// The bus address this driver instance talks to.
    pub closed spec fn address_of(self) -> u8 {
        self.addr.spec_get()
    }

    /// The register the driver knows the device's pointer to be latched
    /// to, if any.
    pub closed spec fn latched(self) -> Option<Register> {
        self.latched_reg
    }

    /// The driver's record of the latched register pointer agrees with
    /// the modeled device.
    pub open spec fn inv(self) -> bool {
        self.bus().is_modeled() ==> match self.latched() {
            Some(reg) => self.bus().model().pointer == reg.spec_get(),
            None => true,
        }
    }

    /// Creates a new driver instance with the given bus handle and
    /// address.
    pub fn new(i2c: I, addr: Address) -> (d: Self)
        ensures
            d.inv(),
            d.bus() == i2c,
            d.address_of() == addr.spec_get(),
            d.latched() is None,
    {
        P3t1755 { addr, i2c, latched_reg: None }
    }

    /// Consumes the driver and returns the underlying bus handle.
    pub fn into_inner(self) -> (r: I)
        ensures
            r == self.bus(),
    {
        self.i2c
    }

    /// Reads the configuration register.
    pub fn read_config(&mut self) -> (r: Result<Config, TransportError>)
        requires
            old(self).inv(),
        ensures
            final(self).inv(),
            final(self).bus().is_modeled() == old(self).bus().is_modeled(),
            final(self).address_of() == old(self).address_of(),
            old(self).bus().is_modeled() ==> ({
                let m = old(self).bus().model();
                &&& (old(self).address_of() != m.addr ==> r == Err::<Config, TransportError>(
                    TransportError::AddressNack,
                ))
                &&& ((r is Ok && old(self).address_of() == m.addr) ==> final(self).bus().model()
                    == (I2cDeviceModel { pointer: CONF_REG, ..m }) && (reg_readable(m, CONF_REG, 1)
                    ==> r.unwrap().bits() == m.regs[CONF_REG][0]))
                &&& (!(r is Ok && old(self).address_of() == m.addr) ==> final(self).bus().model()
                    == m)
            }),
    {
        let buf = match self.read_register(Register::Conf, 1) {
            Err(e) => {
                return Err(e);
            },
            Ok(b) => b,
        };
        Ok(Config::from_reg(buf[0]))
    }

    /// Writes the configuration register.
    pub fn write_config(&mut self, config: Config) -> (r: Result<(), TransportError>)
        requires
            old(self).inv(),
        ensures
            final(self).inv(),
            final(self).bus().is_modeled() == old(self).bus().is_modeled(),
            final(self).address_of() == old(self).address_of(),
            old(self).bus().is_modeled() ==> ({
                let m = old(self).bus().model();
                &&& (old(self).address_of() != m.addr ==> r == Err::<(), TransportError>(
                    TransportError::AddressNack,
                ))
                &&& ((r is Ok && old(self).address_of() == m.addr) ==> final(self).bus().model()
                    == (I2cDeviceModel {
                    addr: m.addr,
                    pointer: CONF_REG,
                    regs: m.regs.insert(CONF_REG, seq![config.bits()]),
                }))
                &&& (!(r is Ok && old(self).address_of() == m.addr) ==> final(self).bus().model()
                    == m)
            }),
    {
        let mut bytes: Vec<u8> = Vec::new();
        bytes.push(config.to_reg());
        proof {
            assert(bytes@ =~= seq![config.bits()]);
        }
        self.write_register(Register::Conf, &bytes)
    }

    /// Reads the low threshold register.
    pub fn read_t_low(&mut self) -> (r: Result<Temperature, TransportError>)
        requires
            old(self).inv(),
        ensures
            final(self).inv(),
            final(self).bus().is_modeled() == old(self).bus().is_modeled(),
            final(self).address_of() == old(self).address_of(),
            r is Ok ==> r.unwrap().wf(),
            old(self).bus().is_modeled() ==> spec_temp_read_outcome(
                old(self).bus().model(),
                final(self).bus(),
                old(self).address_of(),
                Register::TLow,
                r,
            ),
    {
        self.read_temperature_register(Register::TLow)
    }

    /// Writes the low threshold register.
    pub fn write_t_low(&mut self, temp: Temperature) -> (r: Result<(), TransportError>)
        requires
            old(self).inv(),
            temp.wf(),
        ensures
            final(self).inv(),
            final(self).bus().is_modeled() == old(self).bus().is_modeled(),
            final(self).address_of() == old(self).address_of(),
            old(self).bus().is_modeled() ==> spec_temp_write_outcome(
                old(self).bus().model(),
                final(self).bus(),
                old(self).address_of(),
                Register::TLow,
                temp,
                r,
            ),
    {
        self.write_temperature_register(Register::TLow, temp)
    }

    /// Reads the high threshold register.
    pub fn read_t_high(&mut self) -> (r: Result<Temperature, TransportError>)
        requires
            old(self).inv(),
        ensures
            final(self).inv(),
            final(self).bus().is_modeled() == old(self).bus().is_modeled(),
            final(self).address_of() == old(self).address_of(),
            r is Ok ==> r.unwrap().wf(),
            old(self).bus().is_modeled() ==> spec_temp_read_outcome(
                old(self).bus().model(),
                final(self).bus(),
                old(self).address_of(),
                Register::THigh,
                r,
            ),
    {
        self.read_temperature_register(Register::THigh)
    }

    /// Writes the high threshold register.
    pub fn write_t_high(&mut self, temp: Temperature) -> (r: Result<(), TransportError>)
        requires
            old(self).inv(),
            temp.wf(),
        ensures
            final(self).inv(),
            final(self).bus().is_modeled() == old(self).bus().is_modeled(),
            final(self).address_of() == old(self).address_of(),
            old(self).bus().is_modeled() ==> spec_temp_write_outcome(
                old(self).bus().model(),
                final(self).bus(),
                old(self).address_of(),
                Register::THigh,
                temp,
                r,
            ),
    {
        self.write_temperature_register(Register::THigh, temp)
    }

    /// Reads the measured temperature.
    pub fn read_temperature(&mut self) -> (r: Result<Temperature, TransportError>)
        requires
            old(self).inv(),
        ensures
            final(self).inv(),
            final(self).bus().is_modeled() == old(self).bus().is_modeled(),
            final(self).address_of() == old(self).address_of(),
            r is Ok ==> r.unwrap().wf(),
            old(self).bus().is_modeled() ==> spec_temp_read_outcome(
                old(self).bus().model(),
                final(self).bus(),
                old(self).address_of(),
                Register::Temp,
                r,
            ),
    {
        self.read_temperature_register(Register::Temp)
    }

    /// Reads one of the two-byte temperature registers.
    fn read_temperature_register(&mut self, reg: Register) -> (r: Result<
        Temperature,
        TransportError,
    >)
        requires
            old(self).inv(),
        ensures
            final(self).inv(),
            final(self).bus().is_modeled() == old(self).bus().is_modeled(),
            final(self).address_of() == old(self).address_of(),
            r is Ok ==> r.unwrap().wf(),
            old(self).bus().is_modeled() ==> spec_temp_read_outcome(
                old(self).bus().model(),
                final(self).bus(),
                old(self).address_of(),
                reg,
                r,
            ),
    {
        let buf = match self.read_register(reg, 2) {
            Err(e) => {
                return Err(e);
            },
            Ok(b) => b,
        };
        let regs = [buf[0], buf[1]];
        proof {
            assert(regs@ =~= buf@);
        }
        Ok(Temperature::from_regs(&regs))
    }

    /// Writes one of the two-byte temperature registers.
    fn write_temperature_register(&mut self, reg: Register, temp: Temperature) -> (r: Result<
        (),
        TransportError,
    >)
        requires
            old(self).inv(),
            temp.wf(),
        ensures
            final(self).inv(),
            final(self).bus().is_modeled() == old(self).bus().is_modeled(),
            final(self).address_of() == old(self).address_of(),
            old(self).bus().is_modeled() ==> spec_temp_write_outcome(
                old(self).bus().model(),
                final(self).bus(),
                old(self).address_of(),
                reg,
                temp,
                r,
            ),
    {
        let regs = temp.to_regs();
        let mut bytes: Vec<u8> = Vec::new();
        bytes.push(regs[0]);
        bytes.push(regs[1]);
        proof {
            assert(bytes@ =~= register::spec_temp_regs(temp.spec_raw() as int));
        }
        self.write_register(reg, &bytes)
    }

    /// Reads `n` bytes from a device register, skipping the pointer write
    /// when the pointer is already latched to that register.
    fn read_register(&mut self, reg: Register, n: usize) -> (r: Result<Vec<u8>, TransportError>)
        requires
            old(self).inv(),
        ensures
            final(self).inv(),
            final(self).bus().is_modeled() == old(self).bus().is_modeled(),
            final(self).address_of() == old(self).address_of(),
            r is Ok ==> r.unwrap()@.len() == n,
            old(self).bus().is_modeled() ==> ({
                let m = old(self).bus().model();
                &&& (old(self).address_of() != m.addr ==> r == Err::<Vec<u8>, TransportError>(
                    TransportError::AddressNack,
                ))
                &&& ((r is Ok && old(self).address_of() == m.addr) ==> final(self).bus().model()
                    == (I2cDeviceModel { pointer: reg.spec_get(), ..m }) && (reg_readable(
                    m,
                    reg.spec_get(),
                    n as int,
                ) ==> r.unwrap()@ == m.regs[reg.spec_get()]))
                &&& (!(r is Ok && old(self).address_of() == m.addr) ==> final(self).bus().model()
                    == m)
            }),
    {
        let addr = self.addr.get();
        let latched_hit = match self.latched_reg {
            Some(lr) => lr.get() == reg.get(),
            None => false,
        };
        let res = if latched_hit {
            // The device's register pointer is already set: a plain read
            // serves the register without re-addressing it.
            self.i2c.read(addr, n)
        } else {
            self.i2c.write_read(addr, reg.get(), n)
        };
        match res {
            Ok(data) => {
                self.latched_reg = Some(reg);
                Ok(data)
            },
            Err(e) => Err(e),
        }
    }

    /// Writes a device register: the register pointer and the data in one
    /// transaction.
    fn write_register(&mut self, reg: Register, buf: &Vec<u8>) -> (r: Result<(), TransportError>)
        requires
            old(self).inv(),
        ensures
            final(self).inv(),
            final(self).bus().is_modeled() == old(self).bus().is_modeled(),
            final(self).address_of() == old(self).address_of(),
            old(self).bus().is_modeled() ==> ({
                let m = old(self).bus().model();
                &&& (old(self).address_of() != m.addr ==> r == Err::<(), TransportError>(
                    TransportError::AddressNack,
                ))
                &&& ((r is Ok && old(self).address_of() == m.addr) ==> final(self).bus().model()
                    == (I2cDeviceModel {
                    addr: m.addr,
                    pointer: reg.spec_get(),
                    regs: m.regs.insert(reg.spec_get(), buf@),
                }))
                &&& (!(r is Ok && old(self).address_of() == m.addr) ==> final(self).bus().model()
                    == m)
            }),
    {
        let addr = self.addr.get();
        match self.i2c.write_reg(addr, reg.get(), buf.as_slice()) {
            Ok(()) => {
                self.latched_reg = Some(reg);
                Ok(())
            },
            Err(e) => Err(e),
        }
    }
}

/// What reading a two-byte temperature register leaves of a modeled
/// device and what it returns: the register pointer is latched, the
/// register file is unchanged, and the decoded reading matches the
/// device's register bytes whenever the device holds that register.
pub open spec fn spec_temp_read_outcome<I: I2cBus>(
    m: I2cDeviceModel,
    post: I,
    addr: u8,
    reg: Register,
    r: Result<Temperature, TransportError>,
) -> bool {
    &&& (addr != m.addr ==> r == Err::<Temperature, TransportError>(TransportError::AddressNack))
    &&& ((r is Ok && addr == m.addr) ==> post.model() == (I2cDeviceModel {
        pointer: reg.spec_get(),
        ..m
    }) && (reg_readable(m, reg.spec_get(), 2) ==> r.unwrap().spec_raw() == spec_temp_raw(
        m.regs[reg.spec_get()][0],
        m.regs[reg.spec_get()][1],
    )))
    &&& (!(r is Ok && addr == m.addr) ==> post.model() == m)
}

/// What writing a two-byte temperature register does to a modeled device:
/// the register pointer is latched and the register takes the encoding of
/// the written temperature.
pub open spec fn spec_temp_write_outcome<I: I2cBus>(
    m: I2cDeviceModel,
    post: I,
    addr: u8,
    reg: Register,
    temp: Temperature,
    r: Result<(), TransportError>,
) -> bool {
    &&& (addr != m.addr ==> r == Err::<(), TransportError>(TransportError::AddressNack))
    &&& ((r is Ok && addr == m.addr) ==> post.model() == (I2cDeviceModel {
        addr: m.addr,
        pointer: reg.spec_get(),
        regs: m.regs.insert(reg.spec_get(), register::spec_temp_regs(temp.spec_raw() as int)),
    }))
    &&& (!(r is Ok && addr == m.addr) ==> post.model() == m)
}

} // verus!
