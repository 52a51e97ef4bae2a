//! Registers of the temperature sensor: the register map, the
//! configuration register's bit fields, and the fixed-point temperature
//! representation.

use vstd::arithmetic::div_mod::lemma_hoist_over_denominator;
use vstd::prelude::*;

verus! {

/// Temperature register.
///
/// Contains two 8-bit data bytes; stores the measured temperature.
pub const TEMP_REG: u8 = 0x00;

/// Configuration register.
///
/// Contains a single 8-bit data byte; sets the device operating
/// condition.
pub const CONF_REG: u8 = 0x01;

/// TLOW register.
///
/// Hysteresis register: two 8-bit data bytes storing the hysteresis low
/// limit; default 75 degrees Celsius.
pub const T_LOW_REG: u8 = 0x02;

/// THIGH register.
///
/// Overtemperature shutdown threshold register: two 8-bit data bytes
/// storing the shutdown high limit; default 80 degrees Celsius.
pub const T_HIGH_REG: u8 = 0x03;

/// The device's registers.
#[derive(Clone, Copy, Debug, PartialEq, Eq, Structural)]
pub enum Register {
    /// The measured temperature.
    Temp,
    /// The operating configuration.
    Conf,
    /// The hysteresis low limit.
    TLow,
    /// The overtemperature shutdown high limit.
    THigh,
}

impl Register {
    /// The register's number on the wire.
    pub open spec fn spec_get(self) -> u8 {
        match self {
            Register::Temp => TEMP_REG,
            Register::Conf => CONF_REG,
            Register::TLow => T_LOW_REG,
            Register::THigh => T_HIGH_REG,
        }
    }

    /// Returns the register's number on the wire.
    pub fn get(self) -> (r: u8)
        ensures
            r == self.spec_get(),
    {
        match self {
            Register::Temp => TEMP_REG,
            Register::Conf => CONF_REG,
            Register::TLow => T_LOW_REG,
            Register::THigh => T_HIGH_REG,
        }
    }
}

/// Shutdown mode bit.
pub const SD_BIT: u8 = 0b0000_0001;

/// Thermostat mode bit.
pub const TM_BIT: u8 = 0b0000_0010;

/// Polarity bit.
pub const POL_BIT: u8 = 0b0000_0100;

/// Fault queue field mask.
pub const FQ_MASK: u8 = 0b0001_1000;

/// Conversion time field mask.
pub const CT_MASK: u8 = 0b0110_0000;

/// One-shot bit.
pub const OS_BIT: u8 = 0b1000_0000;

/// The raw value of the configuration register after a device reset.
pub const RESET_CONF: u8 = 0x28;

/// The configuration register's value.
#[derive(Clone, Copy, Debug, PartialEq, Eq, Structural)]
pub struct Config(u8);

impl Config {
    /// Default reset configuration.
    pub fn reset() -> (r: Self)
        ensures
            r.bits() == RESET_CONF,
    {
        Config(RESET_CONF)
    }

    /// The raw register value.
    pub closed spec fn bits(self) -> u8 {
        self.0
    }

    /// Creates a config from a raw register value.
    pub(crate) fn from_reg(value: u8) -> (r: Self)
        ensures
            r.bits() == value,
    {
        Config(value)
    }

    /// Returns the raw register value.
    pub(crate) fn to_reg(self) -> (r: u8)
        ensures
            r == self.bits(),
    {
        self.0
    }

    /// Returns true if shutdown mode is enabled.
    pub fn shutdown_mode(self) -> (r: bool)
        ensures
            r == (self.bits() & SD_BIT != 0),
    {
        self.0 & SD_BIT != 0
    }

    /// Sets or clears the shutdown mode bit.
    pub fn with_shutdown_mode(self, enable: bool) -> (r: Self)
        ensures
            r.bits() == if enable {
                self.bits() | SD_BIT
            } else {
                self.bits() & !SD_BIT
            },
    {
        self.with_bit(SD_BIT, enable)
    }

    /// Returns true if thermostat mode is enabled.
    pub fn thermostat_mode(self) -> (r: bool)
        ensures
            r == (self.bits() & TM_BIT != 0),
    {
        self.0 & TM_BIT != 0
    }

    /// Sets or clears the thermostat mode bit.
    pub fn with_thermostat_mode(self, enable: bool) -> (r: Self)
        ensures
            r.bits() == if enable {
                self.bits() | TM_BIT
            } else {
                self.bits() & !TM_BIT
            },
    {
        self.with_bit(TM_BIT, enable)
    }

    /// Returns true if the polarity is active high.
    pub fn polarity(self) -> (r: bool)
        ensures
            r == (self.bits() & POL_BIT != 0),
    {
        self.0 & POL_BIT != 0
    }

    /// Sets or clears the polarity bit.
    pub fn with_polarity(self, high: bool) -> (r: Self)
        ensures
            r.bits() == if high {
                self.bits() | POL_BIT
            } else {
                self.bits() & !POL_BIT
            },
    {
        self.with_bit(POL_BIT, high)
    }

    /// Returns the fault queue setting.
    pub fn fault_queue(self) -> (r: FaultQueue)
        ensures
            r == spec_fault_queue_of(self.bits()),
    {
        FaultQueue::from_reg(self.0)
    }

    /// Sets the fault queue setting.
    pub fn with_fault_queue(self, fq: FaultQueue) -> (r: Self)
        ensures
            r.bits() == (self.bits() & !FQ_MASK) | fq.spec_bits(),
    {
        Config((self.0 & !FQ_MASK) | fq.bits())
    }

    /// Returns the conversion time setting.
    pub fn conversion_time(self) -> (r: ConversionTime)
        ensures
            r == spec_conversion_time_of(self.bits()),
    {
        ConversionTime::from_reg(self.0)
    }

    /// Sets the conversion time setting.
    pub fn with_conversion_time(self, ct: ConversionTime) -> (r: Self)
        ensures
            r.bits() == (self.bits() & !CT_MASK) | ct.spec_bits(),
    {
        Config((self.0 & !CT_MASK) | ct.bits())
    }

    /// Returns true if one-shot mode is enabled.
    pub fn one_shot(self) -> (r: bool)
        ensures
            r == (self.bits() & OS_BIT != 0),
    {
        self.0 & OS_BIT != 0
    }

    /// Sets or clears the one-shot bit.
    pub fn with_one_shot(self, enable: bool) -> (r: Self)
        ensures
            r.bits() == if enable {
                self.bits() | OS_BIT
            } else {
                self.bits() & !OS_BIT
            },
    {
        self.with_bit(OS_BIT, enable)
    }

    fn with_bit(self, bit: u8, enable: bool) -> (r: Self)
        ensures
            r.bits() == if enable {
                self.bits() | bit
            } else {
                self.bits() & !bit
            },
    {
        if enable {
            Config(self.0 | bit)
        } else {
            Config(self.0 & !bit)
        }
    }
}

/// The fault queue setting encoded by a raw configuration value.
pub open spec fn spec_fault_queue_of(value: u8) -> FaultQueue {
    let bits = value & FQ_MASK;
    if bits == 0b0000_0000 {
        FaultQueue::One
    } else if bits == 0b0000_1000 {
        FaultQueue::Two
    } else if bits == 0b0001_0000 {
        FaultQueue::Four
    } else {
        FaultQueue::Six
    }
}

/// How many consecutive fault conditions must occur before the alert
/// output is asserted.
#[derive(Clone, Copy, Debug, PartialEq, Eq, Structural, Default)]
pub enum FaultQueue {
    /// One fault.
    One,
    /// Two faults.
    #[default]
    Two,
    /// Four faults.
    Four,
    /// Six faults.
    Six,
}

impl FaultQueue {
    /// The setting's bits within the configuration register.
    pub open spec fn spec_bits(self) -> u8 {
        match self {
            FaultQueue::One => 0b0000_0000,
            FaultQueue::Two => 0b0000_1000,
            FaultQueue::Four => 0b0001_0000,
            FaultQueue::Six => 0b0001_1000,
        }
    }

    /// Returns the setting's bits within the configuration register.
    pub fn bits(self) -> (r: u8)
        ensures
            r == self.spec_bits(),
    {
        match self {
            FaultQueue::One => 0b0000_0000,
            FaultQueue::Two => 0b0000_1000,
            FaultQueue::Four => 0b0001_0000,
            FaultQueue::Six => 0b0001_1000,
        }
    }

    fn from_reg(value: u8) -> (r: Self)
        ensures
            r == spec_fault_queue_of(value),
    {
        let bits = value & FQ_MASK;
        if bits == 0b0000_0000 {
            FaultQueue::One
        } else if bits == 0b0000_1000 {
            FaultQueue::Two
        } else if bits == 0b0001_0000 {
            FaultQueue::Four
        } else {
            FaultQueue::Six
        }
    }
}

/// The conversion time setting encoded by a raw configuration value.
pub open spec fn spec_conversion_time_of(value: u8) -> ConversionTime {
    let bits = value & CT_MASK;
    if bits == 0b0000_0000 {
        ConversionTime::Ms27_5
    } else if bits == 0b0010_0000 {
        ConversionTime::Ms55
    } else if bits == 0b0100_0000 {
        ConversionTime::Ms110
    } else {
        ConversionTime::Ms220
    }
}

/// How long the device takes for one conversion.
#[derive(Clone, Copy, Debug, PartialEq, Eq, Structural, Default)]
pub enum ConversionTime {
    /// 27.5 ms
    Ms27_5,
    /// 55 ms
    #[default]
    Ms55,
    /// 110 ms
    Ms110,
    /// 220 ms
    Ms220,
}

impl ConversionTime {
    /// The setting's bits within the configuration register.
    pub open spec fn spec_bits(self) -> u8 {
        match self {
            ConversionTime::Ms27_5 => 0b0000_0000,
            ConversionTime::Ms55 => 0b0010_0000,
            ConversionTime::Ms110 => 0b0100_0000,
            ConversionTime::Ms220 => 0b0110_0000,
        }
    }

    /// Returns the setting's bits within the configuration register.
    pub fn bits(self) -> (r: u8)
        ensures
            r == self.spec_bits(),
    {
        match self {
            ConversionTime::Ms27_5 => 0b0000_0000,
            ConversionTime::Ms55 => 0b0010_0000,
            ConversionTime::Ms110 => 0b0100_0000,
            ConversionTime::Ms220 => 0b0110_0000,
        }
    }

    fn from_reg(value: u8) -> (r: Self)
        ensures
            r == spec_conversion_time_of(value),
    {
        let bits = value & CT_MASK;
        if bits == 0b0000_0000 {
            ConversionTime::Ms27_5
        } else if bits == 0b0010_0000 {
            ConversionTime::Ms55
        } else if bits == 0b0100_0000 {
            ConversionTime::Ms110
        } else {
            ConversionTime::Ms220
        }
    }
}

/// The raw temperature encoded by the two register bytes: the top 12 bits
/// hold the value in 1/16 degrees Celsius, two's complement.
pub open spec fn spec_temp_raw(b0: u8, b1: u8) -> int {
    let q = (b0 * 256 + b1) / 16;
    if q >= 2048 {
        q - 4096
    } else {
        q
    }
}

/// The 16-bit two's complement register word encoding a raw temperature:
/// the value shifted into the top 12 bits.
pub open spec fn spec_temp_word(raw: int) -> int
    recommends
        -2048 <= raw <= 2047,
{
    if raw >= 0 {
        raw * 16
    } else {
        raw * 16 + 65536
    }
}

/// The two register bytes encoding a raw temperature, high byte first.
pub open spec fn spec_temp_regs(raw: int) -> Seq<u8>
    recommends
        -2048 <= raw <= 2047,
{
    seq![(spec_temp_word(raw) / 256) as u8, (spec_temp_word(raw) % 256) as u8]
}

/// Truncating division (rounding toward zero), as the hardware-facing
/// conversions use for scaling.
pub open spec fn spec_trunc_div(a: int, b: int) -> int
    recommends
        b > 0,
{
    if a >= 0 {
        a / b
    } else {
        -((-a) / b)
    }
}

/// A raw temperature clamped to the representable range.
pub open spec fn spec_saturate(raw: int) -> int {
    if raw < -2048 {
        -2048
    } else if raw > 2047 {
        2047
    } else {
        raw
    }
}

/// Temperature reading.
///
/// The value is internally stored in 1/16 degrees Celsius. The valid
/// range is -2048 to 2047, representing -128.0 to +127.9375 degrees.
#[derive(Clone, Copy, Debug, PartialEq, Eq, Structural)]
pub struct Temperature(i16);

impl Temperature {
    /// Minimum temperature (-128.0 degrees Celsius).
    pub fn min() -> (r: Self)
        ensures
            r.wf(),
            r.spec_raw() == -2048,
    {
        Temperature(-2048)
    }

    /// Maximum temperature (+127.9375 degrees Celsius).
    pub fn max() -> (r: Self)
        ensures
            r.wf(),
            r.spec_raw() == 2047,
    {
        Temperature(2047)
    }

    /// The raw value in 1/16 degrees Celsius.
    pub closed spec fn spec_raw(self) -> i16 {
        self.0
    }

    /// The value lies in the representable range.
    pub open spec fn wf(self) -> bool {
        -2048 <= self.spec_raw() <= 2047
    }

    /// Decodes a temperature from the two register bytes, high byte
    /// first; only the 12 most significant bits carry data.
    pub fn from_regs(regs: &[u8; 2]) -> (r: Self)
        ensures
            r.wf(),
            r.spec_raw() == spec_temp_raw(regs@[0], regs@[1]),
    {
        let w: u16 = (regs[0] as u16) * 256 + (regs[1] as u16);
        let q: u16 = w / 16;
        let raw: i16 = if q >= 2048 {
            ((q as i32) - 4096) as i16
        } else {
            q as i16
        };
        Temperature(raw)
    }

    /// Encodes the temperature into the two register bytes, high byte
    /// first, with the low four bits zero.
    pub fn to_regs(self) -> (r: [u8; 2])
        requires
            self.wf(),
        ensures
            r@ == spec_temp_regs(self.spec_raw() as int),
    {
        let wi: i32 = (self.0 as i32) * 16;
        let w: u16 = if wi >= 0 {
            wi as u16
        } else {
            (wi + 65536) as u16
        };
        let r = [(w / 256) as u8, (w % 256) as u8];
        proof {
            assert(r@ =~= spec_temp_regs(self.spec_raw() as int));
        }
        r
    }

    /// Creates a temperature from a raw value in 1/16 degrees Celsius.
    ///
    /// Returns `None` if the value is out of range.
    pub fn from_raw(raw: i16) -> (r: Option<Self>)
        ensures
            r is Some <==> -2048 <= raw <= 2047,
            r is Some ==> r.unwrap().spec_raw() == raw && r.unwrap().wf(),
    {
        if raw < -2048 || raw > 2047 {
            None
        } else {
            Some(Temperature(raw))
        }
    }

    /// Creates a temperature from a raw value in 1/16 degrees Celsius,
    /// saturating to the representable range.
    pub fn saturating_from_raw(raw: i16) -> (r: Self)
        ensures
            r.wf(),
            r.spec_raw() == spec_saturate(raw as int),
    {
        if raw < -2048 {
            Temperature(-2048)
        } else if raw > 2047 {
            Temperature(2047)
        } else {
            Temperature(raw)
        }
    }

    /// Creates a temperature from whole degrees Celsius.
    pub fn from_degrees_celsius(deg_c: i8) -> (r: Self)
        ensures
            r.wf(),
            r.spec_raw() == deg_c * 16,
    {
        Temperature((deg_c as i16) * 16)
    }

    /// Creates a temperature from centi-degrees Celsius (1/100 degree).
    ///
    /// The result is an approximation, since the device's resolution is
    /// 1/16 degree; out-of-range values saturate.
    pub fn from_centi_degrees_celsius(centi_deg_c: i16) -> (r: Self)
        ensures
            r.wf(),
            r.spec_raw() == spec_saturate(spec_trunc_div(centi_deg_c * 16, 100)),
    {
        if centi_deg_c >= 0 {
            let scaled: u32 = (centi_deg_c as u32) * 16 / 100;
            Self::saturating_from_raw(scaled as i16)
        } else {
            let magnitude: u32 = ((-(centi_deg_c as i32)) as u32) * 16 / 100;
            Self::saturating_from_raw((-(magnitude as i32)) as i16)
        }
    }

    /// Returns the raw temperature value in 1/16 degrees Celsius.
    pub fn raw(self) -> (r: i16)
        ensures
            r == self.spec_raw(),
    {
        self.0
    }

    /// Returns the temperature in whole degrees Celsius, rounding toward
    /// negative infinity.
    pub fn degrees_celsius(self) -> (r: i8)
        requires
            self.wf(),
        ensures
            r == self.spec_raw() as int / 16,
    {
        let biased: u16 = ((self.0 as i32) + 2048) as u16;
        let d: u16 = biased / 16;
        proof {
            lemma_hoist_over_denominator(self.spec_raw() as int, 128, 16);
        }
        ((d as i32) - 128) as i8
    }

    /// Returns the temperature in centi-degrees Celsius (1/100 degree),
    /// rounding toward zero.
    pub fn centi_degrees_celsius(self) -> (r: i16)
        requires
            self.wf(),
        ensures
            r == spec_trunc_div(self.spec_raw() * 625, 100),
    {
        if self.0 >= 0 {
            ((self.0 as u32) * 625 / 100) as i16
        } else {
            let magnitude: u32 = ((-(self.0 as i32)) as u32) * 625 / 100;
            (-(magnitude as i32)) as i16
        }
    }
}

} // verus!
