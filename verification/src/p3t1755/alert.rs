//! Alert handling for the temperature sensor, based on the alert-response
//! convention of the management bus: every alerting device answers a read
//! of a fixed response address with its own address and the alert
//! direction in one byte.

use vstd::prelude::*;

use crate::p3t1755::address::Address;
use crate::transport::{I2cBus, TransportError};

verus! {

/// The fixed bus address that alerting devices answer on.
pub const ALERT_RESPONSE_ADDRESS: u8 = 0x0C;

/// Alert information returned by the sensor: the responding device's
/// address in the high seven bits and the alert direction in the low bit.
#[derive(Clone, Copy, Debug, PartialEq, Eq, Structural)]
pub struct Alert(u8);

/// The alert carried by a response byte, when its address bits name a
/// valid sensor address.
pub closed spec fn spec_alert_of(byte: u8) -> Option<Alert> {
    if 0x40 <= byte / 2 < 0x60 {
        Some(Alert(byte))
    } else {
        None
    }
}

impl Alert {
    /// The raw response byte.
    pub closed spec fn spec_byte(self) -> u8 {
        self.0
    }

    /// The address bits name a valid sensor address.
    pub open spec fn wf(self) -> bool {
        0x40 <= self.spec_byte() / 2 < 0x60
    }

    /// Validates a raw response byte.
    fn from_byte(byte: u8) -> (r: Option<Self>)
        ensures
            r == spec_alert_of(byte),
            r is Some ==> r.unwrap().wf() && r.unwrap().spec_byte() == byte,
    {
        let address_bits = byte / 2;
        if Address::new(address_bits).is_some() {
            Some(Alert(byte))
        } else {
            None
        }
    }

    /// Returns the address of the device that raised the alert.
    pub fn address(self) -> (r: Address)
        requires
            self.wf(),
        ensures
            r.spec_get() == self.spec_byte() / 2,
    {
        let bits = self.0 / 2;
        match Address::new(bits) {
            Some(a) => a,
            None => vstd::pervasive::unreached(),
        }
    }

    /// Returns the alert condition: whether the temperature passed the
    /// high threshold or fell below the low threshold.
    pub fn condition(self) -> (r: AlertCondition)
        ensures
            r == if self.spec_byte() % 2 == 0 {
                AlertCondition::UnderTemperature
            } else {
                AlertCondition::OverTemperature
            },
    {
        if self.0 % 2 == 0 {
            AlertCondition::UnderTemperature
        } else {
            AlertCondition::OverTemperature
        }
    }
}

/// Alert condition.
#[derive(Clone, Copy, Debug, PartialEq, Eq, Structural)]
pub enum AlertCondition {
    /// Temperature exceeded the high threshold.
    OverTemperature,
    /// Temperature fell below the low threshold.
    UnderTemperature,
}

/// Processes an alert on the given bus.
///
/// Returns `None` if no device acknowledged the alert request (no alert
/// is pending) or if the response does not carry a valid sensor address.
pub fn process<I: I2cBus>(bus: &mut I) -> (r: Result<Option<Alert>, TransportError>)
    ensures
        final(bus).is_modeled() == old(bus).is_modeled(),
        r matches Ok(Some(a)) ==> a.wf(),
        r is Err ==> r.unwrap_err() != TransportError::AddressNack,
        old(bus).is_modeled() ==> ({
            let m = old(bus).model();
            &&& final(bus).model() == m
            &&& (m.addr != ALERT_RESPONSE_ADDRESS ==> r == Ok::<Option<Alert>, TransportError>(
                None,
            ))
            &&& (r matches Ok(Some(a)) ==> ((m.addr == ALERT_RESPONSE_ADDRESS
                && m.regs.contains_key(m.pointer) && m.regs[m.pointer].len() == 1)
                ==> Some(a) == spec_alert_of(m.regs[m.pointer][0])))
        }),
{
    match bus.read(ALERT_RESPONSE_ADDRESS, 1) {
        Err(TransportError::AddressNack) => {
            // No alert pending.
            Ok(None)
        },
        Err(e) => Err(e),
        Ok(buf) => Ok(Alert::from_byte(buf[0])),
    }
}

} // verus!
