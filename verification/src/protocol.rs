//! Link-level packet types exchanged over the byte-stuffed serial
//! channel: a small header with an integrity word, followed by a payload.

use vstd::prelude::*;

verus! {

/// The header of a link packet.
pub struct PacketHeader {
    /// Correlates a response with its request.
    pub id: u8,
    /// The raw request kind byte; see [`Kind`].
    pub raw_kind: u8,
    /// Integrity checksum over the packet, little-endian on the wire.
    pub crc: u16,
}

/// A link packet: its header followed by the payload bytes.
pub struct Packet {
    /// The packet's header.
    pub header: PacketHeader,
    /// The payload bytes.
    pub payload: Vec<u8>,
}

/// The kinds of request a link packet can carry.
#[derive(Clone, Copy, Debug, PartialEq, Eq, Structural)]
pub enum Kind {
    /// Read the device ID.
    ReadDeviceId,
    /// Read the serial number.
    ReadSerialNumber,
    /// Read the temperature.
    ReadTemperature,
}

impl Kind {
    /// The kind's byte on the wire.
    pub open spec fn spec_raw(self) -> u8 {
        match self {
            Kind::ReadDeviceId => 1,
            Kind::ReadSerialNumber => 2,
            Kind::ReadTemperature => 3,
        }
    }

    /// Returns the kind's byte on the wire.
    pub fn raw(self) -> (r: u8)
        ensures
            r == self.spec_raw(),
    {
        match self {
            Kind::ReadDeviceId => 1,
            Kind::ReadSerialNumber => 2,
            Kind::ReadTemperature => 3,
        }
    }

    /// Decodes a kind from its byte on the wire.
    pub fn from_raw(raw: u8) -> (r: Option<Kind>)
        ensures
            r is Some <==> 1 <= raw <= 3,
            r is Some ==> r.unwrap().spec_raw() == raw,
    {
        match raw {
            1 => Some(Kind::ReadDeviceId),
            2 => Some(Kind::ReadSerialNumber),
            3 => Some(Kind::ReadTemperature),
            _ => None,
        }
    }
}

/// The microcontroller's 3-byte device ID.
pub struct DeviceId(pub [u8; 3]);

/// The microcontroller's 10-byte unique serial number.
pub struct SerialNumber(pub [u8; 10]);

} // verus!
