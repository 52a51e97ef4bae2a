//! Bus address variants of the temperature sensor.

use vstd::prelude::*;

verus! {

/// Bus address variants for the temperature sensor.
///
/// The address is determined by the state of the three address pins
/// (A2, A1, A0); each variant corresponds to one pin configuration.
#[derive(Clone, Copy, Debug, PartialEq, Eq, Structural)]
pub enum Address {
    /// Address variant 1: A2=0, A1=0, A0=SDA -> 0x40
    Addr1,
    /// Address variant 2: A2=0, A1=0, A0=SCL -> 0x41
    Addr2,
    /// Address variant 3: A2=0, A1=1, A0=SDA -> 0x42
    Addr3,
    /// Address variant 4: A2=0, A1=1, A0=SCL -> 0x43
    Addr4,
    /// Address variant 5: A2=1, A1=0, A0=SDA -> 0x44
    Addr5,
    /// Address variant 6: A2=1, A1=0, A0=SCL -> 0x45
    Addr6,
    /// Address variant 7: A2=1, A1=1, A0=SDA -> 0x46
    Addr7,
    /// Address variant 8: A2=1, A1=1, A0=SCL -> 0x47
    Addr8,
    /// Address variant 9: A2=0, A1=0, A0=0 -> 0x48
    Addr9,
    /// Address variant 10: A2=0, A1=0, A0=1 -> 0x49
    Addr10,
    /// Address variant 11: A2=0, A1=0, A0=0 -> 0x4A
    Addr11,
    /// Address variant 12: A2=0, A1=0, A0=1 -> 0x4B
    Addr12,
    /// Address variant 13: A2=1, A1=0, A0=0 -> 0x4C
    Addr13,
    /// Address variant 14: A2=1, A1=0, A0=1 -> 0x4D
    Addr14,
    /// Address variant 15: A2=1, A1=1, A0=0 -> 0x4E
    Addr15,
    /// Address variant 16: A2=1, A1=1, A0=1 -> 0x4F
    Addr16,
    /// Address variant 17: A2=0, A1=0, A0=SDA -> 0x50
    Addr17,
    /// Address variant 18: A2=0, A1=0, A0=SCL -> 0x51
    Addr18,
    /// Address variant 19: A2=0, A1=1, A0=SDA -> 0x52
    Addr19,
    /// Address variant 20: A2=0, A1=1, A0=SCL -> 0x53
    Addr20,
    /// Address variant 21: A2=1, A1=0, A0=SDA -> 0x54
    Addr21,
    /// Address variant 22: A2=1, A1=0, A0=SCL -> 0x55
    Addr22,
    /// Address variant 23: A2=1, A1=1, A0=SDA -> 0x56
    Addr23,
    /// Address variant 24: A2=1, A1=1, A0=SCL -> 0x57
    Addr24,
    /// Address variant 25: A2=0, A1=0, A0=0 -> 0x58
    Addr25,
    /// Address variant 26: A2=0, A1=0, A0=1 -> 0x59
    Addr26,
    /// Address variant 27: A2=0, A1=1, A0=0 -> 0x5A
    Addr27,
    /// Address variant 28: A2=0, A1=1, A0=1 -> 0x5B
    Addr28,
    /// Address variant 29: A2=1, A1=0, A0=0 -> 0x5C
    Addr29,
    /// Address variant 30: A2=1, A1=0, A0=1 -> 0x5D
    Addr30,
    /// Address variant 31: A2=1, A1=1, A0=0 -> 0x5E
    Addr31,
    /// Address variant 32: A2=1, A1=1, A0=1 -> 0x5F
    Addr32,
}

impl Address {
    /// The underlying bus address value.
    pub open spec fn spec_get(self) -> u8 {
        match self {
            Address::Addr1 => 0x40,
            Address::Addr2 => 0x41,
            Address::Addr3 => 0x42,
            Address::Addr4 => 0x43,
            Address::Addr5 => 0x44,
            Address::Addr6 => 0x45,
            Address::Addr7 => 0x46,
            Address::Addr8 => 0x47,
            Address::Addr9 => 0x48,
            Address::Addr10 => 0x49,
            Address::Addr11 => 0x4A,
            Address::Addr12 => 0x4B,
            Address::Addr13 => 0x4C,
            Address::Addr14 => 0x4D,
            Address::Addr15 => 0x4E,
            Address::Addr16 => 0x4F,
            Address::Addr17 => 0x50,
            Address::Addr18 => 0x51,
            Address::Addr19 => 0x52,
            Address::Addr20 => 0x53,
            Address::Addr21 => 0x54,
            Address::Addr22 => 0x55,
            Address::Addr23 => 0x56,
            Address::Addr24 => 0x57,
            Address::Addr25 => 0x58,
            Address::Addr26 => 0x59,
            Address::Addr27 => 0x5A,
            Address::Addr28 => 0x5B,
            Address::Addr29 => 0x5C,
            Address::Addr30 => 0x5D,
            Address::Addr31 => 0x5E,
            Address::Addr32 => 0x5F,
        }
    }

    /// Creates an address from a value, if it is in the valid range.
    pub fn new(value: u8) -> (r: Option<Address>)
        ensures
            r is Some <==> 0x40 <= value < 0x60,
            r is Some ==> r.unwrap().spec_get() == value,
    {
        match value {
            0x40 => Some(Address::Addr1),
            0x41 => Some(Address::Addr2),
            0x42 => Some(Address::Addr3),
            0x43 => Some(Address::Addr4),
            0x44 => Some(Address::Addr5),
            0x45 => Some(Address::Addr6),
            0x46 => Some(Address::Addr7),
            0x47 => Some(Address::Addr8),
            0x48 => Some(Address::Addr9),
            0x49 => Some(Address::Addr10),
            0x4A => Some(Address::Addr11),
            0x4B => Some(Address::Addr12),
            0x4C => Some(Address::Addr13),
            0x4D => Some(Address::Addr14),
            0x4E => Some(Address::Addr15),
            0x4F => Some(Address::Addr16),
            0x50 => Some(Address::Addr17),
            0x51 => Some(Address::Addr18),
            0x52 => Some(Address::Addr19),
            0x53 => Some(Address::Addr20),
            0x54 => Some(Address::Addr21),
            0x55 => Some(Address::Addr22),
            0x56 => Some(Address::Addr23),
            0x57 => Some(Address::Addr24),
            0x58 => Some(Address::Addr25),
            0x59 => Some(Address::Addr26),
            0x5A => Some(Address::Addr27),
            0x5B => Some(Address::Addr28),
            0x5C => Some(Address::Addr29),
            0x5D => Some(Address::Addr30),
            0x5E => Some(Address::Addr31),
            0x5F => Some(Address::Addr32),
            _ => None,
        }
    }

    /// Returns the underlying value of the address.
    pub fn get(self) -> (r: u8)
        ensures
            r == self.spec_get(),
    {
        match self {
            Address::Addr1 => 0x40,
            Address::Addr2 => 0x41,
            Address::Addr3 => 0x42,
            Address::Addr4 => 0x43,
            Address::Addr5 => 0x44,
            Address::Addr6 => 0x45,
            Address::Addr7 => 0x46,
            Address::Addr8 => 0x47,
            Address::Addr9 => 0x48,
            Address::Addr10 => 0x49,
            Address::Addr11 => 0x4A,
            Address::Addr12 => 0x4B,
            Address::Addr13 => 0x4C,
            Address::Addr14 => 0x4D,
            Address::Addr15 => 0x4E,
            Address::Addr16 => 0x4F,
            Address::Addr17 => 0x50,
            Address::Addr18 => 0x51,
            Address::Addr19 => 0x52,
            Address::Addr20 => 0x53,
            Address::Addr21 => 0x54,
            Address::Addr22 => 0x55,
            Address::Addr23 => 0x56,
            Address::Addr24 => 0x57,
            Address::Addr25 => 0x58,
            Address::Addr26 => 0x59,
            Address::Addr27 => 0x5A,
            Address::Addr28 => 0x5B,
            Address::Addr29 => 0x5C,
            Address::Addr30 => 0x5D,
            Address::Addr31 => 0x5E,
            Address::Addr32 => 0x5F,
        }
    }
}

} // verus!
