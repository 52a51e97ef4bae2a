//! Tests for the link-packet types and the boot storage records.

use cellagent::protocol::{DeviceId, Kind, Packet, PacketHeader, SerialNumber};
use cellagent::storage::{Header, V1};

#[test]
fn kind_wire_bytes() {
    assert_eq!(Kind::ReadDeviceId.raw(), 1);
    assert_eq!(Kind::ReadSerialNumber.raw(), 2);
    assert_eq!(Kind::ReadTemperature.raw(), 3);
}

#[test]
fn kind_from_raw_round_trip() {
    for raw in 1u8..=3 {
        let kind = Kind::from_raw(raw).unwrap();
        assert_eq!(kind.raw(), raw);
    }
    assert!(Kind::from_raw(0).is_none());
    assert!(Kind::from_raw(4).is_none());
    assert!(Kind::from_raw(0xFF).is_none());
}

#[test]
fn packet_carries_header_and_payload() {
    let packet = Packet {
        header: PacketHeader { id: 7, raw_kind: Kind::ReadTemperature.raw(), crc: 0xBEEF },
        payload: vec![0x19, 0x10],
    };
    assert_eq!(packet.header.id, 7);
    assert_eq!(Kind::from_raw(packet.header.raw_kind), Some(Kind::ReadTemperature));
    assert_eq!(packet.header.crc, 0xBEEF);
    assert_eq!(packet.payload, vec![0x19, 0x10]);
}

#[test]
fn identity_value_sizes() {
    let id = DeviceId([0x1E, 0x93, 0x22]);
    let serial = SerialNumber([0, 1, 2, 3, 4, 5, 6, 7, 8, 9]);
    assert_eq!(id.0.len(), 3);
    assert_eq!(serial.0.len(), 10);
}

#[test]
fn storage_record_versioning() {
    assert_eq!(V1::VERSION, 1);
    let header = Header { version: V1::VERSION };
    let record = V1 { update_count: 3, app_crc: 0xA5A5 };
    assert_eq!(header.version, 1);
    assert_eq!(record.update_count, 3);
    assert_eq!(record.app_crc, 0xA5A5);
}
