//! Tests for the converter's checksum engine, command words and frame
//! codec.

use cellagent::ads131m08::frame::{
    be16, build_normal, build_short, build_write_one, get_verified_data,
};
use cellagent::ads131m08::register::{ch_cfg, ch_gcal_msb, ch_ocal_msb, Status};
use cellagent::ads131m08::{command, CommunicationErrorKind};
use cellagent::crc::crc16_ccitt_const;

#[test]
fn crc16_known_vector() {
    // The classic check vector for this CRC variant.
    assert_eq!(crc16_ccitt_const(b"123456789"), 0x29B1);
    assert_eq!(crc16_ccitt_const(&[]), 0xFFFF);
    assert_eq!(crc16_ccitt_const(&[0x00, 0x00, 0x00]), 0xCC9C);
}

#[test]
fn command_words() {
    assert_eq!(command::NULL, 0x0000);
    assert_eq!(command::RESET, 0x0011);
    assert_eq!(command::STANDBY, 0x0022);
    assert_eq!(command::WAKEUP, 0x0033);
    assert_eq!(command::LOCK, 0x0555);
    assert_eq!(command::UNLOCK, 0x0666);
    // Register-addressed commands: opcode | address << 6 | (count - 1).
    assert_eq!(command::rreg(0x01, 1), 0xA040);
    assert_eq!(command::rreg(0x7F, 64), 0xBFFF);
    assert_eq!(command::wreg(0x06, 1), 0x6180);
    assert_eq!(command::wreg(0x00, 2), 0x6001);
}

#[test]
fn channel_register_addresses() {
    assert_eq!(ch_cfg(0), 0x09);
    assert_eq!(ch_cfg(1), 0x0E);
    assert_eq!(ch_ocal_msb(2), 0x14);
    assert_eq!(ch_gcal_msb(7), 0x2F);
}

#[test]
fn status_lock_bit() {
    assert!(Status(0x8000).locked());
    assert!(Status(0xFFFF).locked());
    assert!(!Status(0x7FFF).locked());
    assert!(!Status(0x0000).locked());
}

#[test]
fn short_frame_layout() {
    // A short frame holds the command word and the input CRC word, each
    // three bytes wide, big-endian, zero-padded low.
    let frame = build_short(command::NULL);
    assert_eq!(frame, vec![0x00, 0x00, 0x00, 0xCC, 0x9C, 0x00]);

    let frame = build_short(command::RESET);
    assert_eq!(frame, vec![0x00, 0x11, 0x00, 0xFC, 0xDE, 0x00]);
}

#[test]
fn write_one_frame_layout() {
    // Command word, value word, input CRC word.
    let frame = build_write_one(0x06, 0x0055);
    assert_eq!(
        frame,
        vec![0x61, 0x80, 0x00, 0x00, 0x55, 0x00, 0xC7, 0x32, 0x00]
    );
}

#[test]
fn normal_frame_layout() {
    // A normal frame is full-width: the command and CRC words at the
    // front, the channel word slots zero.
    let frame = build_normal(command::RESET);
    assert_eq!(frame.len(), 30);
    assert_eq!(&frame[..6], &[0x00, 0x11, 0x00, 0xFC, 0xDE, 0x00]);
    assert!(frame[6..].iter().all(|&b| b == 0));
}

#[test]
fn verified_data_accepts_matching_crc() {
    let mut frame: Vec<u8> = vec![0x12, 0x34, 0x00, 0xAB, 0xCD, 0x00];
    let crc = crc16_ccitt_const(&frame);
    frame.push((crc >> 8) as u8);
    frame.push((crc & 0xFF) as u8);
    frame.push(0x00);
    let data = get_verified_data(&frame).ok().expect("crc should match");
    assert_eq!(data, &frame[..6]);
}

#[test]
fn verified_data_rejects_any_single_bit_flip() {
    // For a well-formed frame the recomputed checksum equals the trailing
    // word; flipping any single bit of the data portion must break that.
    let mut frame: Vec<u8> = vec![0x12, 0x34, 0x00, 0xAB, 0xCD, 0x00];
    let crc = crc16_ccitt_const(&frame);
    frame.push((crc >> 8) as u8);
    frame.push((crc & 0xFF) as u8);
    frame.push(0x00);

    for byte_idx in 0..6 {
        for bit in 0..8 {
            let mut corrupted = frame.clone();
            corrupted[byte_idx] ^= 1u8 << bit;
            let err = get_verified_data(&corrupted).err().expect(
                "a single flipped bit must be detected",
            );
            assert!(matches!(err, CommunicationErrorKind::CrcMismatch));
        }
    }
}

#[test]
fn be16_reads_big_endian() {
    assert_eq!(be16(0x12, 0x34), 0x1234);
    assert_eq!(be16(0xFF, 0x28), 0xFF28);
    assert_eq!(be16(0x00, 0x00), 0x0000);
}
