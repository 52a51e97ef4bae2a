//! Round-trip and error-handling tests for the byte-stuffing codec.

use cellagent::cobs::decode::DecodeError;
use cellagent::cobs::{Decoder, Encoder};

fn decode_full_slice(decoder: &mut Decoder, data: &[u8]) -> Vec<u8> {
    let (last, rest) = data.split_last().expect("data should not be empty");
    for &b in rest {
        let res = decoder.feed(b).ok().expect("feed should not error");
        assert!(res.is_none(), "expected intermediate feed to return None");
    }
    let res = decoder.feed(*last).ok().expect("feed should not error");
    res.expect("expected final feed to return Some");
    decoder.data().to_vec()
}

fn encode_full_slice(encoder: &mut Encoder, dest: &mut [u8]) -> usize {
    let mut pos = 0;
    loop {
        let byte = encoder.pull();
        match byte {
            Some(b) => {
                dest[pos] = b;
                pos += 1;
            }
            None => break,
        }
    }
    pos
}

fn assert_roundtrip(decoded: &[u8], encoded: &[u8]) {
    let mut buf = [0u8; 512];

    let mut encoder = Encoder::new(decoded);
    let n = encode_full_slice(&mut encoder, &mut buf);
    let actual_encoded = &buf[..n];
    assert_eq!(actual_encoded, encoded, "encoding did not match expected");

    let mut decoder = Decoder::new_uninit(512);
    let actual_decoded = decode_full_slice(&mut decoder, encoded);
    assert_eq!(actual_decoded, decoded, "decoding did not match expected");
}

fn generate_example_data(start: u8) -> [u8; 255] {
    let mut buf = [0u8; 255];
    let mut i = 0;
    while i < buf.len() {
        buf[i] = start.wrapping_add(i as u8);
        i += 1;
    }
    buf
}

#[test]
fn roundtrip_example_1() {
    assert_roundtrip(&[0x00], &[0x01, 0x01, 0x00]);
}

#[test]
fn roundtrip_example_2() {
    assert_roundtrip(&[0x00, 0x00], &[0x01, 0x01, 0x01, 0x00]);
}

#[test]
fn roundtrip_example_3() {
    assert_roundtrip(&[0x00, 0x11, 0x00], &[0x01, 0x02, 0x11, 0x01, 0x00]);
}

#[test]
fn roundtrip_example_5() {
    assert_roundtrip(
        &[0x11, 0x22, 0x33, 0x44],
        &[0x05, 0x11, 0x22, 0x33, 0x44, 0x00],
    );
}

#[test]
fn roundtrip_example_11() {
    // 255 bytes starting at 0x03, wrapping: the zero byte lands at index
    // 253, so the first block holds 253 literal bytes (prefix 0xFE) and
    // the remainder is the single byte 0x01 (prefix 0x02).
    let mut encoded: Vec<u8> = vec![0xFE];
    for b in 0x03..=0xFFu8 {
        encoded.push(b);
    }
    encoded.push(0x02);
    encoded.push(0x01);
    encoded.push(0x00);
    assert_roundtrip(&generate_example_data(0x03), &encoded);
}

#[test]
fn roundtrip_empty_payload() {
    assert_roundtrip(&[], &[0x01, 0x00]);
}

#[test]
fn roundtrip_full_block_no_zero() {
    // Exactly 254 non-zero bytes: one partial block (prefix 0xFF)
    // followed directly by the terminator.
    let decoded: Vec<u8> = (0..254).map(|i| (i % 255) as u8 + 1).collect();
    let mut encoded: Vec<u8> = vec![0xFF];
    encoded.extend_from_slice(&decoded);
    encoded.push(0x00);
    assert_roundtrip(&decoded, &encoded);
}

#[test]
fn encoding_is_delimiter_safe() {
    // The only zero byte in an encoding is the final terminator.
    let payloads: [&[u8]; 4] = [
        &[],
        &[0x00, 0x00, 0x00],
        &[0x01, 0x00, 0x02, 0x00, 0x03],
        &[0xFF; 300],
    ];
    for payload in payloads.iter() {
        let mut encoder = Encoder::new(payload);
        let mut out = Vec::new();
        while let Some(b) = encoder.pull() {
            out.push(b);
        }
        assert_eq!(*out.last().unwrap(), 0x00);
        for &b in &out[..out.len() - 1] {
            assert_ne!(b, 0x00);
        }
    }
}

#[test]
fn premature_delimiter_is_malformed() {
    // A length prefix announcing n > 0 literal bytes followed immediately
    // by the terminator is a malformed frame; the decoder resets to idle
    // and the next frame decodes cleanly.
    let mut decoder = Decoder::new_uninit(16);
    assert!(decoder.feed(0x05).unwrap().is_none());
    let err = decoder.feed(0x00).unwrap_err();
    assert_eq!(err, DecodeError::InvalidFrame);
    // The decoder accepts a well-formed frame afterwards.
    let decoded = decode_full_slice(&mut decoder, &[0x03, 0xAA, 0xBB, 0x00]);
    assert_eq!(decoded, vec![0xAA, 0xBB]);
}

#[test]
fn stray_delimiter_while_idle() {
    let mut decoder = Decoder::new_uninit(16);
    // A stray terminator while idle reports an empty frame.
    assert_eq!(decoder.feed(0x00).unwrap(), Some(0));
}

#[test]
fn destination_buffer_too_small() {
    let mut decoder = Decoder::new_uninit(1);
    assert!(decoder.feed(0x04).unwrap().is_none());
    assert!(decoder.feed(0x11).unwrap().is_none());
    let err = decoder.feed(0x22).unwrap_err();
    assert_eq!(err, DecodeError::BufferTooSmall);
    // The reconstructed prefix is intact.
    assert_eq!(decoder.data(), &[0x11]);
}
