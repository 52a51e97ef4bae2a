//! Tests for the I/O expander's address and pin value types.

use cellagent::tca9535::{Address, Configuration, Input, Output, PinIndex, PolarityInversion};

#[test]
fn test_address_new_valid() {
    assert_eq!(Address::new(0x20), Some(Address::Lll));
    assert_eq!(Address::new(0x21), Some(Address::Llh));
    assert_eq!(Address::new(0x22), Some(Address::Lhl));
    assert_eq!(Address::new(0x23), Some(Address::Lhh));
    assert_eq!(Address::new(0x24), Some(Address::Hll));
    assert_eq!(Address::new(0x25), Some(Address::Hlh));
    assert_eq!(Address::new(0x26), Some(Address::Hhl));
    assert_eq!(Address::new(0x27), Some(Address::Hhh));
}

#[test]
fn test_address_new_invalid() {
    assert_eq!(Address::new(0x00), None);
    assert_eq!(Address::new(0x1F), None);
    assert_eq!(Address::new(0x28), None);
    assert_eq!(Address::new(0xFF), None);
}

#[test]
fn test_address_get() {
    assert_eq!(Address::Lll.get(), 0x20);
    assert_eq!(Address::Llh.get(), 0x21);
    assert_eq!(Address::Lhl.get(), 0x22);
    assert_eq!(Address::Lhh.get(), 0x23);
    assert_eq!(Address::Hll.get(), 0x24);
    assert_eq!(Address::Hlh.get(), 0x25);
    assert_eq!(Address::Hhl.get(), 0x26);
    assert_eq!(Address::Hhh.get(), 0x27);
}

#[test]
fn test_pin_index_bit() {
    assert_eq!(PinIndex::P0.bit(), 0);
    assert_eq!(PinIndex::P1.bit(), 1);
    assert_eq!(PinIndex::P2.bit(), 2);
    assert_eq!(PinIndex::P3.bit(), 3);
    assert_eq!(PinIndex::P4.bit(), 4);
    assert_eq!(PinIndex::P5.bit(), 5);
    assert_eq!(PinIndex::P6.bit(), 6);
    assert_eq!(PinIndex::P7.bit(), 7);
    assert_eq!(PinIndex::P8.bit(), 8);
    assert_eq!(PinIndex::P9.bit(), 9);
    assert_eq!(PinIndex::P10.bit(), 10);
    assert_eq!(PinIndex::P11.bit(), 11);
    assert_eq!(PinIndex::P12.bit(), 12);
    assert_eq!(PinIndex::P13.bit(), 13);
    assert_eq!(PinIndex::P14.bit(), 14);
    assert_eq!(PinIndex::P15.bit(), 15);
}

#[test]
fn test_pin_index_mask() {
    assert_eq!(PinIndex::P0.mask(), 0x0001);
    assert_eq!(PinIndex::P1.mask(), 0x0002);
    assert_eq!(PinIndex::P2.mask(), 0x0004);
    assert_eq!(PinIndex::P3.mask(), 0x0008);
    assert_eq!(PinIndex::P4.mask(), 0x0010);
    assert_eq!(PinIndex::P5.mask(), 0x0020);
    assert_eq!(PinIndex::P6.mask(), 0x0040);
    assert_eq!(PinIndex::P7.mask(), 0x0080);
    assert_eq!(PinIndex::P8.mask(), 0x0100);
    assert_eq!(PinIndex::P9.mask(), 0x0200);
    assert_eq!(PinIndex::P10.mask(), 0x0400);
    assert_eq!(PinIndex::P11.mask(), 0x0800);
    assert_eq!(PinIndex::P12.mask(), 0x1000);
    assert_eq!(PinIndex::P13.mask(), 0x2000);
    assert_eq!(PinIndex::P14.mask(), 0x4000);
    assert_eq!(PinIndex::P15.mask(), 0x8000);
}

#[test]
fn test_input_is_high() {
    let input = Input(0b1010_1010_1010_1010);
    assert!(!input.is_high(PinIndex::P0));
    assert!(input.is_high(PinIndex::P1));
    assert!(!input.is_high(PinIndex::P2));
    assert!(input.is_high(PinIndex::P3));
    assert!(!input.is_high(PinIndex::P4));
    assert!(input.is_high(PinIndex::P5));
    assert!(!input.is_high(PinIndex::P6));
    assert!(input.is_high(PinIndex::P7));
    assert!(!input.is_high(PinIndex::P8));
    assert!(input.is_high(PinIndex::P9));
    assert!(!input.is_high(PinIndex::P10));
    assert!(input.is_high(PinIndex::P11));
    assert!(!input.is_high(PinIndex::P12));
    assert!(input.is_high(PinIndex::P13));
    assert!(!input.is_high(PinIndex::P14));
    assert!(input.is_high(PinIndex::P15));
}

#[test]
fn test_input_is_low() {
    let input = Input(0b1010_1010_1010_1010);
    assert!(input.is_low(PinIndex::P0));
    assert!(!input.is_low(PinIndex::P1));
    assert!(input.is_low(PinIndex::P2));
    assert!(!input.is_low(PinIndex::P3));
    assert!(input.is_low(PinIndex::P4));
    assert!(!input.is_low(PinIndex::P5));
    assert!(input.is_low(PinIndex::P6));
    assert!(!input.is_low(PinIndex::P7));
    assert!(input.is_low(PinIndex::P8));
    assert!(!input.is_low(PinIndex::P9));
    assert!(input.is_low(PinIndex::P10));
    assert!(!input.is_low(PinIndex::P11));
    assert!(input.is_low(PinIndex::P12));
    assert!(!input.is_low(PinIndex::P13));
    assert!(input.is_low(PinIndex::P14));
    assert!(!input.is_low(PinIndex::P15));
}

#[test]
fn test_output_with_high() {
    let output = Output(0x0000);
    let output = output.with_high(PinIndex::P0);
    assert_eq!(output.0, 0x0001);
    let output = output.with_high(PinIndex::P7);
    assert_eq!(output.0, 0x0081);
    let output = output.with_high(PinIndex::P15);
    assert_eq!(output.0, 0x8081);
}

#[test]
fn test_output_with_low() {
    let output = Output(0xFFFF);
    let output = output.with_low(PinIndex::P0);
    assert_eq!(output.0, 0xFFFE);
    let output = output.with_low(PinIndex::P7);
    assert_eq!(output.0, 0xFF7E);
    let output = output.with_low(PinIndex::P15);
    assert_eq!(output.0, 0x7F7E);
}

#[test]
fn test_output_is_high() {
    let output = Output(0b0101_0101_0101_0101);
    assert!(output.is_high(PinIndex::P0));
    assert!(!output.is_high(PinIndex::P1));
    assert!(output.is_high(PinIndex::P2));
    assert!(!output.is_high(PinIndex::P3));
    assert!(output.is_high(PinIndex::P4));
    assert!(!output.is_high(PinIndex::P5));
    assert!(output.is_high(PinIndex::P6));
    assert!(!output.is_high(PinIndex::P7));
    assert!(output.is_high(PinIndex::P8));
    assert!(!output.is_high(PinIndex::P9));
    assert!(output.is_high(PinIndex::P10));
    assert!(!output.is_high(PinIndex::P11));
    assert!(output.is_high(PinIndex::P12));
    assert!(!output.is_high(PinIndex::P13));
    assert!(output.is_high(PinIndex::P14));
    assert!(!output.is_high(PinIndex::P15));
}

#[test]
fn test_polarity_inversion_with_inverted() {
    let polarity = PolarityInversion(0x0000);
    let polarity = polarity.with_inverted(PinIndex::P0);
    assert_eq!(polarity.0, 0x0001);
    let polarity = polarity.with_inverted(PinIndex::P7);
    assert_eq!(polarity.0, 0x0081);
    let polarity = polarity.with_inverted(PinIndex::P15);
    assert_eq!(polarity.0, 0x8081);
}

#[test]
fn test_polarity_inversion_with_normal() {
    let polarity = PolarityInversion(0xFFFF);
    let polarity = polarity.with_normal(PinIndex::P0);
    assert_eq!(polarity.0, 0xFFFE);
    let polarity = polarity.with_normal(PinIndex::P7);
    assert_eq!(polarity.0, 0xFF7E);
    let polarity = polarity.with_normal(PinIndex::P15);
    assert_eq!(polarity.0, 0x7F7E);
}

#[test]
fn test_polarity_inversion_is_inverted() {
    let polarity = PolarityInversion(0b1100_1100_1100_1100);
    assert!(!polarity.is_inverted(PinIndex::P0));
    assert!(!polarity.is_inverted(PinIndex::P1));
    assert!(polarity.is_inverted(PinIndex::P2));
    assert!(polarity.is_inverted(PinIndex::P3));
    assert!(!polarity.is_inverted(PinIndex::P4));
    assert!(!polarity.is_inverted(PinIndex::P5));
    assert!(polarity.is_inverted(PinIndex::P6));
    assert!(polarity.is_inverted(PinIndex::P7));
    assert!(!polarity.is_inverted(PinIndex::P8));
    assert!(!polarity.is_inverted(PinIndex::P9));
    assert!(polarity.is_inverted(PinIndex::P10));
    assert!(polarity.is_inverted(PinIndex::P11));
    assert!(!polarity.is_inverted(PinIndex::P12));
    assert!(!polarity.is_inverted(PinIndex::P13));
    assert!(polarity.is_inverted(PinIndex::P14));
    assert!(polarity.is_inverted(PinIndex::P15));
}

#[test]
fn test_polarity_inversion_is_normal() {
    let polarity = PolarityInversion(0b1010_1010_1010_1010);
    assert!(polarity.is_normal(PinIndex::P0));
    assert!(!polarity.is_normal(PinIndex::P1));
    assert!(polarity.is_normal(PinIndex::P2));
    assert!(!polarity.is_normal(PinIndex::P3));
    assert!(polarity.is_normal(PinIndex::P4));
    assert!(!polarity.is_normal(PinIndex::P5));
    assert!(polarity.is_normal(PinIndex::P6));
    assert!(!polarity.is_normal(PinIndex::P7));
    assert!(polarity.is_normal(PinIndex::P8));
    assert!(!polarity.is_normal(PinIndex::P9));
    assert!(polarity.is_normal(PinIndex::P10));
    assert!(!polarity.is_normal(PinIndex::P11));
    assert!(polarity.is_normal(PinIndex::P12));
    assert!(!polarity.is_normal(PinIndex::P13));
    assert!(polarity.is_normal(PinIndex::P14));
    assert!(!polarity.is_normal(PinIndex::P15));
}

#[test]
fn test_configuration_with_input() {
    let config = Configuration(0x0000);
    let config = config.with_input(PinIndex::P0);
    assert_eq!(config.0, 0x0001);
    let config = config.with_input(PinIndex::P7);
    assert_eq!(config.0, 0x0081);
    let config = config.with_input(PinIndex::P15);
    assert_eq!(config.0, 0x8081);
}

#[test]
fn test_configuration_with_output() {
    let config = Configuration(0xFFFF);
    let config = config.with_output(PinIndex::P0);
    assert_eq!(config.0, 0xFFFE);
    let config = config.with_output(PinIndex::P7);
    assert_eq!(config.0, 0xFF7E);
    let config = config.with_output(PinIndex::P15);
    assert_eq!(config.0, 0x7F7E);
}

#[test]
fn test_configuration_is_input() {
    let config = Configuration(0b0011_0011_0011_0011);
    assert!(config.is_input(PinIndex::P0));
    assert!(config.is_input(PinIndex::P1));
    assert!(!config.is_input(PinIndex::P2));
    assert!(!config.is_input(PinIndex::P3));
    assert!(config.is_input(PinIndex::P4));
    assert!(config.is_input(PinIndex::P5));
    assert!(!config.is_input(PinIndex::P6));
    assert!(!config.is_input(PinIndex::P7));
    assert!(config.is_input(PinIndex::P8));
    assert!(config.is_input(PinIndex::P9));
    assert!(!config.is_input(PinIndex::P10));
    assert!(!config.is_input(PinIndex::P11));
    assert!(config.is_input(PinIndex::P12));
    assert!(config.is_input(PinIndex::P13));
    assert!(!config.is_input(PinIndex::P14));
    assert!(!config.is_input(PinIndex::P15));
}

#[test]
fn test_all_pins_manipulation() {
    let mut output = Output(0x0000);
    output = output.with_high(PinIndex::P0);
    output = output.with_high(PinIndex::P1);
    output = output.with_high(PinIndex::P2);
    output = output.with_high(PinIndex::P3);
    output = output.with_high(PinIndex::P4);
    output = output.with_high(PinIndex::P5);
    output = output.with_high(PinIndex::P6);
    output = output.with_high(PinIndex::P7);
    output = output.with_high(PinIndex::P8);
    output = output.with_high(PinIndex::P9);
    output = output.with_high(PinIndex::P10);
    output = output.with_high(PinIndex::P11);
    output = output.with_high(PinIndex::P12);
    output = output.with_high(PinIndex::P13);
    output = output.with_high(PinIndex::P14);
    output = output.with_high(PinIndex::P15);
    assert_eq!(output.0, 0xFFFF);

    output = output.with_low(PinIndex::P0);
    output = output.with_low(PinIndex::P1);
    output = output.with_low(PinIndex::P2);
    output = output.with_low(PinIndex::P3);
    output = output.with_low(PinIndex::P4);
    output = output.with_low(PinIndex::P5);
    output = output.with_low(PinIndex::P6);
    output = output.with_low(PinIndex::P7);
    output = output.with_low(PinIndex::P8);
    output = output.with_low(PinIndex::P9);
    output = output.with_low(PinIndex::P10);
    output = output.with_low(PinIndex::P11);
    output = output.with_low(PinIndex::P12);
    output = output.with_low(PinIndex::P13);
    output = output.with_low(PinIndex::P14);
    output = output.with_low(PinIndex::P15);
    assert_eq!(output.0, 0x0000);
}
