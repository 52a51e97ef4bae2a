//! Tests for the temperature sensor driver against a simulated bus
//! device.

use cellagent::p3t1755::alert::{self, AlertCondition};
use cellagent::p3t1755::{Address, Config, ConversionTime, FaultQueue, P3t1755, Temperature};
use cellagent::transport::sim::SimI2c;

#[test]
fn test_read_temperature() {
    // Temperature: 25.0625 degrees = 401 in 1/16 degree units.
    // Register format: 12-bit value left-shifted by 4 bits: 0x1910.
    let mut device = SimI2c::new(0x48);
    device.set_register(0x00, vec![0x19, 0x10]);

    let mut sensor = P3t1755::new(device, Address::Addr9);
    let temp = sensor.read_temperature().unwrap();

    assert_eq!(temp.raw(), 401);
    assert_eq!(temp.degrees_celsius(), 25);
    assert_eq!(temp.centi_degrees_celsius(), 2506);
}

#[test]
fn test_read_negative_temperature() {
    // Temperature: -10.5 degrees = -168 in 1/16 degree units.
    // Register format: -168 << 4 = 0xF580 in two's complement.
    let mut device = SimI2c::new(0x48);
    device.set_register(0x00, vec![0xF5, 0x80]);

    let mut sensor = P3t1755::new(device, Address::Addr9);
    let temp = sensor.read_temperature().unwrap();

    assert_eq!(temp.raw(), -168);
    assert_eq!(temp.degrees_celsius(), -11); // Truncated
    assert_eq!(temp.centi_degrees_celsius(), -1050);
}

#[test]
fn test_read_config() {
    let mut device = SimI2c::new(0x48);
    device.set_register(0x01, vec![0x28]); // Default config

    let mut sensor = P3t1755::new(device, Address::Addr9);
    let config = sensor.read_config().unwrap();

    assert!(!config.shutdown_mode());
    assert!(!config.thermostat_mode());
    assert!(!config.polarity());
    assert!(!config.one_shot());
}

#[test]
fn test_write_config() {
    let config = Config::reset()
        .with_shutdown_mode(true)
        .with_polarity(true)
        .with_fault_queue(FaultQueue::Four)
        .with_conversion_time(ConversionTime::Ms110);

    let device = SimI2c::new(0x48);
    let mut sensor = P3t1755::new(device, Address::Addr9);
    sensor.write_config(config).unwrap();

    // Config value written on the wire: 0b0101_0101.
    let device = sensor.into_inner();
    assert_eq!(device.register_bytes(0x01).unwrap(), &vec![0x55]);
}

#[test]
fn test_read_t_low() {
    // Low threshold: 75 degrees = 1200 in 1/16 degree units: 0x4B00.
    let mut device = SimI2c::new(0x48);
    device.set_register(0x02, vec![0x4B, 0x00]);

    let mut sensor = P3t1755::new(device, Address::Addr9);
    let temp = sensor.read_t_low().unwrap();

    assert_eq!(temp.degrees_celsius(), 75);
}

#[test]
fn test_write_t_low() {
    let temp = Temperature::from_degrees_celsius(50);

    let device = SimI2c::new(0x48);
    let mut sensor = P3t1755::new(device, Address::Addr9);
    sensor.write_t_low(temp).unwrap();

    let device = sensor.into_inner();
    assert_eq!(device.register_bytes(0x02).unwrap(), &vec![0x32, 0x00]);
}

#[test]
fn test_read_t_high() {
    // High threshold: 80 degrees = 1280 in 1/16 degree units: 0x5000.
    let mut device = SimI2c::new(0x48);
    device.set_register(0x03, vec![0x50, 0x00]);

    let mut sensor = P3t1755::new(device, Address::Addr9);
    let temp = sensor.read_t_high().unwrap();

    assert_eq!(temp.degrees_celsius(), 80);
}

#[test]
fn test_write_t_high() {
    let temp = Temperature::from_degrees_celsius(85);

    let device = SimI2c::new(0x48);
    let mut sensor = P3t1755::new(device, Address::Addr9);
    sensor.write_t_high(temp).unwrap();

    let device = sensor.into_inner();
    assert_eq!(device.register_bytes(0x03).unwrap(), &vec![0x55, 0x00]);
}

#[test]
fn test_register_pointer_latching() {
    // Reading the same register twice in a row goes through the latched
    // register pointer the second time, without re-addressing it.
    let mut device = SimI2c::new(0x48);
    device.set_register(0x00, vec![0x19, 0x10]);

    let mut sensor = P3t1755::new(device, Address::Addr9);

    // First read: sets the pointer.
    let temp1 = sensor.read_temperature().unwrap();
    assert_eq!(temp1.raw(), 401);

    // Second read: the pointer is latched; the plain read still serves
    // the temperature register.
    let temp2 = sensor.read_temperature().unwrap();
    assert_eq!(temp2.raw(), 401);
}

#[test]
fn test_different_addresses() {
    let addresses = [
        (Address::Addr1, 0x40u8),
        (Address::Addr9, 0x48),
        (Address::Addr16, 0x4F),
        (Address::Addr32, 0x5F),
    ];

    for (addr_enum, addr_val) in addresses.iter() {
        let mut device = SimI2c::new(*addr_val);
        device.set_register(0x00, vec![0x19, 0x10]);

        let mut sensor = P3t1755::new(device, *addr_enum);
        let temp = sensor.read_temperature().unwrap();
        assert_eq!(temp.raw(), 401);
    }
}

#[test]
fn test_config_all_features() {
    let config = Config::reset()
        .with_shutdown_mode(true)
        .with_thermostat_mode(true)
        .with_polarity(true)
        .with_fault_queue(FaultQueue::Six)
        .with_conversion_time(ConversionTime::Ms220)
        .with_one_shot(true);

    let device = SimI2c::new(0x48);
    let mut sensor = P3t1755::new(device, Address::Addr9);
    sensor.write_config(config).unwrap();

    // All bits set: 0b1111_1111.
    let device = sensor.into_inner();
    assert_eq!(device.register_bytes(0x01).unwrap(), &vec![0xFF]);
}

#[test]
fn test_full_temperature_range() {
    // Minimum temperature.
    let mut device = SimI2c::new(0x48);
    device.set_register(0x00, vec![0x80, 0x00]); // -128 degrees

    let mut sensor = P3t1755::new(device, Address::Addr9);
    let temp = sensor.read_temperature().unwrap();
    assert_eq!(temp.degrees_celsius(), -128);

    // Maximum temperature.
    let mut device = sensor.into_inner();
    device.set_register(0x00, vec![0x7F, 0xF0]); // +127.9375 degrees

    let mut sensor = P3t1755::new(device, Address::Addr9);
    let temp = sensor.read_temperature().unwrap();
    assert_eq!(temp.degrees_celsius(), 127);
    assert_eq!(temp.centi_degrees_celsius(), 12793);
}

#[test]
fn test_sequential_different_registers() {
    // Switching between different registers re-addresses each one.
    let mut device = SimI2c::new(0x48);
    device.set_register(0x00, vec![0x19, 0x10]);
    device.set_register(0x01, vec![0x28]);
    device.set_register(0x02, vec![0x4B, 0x00]);

    let mut sensor = P3t1755::new(device, Address::Addr9);

    let temp = sensor.read_temperature().unwrap();
    assert_eq!(temp.raw(), 401);
    let config = sensor.read_config().unwrap();
    assert!(!config.shutdown_mode());
    let t_low = sensor.read_t_low().unwrap();
    assert_eq!(t_low.degrees_celsius(), 75);
}

#[test]
fn test_alert_over_temperature() {
    let addr = Address::Addr9;
    let alert_byte = (addr.get() << 1) | 0x01; // LSB = 1: over-temperature

    let mut bus = SimI2c::new(0x0C);
    bus.set_register(0x00, vec![alert_byte]);

    let alert = alert::process(&mut bus)
        .expect("i2c ok")
        .expect("alert present");

    assert_eq!(alert.address().get(), addr.get());
    assert!(matches!(alert.condition(), AlertCondition::OverTemperature));
}

#[test]
fn test_alert_under_temperature() {
    let addr = Address::Addr1;
    let alert_byte = addr.get() << 1; // LSB = 0: under-temperature

    let mut bus = SimI2c::new(0x0C);
    bus.set_register(0x00, vec![alert_byte]);

    let alert = alert::process(&mut bus)
        .expect("i2c ok")
        .expect("alert present");

    assert_eq!(alert.address().get(), addr.get());
    assert!(matches!(
        alert.condition(),
        AlertCondition::UnderTemperature
    ));
}

#[test]
fn test_alert_no_pending() {
    // No device at the alert response address: the read is not
    // acknowledged and no alert is pending.
    let mut bus = SimI2c::new(0x48);

    let alert = alert::process(&mut bus).expect("i2c ok");
    assert!(alert.is_none());
}

#[test]
fn test_alert_invalid_address() {
    // Address bits decode to 0x00, outside the valid range: no alert.
    let mut bus = SimI2c::new(0x0C);
    bus.set_register(0x00, vec![0x00]);

    let alert = alert::process(&mut bus).expect("i2c ok");
    assert!(alert.is_none());
}

#[test]
fn test_read_wrong_address_nack() {
    // A sensor configured for an address where no device answers gets an
    // address NACK surfaced unchanged.
    let device = SimI2c::new(0x48);
    let mut sensor = P3t1755::new(device, Address::Addr1);
    let err = sensor.read_temperature().unwrap_err();
    assert_eq!(err, cellagent::transport::TransportError::AddressNack);
}

#[test]
fn test_address_roundtrip() {
    for value in 0x40u8..0x60 {
        let addr = Address::new(value).unwrap();
        assert_eq!(addr.get(), value);
    }
    assert!(Address::new(0x3F).is_none());
    assert!(Address::new(0x60).is_none());
}
