use emerald::bus::{Attach, Bus, BusListener, Device, Fault};
use emerald::clock::ClockListener;
use emerald::serial::SerialInterface;

#[test]
fn a_transfer_sends_the_data_byte() {
    let mut serial = SerialInterface::new(false);
    assert_eq!(serial.bus_attach(), vec![Attach::RegisterRange(0x01, 0x02)]);
    assert_eq!(serial.bus_write(0xFF01, b'H'), Ok(false));
    assert_eq!(serial.bus_write(0xFF02, 0x81), Ok(false));
    assert_eq!(serial.bus_write(0xFF01, b'i'), Ok(false));
    assert_eq!(serial.bus_write(0xFF02, 0x01), Ok(false));
    assert_eq!(serial.bus_write(0xFF02, 0x80), Ok(false));
    assert_eq!(serial.bus_read(0xFF01), Ok(b'i'));
    assert_eq!(serial.bus_read(0xFF02), Ok(0x80));
    assert_eq!(serial.take_sent(), vec![b'H', b'i']);
    assert_eq!(serial.take_sent(), Vec::<u8>::new());
}

#[test]
fn a_quiet_port_sends_nothing() {
    let mut serial = SerialInterface::new(true);
    serial.bus_write(0xFF01, b'H').unwrap();
    serial.bus_write(0xFF02, 0x81).unwrap();
    assert_eq!(serial.bus_read(0xFF02), Ok(0x81));
    assert_eq!(serial.take_sent(), Vec::<u8>::new());
}

#[test]
fn the_port_owns_two_registers() {
    let mut serial = SerialInterface::new(false);
    assert_eq!(serial.bus_read(0xFF00), Err(Fault::NotOwned(0xFF00)));
    assert_eq!(serial.bus_write(0xFF03, 0), Err(Fault::NotOwned(0xFF03)));
}

#[test]
fn time_does_nothing_to_the_port() {
    let mut bus = Bus::new();
    let mut serial = SerialInterface::new(false);
    serial.bus_write(0xFF01, 0x42).unwrap();
    serial.bus_write(0xFF02, 0x80).unwrap();
    assert_eq!(serial.callback(&mut bus, 255), Ok(()));
    assert_eq!(serial.bus_read(0xFF02), Ok(0x80));
    assert_eq!(serial.take_sent(), vec![0x42]);
}

#[test]
fn the_bus_hands_out_what_was_sent() {
    let mut bus = Bus::new();
    let serial = bus.attach(Device::Serial(SerialInterface::new(false))).unwrap();
    bus.write_byte(0xFF01, b'!').unwrap();
    bus.write_byte(0xFF02, 0x80).unwrap();
    assert_eq!(bus.take_sent(serial + 1), Vec::<u8>::new());
    assert_eq!(bus.take_sent(serial), vec![b'!']);
    assert_eq!(bus.take_sent(serial), Vec::<u8>::new());
}
