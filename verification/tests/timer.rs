use emerald::bus::{Attach, Bus, BusListener, Device, Fault};
use emerald::clock::ClockListener;
use emerald::cpu::CPU;
use emerald::timer::{clock_bit, Timer};

fn with_timer() -> (Bus, usize) {
    let mut bus = Bus::new();
    CPU::new().attach_to_bus(&mut bus).unwrap();
    let handle = bus.attach(Device::Timer(Timer::new())).unwrap();
    (bus, handle)
}

#[test]
fn the_divider_is_the_high_byte_of_the_cycles() {
    let (mut bus, timer) = with_timer();
    assert_eq!(bus.read_byte(0xFF04), Ok(0));
    bus.tick(timer, 255).unwrap();
    assert_eq!(bus.read_byte(0xFF04), Ok(0));
    bus.tick(timer, 1).unwrap();
    assert_eq!(bus.read_byte(0xFF04), Ok(1));
    bus.tick(timer, 200).unwrap();
    bus.tick(timer, 200).unwrap();
    assert_eq!(bus.read_byte(0xFF04), Ok(2));
    bus.write_byte(0xFF04, 0x77).unwrap();
    assert_eq!(bus.read_byte(0xFF04), Ok(0));
    bus.tick(timer, 255).unwrap();
    assert_eq!(bus.read_byte(0xFF04), Ok(0));
}

#[test]
fn the_divider_wraps() {
    let mut timer = Timer { cycles: 0xFFFF, counter_register: 0, modulo_register: 0, control_register: 0 };
    assert!(!timer.advance());
    assert_eq!(timer.cycles, 0);
    assert_eq!(timer.counter_register, 0);
}

#[test]
fn the_timer_registers_store_what_is_written() {
    let mut timer = Timer::new();
    assert_eq!(timer.bus_attach(), vec![Attach::RegisterRange(0x04, 0x07)]);
    assert_eq!(timer.bus_write(0xFF05, 0x12), Ok(false));
    assert_eq!(timer.bus_write(0xFF06, 0x34), Ok(false));
    assert_eq!(timer.bus_write(0xFF07, 0x05), Ok(false));
    assert_eq!(timer.bus_read(0xFF05), Ok(0x12));
    assert_eq!(timer.bus_read(0xFF06), Ok(0x34));
    assert_eq!(timer.bus_read(0xFF07), Ok(0x05));
    assert_eq!(timer.bus_read(0xFF08), Err(Fault::NotOwned(0xFF08)));
    assert_eq!(timer.bus_write(0xFF03, 0), Err(Fault::NotOwned(0xFF03)));
}

#[test]
fn the_rates_follow_four_bits_of_the_divider() {
    assert_eq!(clock_bit(0), 0x0400);
    assert_eq!(clock_bit(1), 0x0080);
    assert_eq!(clock_bit(2), 0x0020);
    assert_eq!(clock_bit(3), 0x0008);
}

#[test]
fn the_counter_moves_when_its_bit_of_the_divider_changes() {
    let (mut bus, timer) = with_timer();
    bus.write_byte(0xFF07, 0x07).unwrap();
    bus.tick(timer, 7).unwrap();
    assert_eq!(bus.read_byte(0xFF05), Ok(0));
    bus.tick(timer, 1).unwrap();
    assert_eq!(bus.read_byte(0xFF05), Ok(1));
    bus.tick(timer, 16).unwrap();
    assert_eq!(bus.read_byte(0xFF05), Ok(3));
    bus.write_byte(0xFF07, 0x03).unwrap();
    bus.tick(timer, 64).unwrap();
    assert_eq!(bus.read_byte(0xFF05), Ok(3));
    bus.write_byte(0xFF07, 0x06).unwrap();
    bus.tick(timer, 8).unwrap();
    assert_eq!(bus.read_byte(0xFF05), Ok(4));
    bus.tick(timer, 32).unwrap();
    assert_eq!(bus.read_byte(0xFF05), Ok(5));
}

#[test]
fn an_overflow_restarts_the_counter_and_asks_for_the_interrupt() {
    let (mut bus, timer) = with_timer();
    bus.write_byte(0xFF05, 0xFF).unwrap();
    bus.write_byte(0xFF06, 0xAB).unwrap();
    bus.write_byte(0xFF07, 0x07).unwrap();
    bus.tick(timer, 7).unwrap();
    assert_eq!(bus.read_byte(0xFF05), Ok(0xFF));
    assert_eq!(bus.read_byte(0xFF0F), Ok(0x00));
    bus.tick(timer, 1).unwrap();
    assert_eq!(bus.read_byte(0xFF05), Ok(0xAB));
    assert_eq!(bus.read_byte(0xFF0F), Ok(0x04));
}

#[test]
fn an_overflow_without_interrupt_flags_on_the_bus_is_a_fault() {
    let mut bus = Bus::new();
    let mut timer = Timer { cycles: 7, counter_register: 0xFF, modulo_register: 0, control_register: 0x07 };
    assert_eq!(timer.callback(&mut bus, 3), Err(Fault::Unmapped(0xFF0F)));
    assert_eq!(timer, Timer { cycles: 8, counter_register: 0x00, modulo_register: 0, control_register: 0x07 });
    let mut timer = Timer { cycles: 7, counter_register: 0xFE, modulo_register: 0, control_register: 0x07 };
    assert_eq!(timer.callback(&mut bus, 1), Ok(()));
    assert_eq!(timer.counter_register, 0xFF);
    assert_eq!(timer.cycles, 8);
}
