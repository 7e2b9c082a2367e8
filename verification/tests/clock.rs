use emerald::bus::{Bus, Device, Fault};
use emerald::clock::{remainder, Clock, ClockError};
use emerald::cpu::CPU;
use emerald::ppu::PPU;
use emerald::timer::Timer;

#[test]
fn the_time_left_of_a_step() {
    assert_eq!(remainder(0, 0), None);
    assert_eq!(remainder(1, 0), Some(239));
    assert_eq!(remainder(1, 238), Some(1));
    assert_eq!(remainder(1, 239), None);
    assert_eq!(remainder(1, 240), None);
    assert_eq!(remainder(4, 100), Some(856));
    assert_eq!(remainder(255, 0), Some(60_945));
    assert_eq!(remainder(255, u128::MAX), None);
}

#[test]
fn a_step_without_cycles_is_overdue() {
    let mut clock = Clock::new();
    assert_eq!(clock.cycles(), 0);
    assert_eq!(clock.cycle_end(), Err(ClockError::Overdue));
    clock.cycle_start();
    assert_eq!(clock.cycle_end(), Err(ClockError::Overdue));
}

#[test]
fn the_clock_waits_for_the_end_of_a_step() {
    let mut bus = Bus::new();
    let mut clock = Clock::new();
    let mut waited = false;
    for _ in 0..1000 {
        clock.cycle_start();
        clock.increment(&mut bus, 255).unwrap();
        let started = std::time::Instant::now();
        if clock.cycle_end() == Ok(()) {
            waited = true;
            assert!(started.elapsed().as_nanos() > 0);
            assert_eq!(clock.cycles(), 255);
            break;
        }
    }
    assert!(waited);
}

#[test]
fn cycles_are_counted_and_handed_to_every_listener() {
    let mut bus = Bus::new();
    CPU::new().attach_to_bus(&mut bus).unwrap();
    let timer = bus.attach(Device::Timer(Timer::new())).unwrap();
    let ppu = bus.attach(Device::Ppu(PPU::new())).unwrap();
    let mut clock = Clock::new();
    clock.attach(ppu);
    clock.attach(timer);
    clock.cycle_start();
    assert_eq!(clock.increment(&mut bus, 200), Ok(()));
    assert_eq!(clock.increment(&mut bus, 55), Ok(()));
    assert_eq!(clock.cycles(), 255);
    assert_eq!(bus.tick(timer, 1), Ok(()));
    assert_eq!(bus.read_byte(0xFF04), Ok(1));
    match bus.device(ppu) {
        Some(Device::Ppu(ppu)) => assert_eq!(ppu.clock(), 255),
        _ => panic!("no video controller"),
    }
    clock.cycle_start();
    assert_eq!(clock.cycles(), 0);
}

#[test]
fn a_fault_of_a_listener_stops_the_round() {
    let mut bus = Bus::new();
    let timer = bus.attach(Device::Timer(Timer::new())).unwrap();
    let mut clock = Clock::new();
    clock.attach(timer + 1);
    clock.attach(timer);
    assert_eq!(clock.increment(&mut bus, 8), Err(Fault::NoSuchDevice(1)));
    assert_eq!(clock.cycles(), 8);
    match bus.device(timer) {
        Some(Device::Timer(timer)) => assert_eq!(timer.cycles, 0),
        _ => panic!("no timer"),
    }
}
