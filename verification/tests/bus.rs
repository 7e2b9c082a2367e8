use emerald::boot_rom::BootRom;
use emerald::bus::{address_after, Attach, Bus, BusError, BusListener, Device, Fault};
use emerald::cartridge::rom_only::RomOnlyCartridge;
use emerald::cpu::interrupt::{interrupt, InterruptRegisters, InterruptType};
use emerald::cpu::CPU;
use emerald::ppu::PPU;
use emerald::ram::{filled, DummyRAM, RegisterHoles, RAM};
use emerald::timer::Timer;

fn with_ram() -> Bus {
    let mut bus = Bus::new();
    bus.attach(Device::Ram(RAM::new())).unwrap();
    bus
}

#[test]
fn a_new_bus_has_nothing_attached() {
    let bus = Bus::new();
    assert_eq!(bus.len(), 0);
    assert_eq!(bus.read_byte(0x0000), Err(Fault::Unmapped(0x0000)));
    assert_eq!(bus.read_byte(0xFF0F), Err(Fault::Unmapped(0xFF0F)));
    assert_eq!(bus.interrupts(), InterruptRegisters { master_enable: false, enable: 0xE0, flags: 0x00 });
}

#[test]
fn attach_returns_handles_in_order() {
    let mut bus = Bus::new();
    assert_eq!(bus.attach(Device::Ram(RAM::new())), Ok(0));
    assert_eq!(bus.attach(Device::Timer(Timer::new())), Ok(1));
    assert_eq!(bus.attach(Device::Holes(RegisterHoles::new())), Ok(2));
    assert_eq!(bus.len(), 3);
}

#[test]
fn two_claims_on_one_block_are_refused() {
    let mut bus = Bus::new();
    assert_eq!(bus.attach(Device::Dummy(DummyRAM::new(0x80, 0x80, false))), Ok(0));
    assert_eq!(
        bus.attach(Device::Dummy(DummyRAM::new(0x80, 0x80, false))),
        Err(BusError::Overlap(Attach::BlockRange(0x80, 0x80)))
    );
    assert_eq!(
        bus.attach(Device::Dummy(DummyRAM::new(0x7F, 0x81, false))),
        Err(BusError::Overlap(Attach::BlockRange(0x7F, 0x81)))
    );
    assert_eq!(
        bus.attach(Device::Ppu(PPU::new())),
        Err(BusError::Overlap(Attach::BlockRange(0x80, 0x9F)))
    );
    assert_eq!(bus.len(), 1);
    assert_eq!(bus.read_byte(0x8100), Err(Fault::Unmapped(0x8100)));
    assert_eq!(bus.read_byte(0xFF40), Err(Fault::Unmapped(0xFF40)));
    assert_eq!(bus.attach(Device::Dummy(DummyRAM::new(0x81, 0x82, false))), Ok(1));
}

#[test]
fn two_claims_on_one_register_are_refused() {
    let mut bus = Bus::new();
    let cpu = CPU::new();
    assert_eq!(cpu.attach_to_bus(&mut bus), Ok(()));
    assert_eq!(cpu.attach_to_bus(&mut bus), Err(BusError::Overlap(Attach::Register(0x0F))));
    assert_eq!(
        bus.attach(Device::Dummy(DummyRAM::new(0x00, 0x0F, true))),
        Err(BusError::Overlap(Attach::RegisterRange(0x00, 0x0F)))
    );
    assert_eq!(bus.attach(Device::Dummy(DummyRAM::new(0x10, 0x3F, true))), Ok(0));
}

#[test]
fn a_component_without_claims_is_refused() {
    let mut bus = Bus::new();
    assert_eq!(bus.attach(Device::Vacant), Err(BusError::NoRanges));
    assert_eq!(bus.attach_overlay(Device::Vacant), Err(BusError::NoRanges));
    assert_eq!(bus.len(), 0);
}

#[test]
fn echo_ram_mirrors_work_ram() {
    let mut bus = with_ram();
    for address in 0xC000u16..0xDE00 {
        let value = (address as u8) ^ 0x5A;
        bus.write_byte(address, value).unwrap();
        assert_eq!(bus.read_byte(address + 0x2000), Ok(value));
    }
    bus.write_byte(0xE123, 0x99).unwrap();
    assert_eq!(bus.read_byte(0xC123), Ok(0x99));
    assert_eq!(bus.read_byte(0xDFFF), Ok(0x00));
    bus.write_byte(0xDFFF, 0x11).unwrap();
    assert_eq!(bus.read_byte(0xDFFF), Ok(0x11));
}

#[test]
fn words_are_little_endian() {
    let mut bus = with_ram();
    bus.write_word(0xC000, 0xBEEF).unwrap();
    assert_eq!(bus.read_byte(0xC000), Ok(0xEF));
    assert_eq!(bus.read_byte(0xC001), Ok(0xBE));
    assert_eq!(bus.read_word(0xC000), Ok(0xBEEF));
    assert_eq!(bus.read_word(0xC001), Ok(0x00BE));
}

#[test]
fn words_wrap_at_the_end_of_the_address_space() {
    let mut bus = Bus::new();
    CPU::new().attach_to_bus(&mut bus).unwrap();
    bus.attach(Device::BootRom(BootRom::new(vec![0x12, 0x34]))).unwrap();
    assert_eq!(address_after(0xFFFF), 0x0000);
    assert_eq!(address_after(0x1234), 0x1235);
    assert_eq!(bus.read_word(0xFFFF), Ok(0x12E0));
    assert_eq!(bus.write_word(0xFFFF, 0x0055), Err(Fault::ReadOnly(0x0000)));
    assert_eq!(bus.read_byte(0xFFFF), Ok(0x55));
}

#[test]
fn unmapped_accesses_are_faults() {
    let mut bus = with_ram();
    assert_eq!(bus.read_byte(0x8000), Err(Fault::Unmapped(0x8000)));
    assert_eq!(bus.write_byte(0x8000, 1), Err(Fault::Unmapped(0x8000)));
    assert_eq!(bus.read_word(0xFDFF), Err(Fault::Unmapped(0xFE00)));
    assert_eq!(bus.read_byte(0xFF80), Err(Fault::Unmapped(0xFF80)));
}

#[test]
fn registers_are_routed_by_their_low_byte() {
    let mut bus = Bus::new();
    bus.attach(Device::Dummy(DummyRAM::new(0xFF, 0xFF, false))).unwrap();
    assert_eq!(bus.read_byte(0xFF80), Err(Fault::Unmapped(0xFF80)));
    bus.attach(Device::Dummy(DummyRAM::new(0x80, 0xFE, true))).unwrap();
    bus.write_byte(0xFF80, 0x42).unwrap();
    bus.write_byte(0xFFFE, 0x43).unwrap();
    assert_eq!(bus.read_byte(0xFF80), Ok(0x42));
    assert_eq!(bus.read_byte(0xFFFE), Ok(0x43));
    assert_eq!(bus.read_byte(0xFFFF), Err(Fault::Unmapped(0xFFFF)));
}

#[test]
fn the_boot_rom_lies_over_the_cartridge_until_it_is_switched_off() {
    let mut image = filled(0u8, 0x8000);
    image[0x0000] = 0xAA;
    image[0x0100] = 0xBB;
    let mut bus = Bus::new();
    bus.attach(Device::Cartridge(RomOnlyCartridge::new(image))).unwrap();
    bus.attach(Device::Holes(RegisterHoles::new())).unwrap();
    let handle = bus.attach_overlay(Device::BootRom(BootRom::new(vec![0x11; 0x100]))).unwrap();
    assert_eq!(handle, 2);
    assert_eq!(bus.read_byte(0x0000), Ok(0x11));
    assert_eq!(bus.read_byte(0x00FF), Ok(0x11));
    assert_eq!(bus.read_byte(0x0100), Ok(0xBB));
    assert_eq!(bus.read_byte(0xFF50), Err(Fault::WriteOnly(0xFF50)));
    assert_eq!(bus.write_byte(0x0000, 0x01), Err(Fault::ReadOnly(0x0000)));
    assert_eq!(bus.write_byte(0xFF50, 0x01), Ok(()));
    assert_eq!(bus.read_byte(0x0000), Ok(0xAA));
    assert_eq!(bus.read_byte(0xFF50), Ok(0x00));
    assert_eq!(bus.write_byte(0x0000, 0x01), Ok(()));
    assert_eq!(bus.read_byte(0x0000), Ok(0xAA));
    assert_eq!(bus.len(), 3);
}

#[test]
fn two_overlays_on_one_block_are_refused() {
    let mut bus = Bus::new();
    assert_eq!(bus.attach_overlay(Device::BootRom(BootRom::new(vec![1]))), Ok(0));
    assert_eq!(
        bus.attach_overlay(Device::BootRom(BootRom::new(vec![2]))),
        Err(BusError::Overlap(Attach::Block(0x00)))
    );
    assert_eq!(bus.attach(Device::BootRom(BootRom::new(vec![3]))), Ok(1));
    assert_eq!(bus.read_byte(0x0000), Ok(1));
}

#[test]
fn a_short_boot_rom_holds_nothing_past_its_end() {
    let rom = BootRom::new(vec![0x31, 0xFE]);
    assert_eq!(rom.bus_read(0x0001), Ok(0xFE));
    assert_eq!(rom.bus_read(0x0002), Err(Fault::NotOwned(0x0002)));
    assert_eq!(rom.bus_read(0x0100), Err(Fault::NotOwned(0x0100)));
    assert_eq!(rom.bus_attach(), vec![Attach::Block(0x00), Attach::Register(0x50)]);
}

#[test]
fn the_cartridge_reads_its_image_and_ignores_writes() {
    let mut cartridge = RomOnlyCartridge::new(vec![0x10, 0x20, 0x30]);
    assert!(!cartridge.is_oversized());
    assert_eq!(cartridge.bus_read(0x0002), Ok(0x30));
    assert_eq!(cartridge.bus_read(0x0003), Err(Fault::NotOwned(0x0003)));
    assert_eq!(cartridge.bus_read(0xA000), Ok(0xFF));
    assert_eq!(cartridge.bus_read(0xBFFF), Ok(0xFF));
    assert_eq!(cartridge.bus_write(0x2000, 0x01), Ok(false));
    assert_eq!(cartridge.bus_write(0x0002, 0x99), Ok(false));
    assert_eq!(cartridge.bus_read(0x0002), Ok(0x30));
    assert_eq!(cartridge.bus_attach(), vec![Attach::BlockRange(0x00, 0x7F), Attach::BlockRange(0xA0, 0xBF)]);
    assert!(RomOnlyCartridge::new(filled(0u8, 0x8001)).is_oversized());
}

#[test]
fn work_ram_owns_its_addresses_only() {
    let mut ram = RAM::new();
    assert_eq!(ram.bus_read(0xBFFF), Err(Fault::NotOwned(0xBFFF)));
    assert_eq!(ram.bus_read(0xFE00), Err(Fault::NotOwned(0xFE00)));
    assert_eq!(ram.bus_write(0xFE00, 1), Err(Fault::NotOwned(0xFE00)));
    assert_eq!(ram.bus_write(0xFDFF, 7), Ok(false));
    assert_eq!(ram.bus_read(0xDDFF), Ok(7));
    assert_eq!(ram.bus_attach(), vec![Attach::BlockRange(0xC0, 0xFD)]);
}

#[test]
fn a_stand_in_memory_can_be_locked() {
    let mut audio = DummyRAM::new(0x10, 0x3F, true);
    assert_eq!(audio.bus_attach(), vec![Attach::RegisterRange(0x10, 0x3F)]);
    assert_eq!(audio.bus_write(0xFF10, 0x80), Ok(false));
    assert_eq!(audio.bus_read(0xFF10), Ok(0x80));
    assert_eq!(audio.bus_read(0xFF3F), Ok(0x00));
    assert_eq!(audio.bus_read(0xFF40), Err(Fault::NotOwned(0xFF40)));
    assert_eq!(audio.bus_read(0xFF0F), Err(Fault::NotOwned(0xFF0F)));
    audio.lock_with_value(0xFF);
    assert_eq!(audio.bus_read(0xFF10), Ok(0xFF));
    assert_eq!(audio.bus_write(0xFF11, 0x01), Ok(false));
    assert_eq!(audio.bus_read(0xFF11), Ok(0xFF));
    audio.unlock();
    assert_eq!(audio.bus_read(0xFF10), Ok(0x80));
    assert_eq!(audio.bus_read(0xFF11), Ok(0x01));
}

#[test]
fn a_stand_in_memory_over_blocks_holds_256_bytes_for_each() {
    let mut memory = DummyRAM::new(0xA0, 0xA1, false);
    assert_eq!(memory.bus_attach(), vec![Attach::BlockRange(0xA0, 0xA1)]);
    assert_eq!(memory.bus_write(0xA1FF, 0x12), Ok(false));
    assert_eq!(memory.bus_read(0xA1FF), Ok(0x12));
    assert_eq!(memory.bus_read(0xA200), Err(Fault::NotOwned(0xA200)));
    assert_eq!(memory.bus_write(0x9FFF, 0x12), Err(Fault::NotOwned(0x9FFF)));
}

#[test]
fn the_holes_read_as_zero() {
    let mut holes = RegisterHoles::new();
    assert_eq!(holes.bus_attach(), vec![Attach::RegisterRange(0x08, 0x0E), Attach::RegisterRange(0x4C, 0x7F)]);
    assert_eq!(holes.bus_write(0xFF4C, 0x55), Ok(false));
    assert_eq!(holes.bus_read(0xFF4C), Ok(0x00));
}

#[test]
fn the_interrupt_registers_are_reached_through_the_bus() {
    let mut bus = Bus::new();
    CPU::new().attach_to_bus(&mut bus).unwrap();
    assert_eq!(bus.read_byte(0xFFFF), Ok(0xE0));
    assert_eq!(bus.read_byte(0xFF0F), Ok(0x00));
    bus.write_byte(0xFFFF, 0x1F).unwrap();
    bus.write_byte(0xFF0F, 0x04).unwrap();
    assert_eq!(bus.interrupts(), InterruptRegisters { master_enable: false, enable: 0x1F, flags: 0x04 });
    assert_eq!(interrupt(&mut bus, InterruptType::VBlank), Ok(()));
    assert_eq!(interrupt(&mut bus, InterruptType::Joypad), Ok(()));
    assert_eq!(bus.read_byte(0xFF0F), Ok(0x15));
    let mut registers = InterruptRegisters { master_enable: true, enable: 0, flags: 0 };
    assert_eq!(registers.bus_read(0xFF00), Err(Fault::NotOwned(0xFF00)));
    assert_eq!(registers.bus_write(0xFF00, 1), Err(Fault::NotOwned(0xFF00)));
    assert_eq!(registers.bus_attach(), vec![Attach::Register(0x0F), Attach::Register(0xFF)]);
}

#[test]
fn an_interrupt_needs_the_flags_on_the_bus() {
    let mut bus = Bus::new();
    assert_eq!(interrupt(&mut bus, InterruptType::Timer), Err(Fault::Unmapped(0xFF0F)));
    assert_eq!(bus.interrupts().flags, 0);
}

#[test]
fn interrupt_sources_have_bits_and_vectors() {
    let sources = [
        (InterruptType::VBlank, 0x01, 0x40),
        (InterruptType::LCDStat, 0x02, 0x48),
        (InterruptType::Timer, 0x04, 0x50),
        (InterruptType::Serial, 0x08, 0x58),
        (InterruptType::Joypad, 0x10, 0x60),
    ];
    for (source, bit, vector) in sources {
        assert_eq!(source.bit(), bit);
        assert_eq!(source.address(), vector);
    }
    let mut registers = InterruptRegisters { master_enable: true, enable: 0x1E, flags: 0xFF };
    assert_eq!(registers.pending_bits(), 0x1E);
    assert_eq!(registers.highest(), Some(InterruptType::LCDStat));
    registers.acknowledge(InterruptType::LCDStat);
    assert_eq!(registers, InterruptRegisters { master_enable: false, enable: 0x1E, flags: 0xFD });
    assert_eq!(registers.highest(), Some(InterruptType::Timer));
    registers.flags = 0xE1;
    assert_eq!(registers.highest(), None);
}

#[test]
fn ticking_an_unknown_handle_is_a_fault() {
    let mut bus = with_ram();
    assert_eq!(bus.tick(1, 4), Err(Fault::NoSuchDevice(1)));
    assert_eq!(bus.tick(0, 4), Ok(()));
    assert!(bus.device(1).is_none());
    assert!(matches!(bus.device(0), Some(Device::Ram(_))));
}

#[test]
fn a_vacant_place_is_busy() {
    let mut vacant = Device::Vacant;
    assert_eq!(vacant.bus_read(0x1234), Err(Fault::Busy(0x1234)));
    assert_eq!(vacant.bus_write(0x1234, 1), Err(Fault::Busy(0x1234)));
    assert_eq!(vacant.bus_attach(), Vec::new());
}

#[test]
fn a_fault_in_a_tick_leaves_the_component_in_its_place() {
    let mut bus = Bus::new();
    let ppu = bus.attach(Device::Ppu(PPU::new())).unwrap();
    bus.write_byte(0xFF41, 0x20).unwrap();
    bus.write_byte(0xFF40, 0x80).unwrap();
    assert_eq!(bus.tick(ppu, 1), Err(Fault::Unmapped(0xFF0F)));
    assert_eq!(bus.read_byte(0xFF41), Ok(0x22));
    assert_eq!(bus.read_byte(0xFF44), Ok(0x00));
    match bus.device(ppu) {
        Some(Device::Ppu(ppu)) => {
            assert_eq!(ppu.clock(), 0);
            assert!(!ppu.is_on());
        }
        _ => panic!("no video controller"),
    }
}
