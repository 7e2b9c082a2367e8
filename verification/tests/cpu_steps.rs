use emerald::boot_rom::BootRom;
use emerald::bus::{Bus, Device, Fault};
use emerald::cpu::flag::Flag;
use emerald::cpu::interrupt::InterruptRegisters;
use emerald::cpu::opcodes::{decode, decode_cb, Operation};
use emerald::cpu::{ByteDescriptor, WordDescriptor, CPU};
use emerald::ram::{DummyRAM, RAM};

fn machine(program: Vec<u8>) -> (CPU, Bus) {
    let mut bus = Bus::new();
    let mut cpu = CPU::new();
    cpu.attach_to_bus(&mut bus).unwrap();
    bus.attach(Device::BootRom(BootRom::new(program))).unwrap();
    bus.attach(Device::Ram(RAM::new())).unwrap();
    bus.attach(Device::Dummy(DummyRAM::new(0x80, 0xFE, true))).unwrap();
    cpu.set_pc(0);
    (cpu, bus)
}

fn run(cpu: &mut CPU, bus: &mut Bus, steps: usize) -> Vec<u8> {
    let mut cycles = Vec::new();
    for _ in 0..steps {
        cycles.push(cpu.step(bus).unwrap());
    }
    cycles
}

#[test]
fn new_cpu_is_as_the_boot_rom_leaves_it() {
    let cpu = CPU::new();
    assert_eq!(cpu.af(), 0x01B0);
    assert_eq!(cpu.bc(), 0x0013);
    assert_eq!(cpu.de(), 0x00D8);
    assert_eq!(cpu.hl(), 0x014D);
    assert_eq!(cpu.sp(), 0xFFFE);
    assert_eq!(cpu.pc(), 0x0100);
    assert!(!cpu.is_halted());
}

#[test]
fn load_then_halt() {
    let (mut cpu, mut bus) = machine(vec![0x3E, 0x06, 0x76]);
    assert_eq!(cpu.step(&mut bus), Ok(2));
    assert_eq!(cpu.step(&mut bus), Ok(1));
    assert_eq!(cpu.a(), 6);
    assert!(cpu.is_halted());
}

#[test]
fn halt_does_not_stop_while_an_enabled_interrupt_is_pending() {
    let (mut cpu, mut bus) = machine(vec![0x76]);
    bus.set_interrupts(InterruptRegisters { master_enable: false, enable: 0x01, flags: 0x01 });
    assert_eq!(cpu.step(&mut bus), Ok(1));
    assert!(!cpu.is_halted());
    assert_eq!(cpu.pc(), 1);
}

#[test]
fn load_immediate_word_into_each_pair() {
    let (mut cpu, mut bus) = machine(vec![0x01, 0x34, 0x12, 0x11, 0x78, 0x56, 0x21, 0xBC, 0x9A, 0x31, 0xF0, 0xDE]);
    assert_eq!(run(&mut cpu, &mut bus, 4), vec![3, 3, 3, 3]);
    assert_eq!(cpu.bc(), 0x1234);
    assert_eq!(cpu.de(), 0x5678);
    assert_eq!(cpu.hl(), 0x9ABC);
    assert_eq!(cpu.sp(), 0xDEF0);
    assert_eq!(cpu.pc(), 12);
}

#[test]
fn load_immediate_word_takes_every_value() {
    for value in [0x0000u16, 0x0001, 0x00FF, 0x0100, 0x7FFF, 0x8000, 0xFFFE, 0xFFFF] {
        let low = (value & 0xFF) as u8;
        let high = (value >> 8) as u8;
        let (mut cpu, mut bus) = machine(vec![0x01, low, high, 0x11, low, high, 0x21, low, high, 0x31, low, high]);
        for expected_pc in [3u16, 6, 9, 12] {
            assert_eq!(cpu.step(&mut bus), Ok(3));
            assert_eq!(cpu.pc(), expected_pc);
        }
        assert_eq!((cpu.bc(), cpu.de(), cpu.hl(), cpu.sp()), (value, value, value, value));
    }
}

#[test]
fn store_accumulator_through_pair() {
    let (mut cpu, mut bus) = machine(vec![0x3E, 0x5A, 0x01, 0x00, 0xC0, 0x02, 0x11, 0x10, 0xD0, 0x12]);
    assert_eq!(run(&mut cpu, &mut bus, 5), vec![2, 3, 2, 3, 2]);
    assert_eq!(bus.read_byte(0xC000), Ok(0x5A));
    assert_eq!(bus.read_byte(0xD010), Ok(0x5A));
    assert_eq!(bus.read_byte(0xE000), Ok(0x5A));
}

#[test]
fn store_through_pair_writes_every_byte() {
    for value in 0..=255u8 {
        let (mut cpu, mut bus) = machine(vec![0x3E, value, 0x01, 0x34, 0xC2, 0x02, 0x11, 0x35, 0xC2, 0x12]);
        run(&mut cpu, &mut bus, 5);
        assert_eq!(bus.read_byte(0xC234), Ok(value));
        assert_eq!(bus.read_byte(0xC235), Ok(value));
    }
}

#[test]
fn interrupts_are_taken_in_priority_order() {
    let (mut cpu, mut bus) = machine(vec![0x00; 0x100]);
    cpu.write_word(&mut bus, WordDescriptor::SP, 0xD000).unwrap();
    bus.set_interrupts(InterruptRegisters { master_enable: true, enable: 0xFF, flags: 0b0001_0011 });
    assert_eq!(cpu.step(&mut bus), Ok(5));
    assert_eq!(cpu.pc(), 0x40);
    assert_eq!(cpu.sp(), 0xCFFE);
    assert_eq!(bus.read_word(0xCFFE), Ok(0x0000));
    let after = bus.interrupts();
    assert_eq!(after.flags, 0b0001_0010);
    assert!(!after.master_enable);
    assert_eq!(after.enable, 0xFF);
    assert_eq!(cpu.step(&mut bus), Ok(1));
    assert_eq!(cpu.pc(), 0x41);
    let mut registers = bus.interrupts();
    registers.master_enable = true;
    bus.set_interrupts(registers);
    assert_eq!(cpu.step(&mut bus), Ok(5));
    assert_eq!(cpu.pc(), 0x48);
    assert_eq!(bus.interrupts().flags, 0b0001_0000);
    assert_eq!(bus.read_word(0xCFFC), Ok(0x0041));
}

#[test]
fn masked_interrupts_are_not_taken() {
    let (mut cpu, mut bus) = machine(vec![0x00, 0x00]);
    bus.set_interrupts(InterruptRegisters { master_enable: true, enable: 0x04, flags: 0x03 });
    assert_eq!(cpu.step(&mut bus), Ok(1));
    assert_eq!(cpu.pc(), 1);
    bus.set_interrupts(InterruptRegisters { master_enable: false, enable: 0xFF, flags: 0x1F });
    assert_eq!(cpu.step(&mut bus), Ok(1));
    assert_eq!(cpu.pc(), 2);
    assert_eq!(bus.interrupts().flags, 0x1F);
}

#[test]
fn illegal_opcode_is_a_fault() {
    let (mut cpu, mut bus) = machine(vec![0x00, 0xD3]);
    assert_eq!(cpu.step(&mut bus), Ok(1));
    assert_eq!(cpu.step(&mut bus), Err(Fault::IllegalOpcode(0xD3, 1)));
    assert_eq!(cpu.pc(), 2);
    assert_eq!((cpu.af(), cpu.bc(), cpu.de(), cpu.hl(), cpu.sp()), (0x01B0, 0x0013, 0x00D8, 0x014D, 0xFFFE));
    assert!(!cpu.is_halted());
    assert_eq!(bus.read_byte(0xC000), Ok(0x00));
    assert_eq!(bus.interrupts(), InterruptRegisters { master_enable: false, enable: 0xE0, flags: 0x00 });
}

#[test]
fn the_tables_know_which_opcodes_are_instructions() {
    for opcode in [0x10u8, 0xD3, 0xDB, 0xDD, 0xE3, 0xE4, 0xEB, 0xEC, 0xED, 0xF4, 0xFC, 0xFD] {
        assert!(decode(opcode).is_none());
    }
    let defined = (0..=255u8).filter(|opcode| decode(*opcode).is_some()).count();
    assert_eq!(defined, 244);
    let entry = decode(0x20).unwrap();
    assert_eq!((entry.cycles, entry.taken), (2, 3));
    assert!(matches!(decode(0xCB).unwrap().op, Operation::Prefix));
    assert!(matches!(decode_cb(0x7E).op, Operation::TestBit(ByteDescriptor::HL, 7)));
    assert_eq!(decode_cb(0x7E).cycles, 3);
    assert_eq!(decode_cb(0x06).cycles, 4);
}

#[test]
fn fetch_from_an_unmapped_address_is_a_fault() {
    let (mut cpu, mut bus) = machine(vec![0x00]);
    cpu.set_pc(0x9000);
    assert_eq!(cpu.step(&mut bus), Err(Fault::Unmapped(0x9000)));
}

#[test]
fn the_byte_after_the_opcode_is_no_destination() {
    let (mut cpu, mut bus) = machine(vec![0x00]);
    assert_eq!(cpu.ld(&mut bus, ByteDescriptor::Immediate, ByteDescriptor::A), Err(Fault::InvalidOperand));
    assert_eq!(
        cpu.ld_16(&mut bus, WordDescriptor::Immediate, WordDescriptor::HL),
        Err(Fault::InvalidOperand)
    );
}

#[test]
fn add_sets_the_half_carry() {
    let (mut cpu, mut bus) = machine(vec![0x3E, 0x0F, 0xC6, 0x01]);
    assert_eq!(run(&mut cpu, &mut bus, 2), vec![2, 2]);
    assert_eq!(cpu.af(), 0x1020);
}

#[test]
fn add_with_carry_takes_the_carry_flag() {
    let (mut cpu, mut bus) = machine(vec![0x3E, 0xFF, 0xC6, 0x01, 0xCE, 0x00]);
    run(&mut cpu, &mut bus, 3);
    assert_eq!(cpu.af(), 0x0100);
}

#[test]
fn sub_sets_subtract_and_half_carry() {
    let (mut cpu, mut bus) = machine(vec![0x3E, 0x10, 0xD6, 0x01]);
    run(&mut cpu, &mut bus, 2);
    assert_eq!(cpu.af(), 0x0F60);
}

#[test]
fn cp_leaves_the_accumulator() {
    let (mut cpu, mut bus) = machine(vec![0x3E, 0x05, 0xFE, 0x05, 0xFE, 0x06]);
    run(&mut cpu, &mut bus, 2);
    assert_eq!(cpu.af(), 0x05C0);
    run(&mut cpu, &mut bus, 1);
    assert_eq!(cpu.af(), 0x0570);
}

#[test]
fn logic_operations_set_their_flags() {
    let (mut cpu, mut bus) = machine(vec![0x3E, 0xF0, 0xE6, 0x0F, 0xF6, 0x81, 0xEE, 0x81, 0xAF]);
    run(&mut cpu, &mut bus, 2);
    assert_eq!(cpu.af(), 0x00A0);
    run(&mut cpu, &mut bus, 1);
    assert_eq!(cpu.af(), 0x8100);
    run(&mut cpu, &mut bus, 1);
    assert_eq!(cpu.af(), 0x0080);
    run(&mut cpu, &mut bus, 1);
    assert_eq!(cpu.af(), 0x0080);
}

#[test]
fn inc_leaves_zero_and_sets_carry_on_wrap() {
    let (mut cpu, mut bus) = machine(vec![0x06, 0x0E, 0x04, 0x04, 0x06, 0xFF, 0x04]);
    assert_eq!(run(&mut cpu, &mut bus, 2), vec![2, 1]);
    assert_eq!(cpu.bc(), 0x0F13);
    assert_eq!(cpu.af(), 0x0180);
    run(&mut cpu, &mut bus, 1);
    assert_eq!(cpu.bc(), 0x1013);
    assert_eq!(cpu.af(), 0x01A0);
    run(&mut cpu, &mut bus, 2);
    assert_eq!(cpu.bc(), 0x0013);
    assert_eq!(cpu.af(), 0x01B0);
}

#[test]
fn dec_sets_zero_and_leaves_carry() {
    let (mut cpu, mut bus) = machine(vec![0x06, 0x01, 0x05, 0x05]);
    run(&mut cpu, &mut bus, 2);
    assert_eq!(cpu.bc(), 0x0013);
    assert_eq!(cpu.af(), 0x01D0);
    run(&mut cpu, &mut bus, 1);
    assert_eq!(cpu.bc(), 0xFF13);
    assert_eq!(cpu.af(), 0x0170);
}

#[test]
fn word_increments_wrap_and_touch_no_flag() {
    let (mut cpu, mut bus) = machine(vec![0x01, 0xFF, 0xFF, 0x03, 0x0B, 0x0B]);
    assert_eq!(run(&mut cpu, &mut bus, 2), vec![3, 2]);
    assert_eq!(cpu.bc(), 0x0000);
    run(&mut cpu, &mut bus, 2);
    assert_eq!(cpu.bc(), 0xFFFE);
    assert_eq!(cpu.af(), 0x01B0);
}

#[test]
fn add_to_hl_leaves_zero() {
    let (mut cpu, mut bus) = machine(vec![0x21, 0xFF, 0x0F, 0x01, 0x01, 0x00, 0x09]);
    assert_eq!(run(&mut cpu, &mut bus, 3), vec![3, 3, 2]);
    assert_eq!(cpu.hl(), 0x1000);
    assert_eq!(cpu.af(), 0x01A0);
}

#[test]
fn decimal_adjust_after_adding_digits() {
    let (mut cpu, mut bus) = machine(vec![0x3E, 0x09, 0xC6, 0x01, 0x27]);
    assert_eq!(run(&mut cpu, &mut bus, 3), vec![2, 2, 1]);
    assert_eq!(cpu.af(), 0x1000);
}

#[test]
fn jumps_cost_more_when_taken() {
    let (mut cpu, mut bus) = machine(vec![0xC2, 0x34, 0x12, 0xCA, 0x10, 0x00]);
    assert_eq!(cpu.step(&mut bus), Ok(3));
    assert_eq!(cpu.pc(), 3);
    assert_eq!(cpu.step(&mut bus), Ok(4));
    assert_eq!(cpu.pc(), 0x0010);
}

#[test]
fn relative_jumps_go_both_ways() {
    let mut program = vec![0x00; 0x20];
    program[0] = 0x18;
    program[1] = 0x0E;
    program[0x10] = 0x18;
    program[0x11] = 0xFE;
    program[0x0F] = 0x20;
    program[0x10 - 2] = 0x00;
    let (mut cpu, mut bus) = machine(program);
    assert_eq!(cpu.step(&mut bus), Ok(3));
    assert_eq!(cpu.pc(), 0x10);
    assert_eq!(cpu.step(&mut bus), Ok(3));
    assert_eq!(cpu.pc(), 0x0F);
    assert_eq!(cpu.step(&mut bus), Ok(2));
    assert_eq!(cpu.pc(), 0x11);
}

#[test]
fn call_pushes_the_address_after_the_instruction() {
    let mut program = vec![0x00; 0x20];
    program[..6].copy_from_slice(&[0x31, 0x00, 0xD0, 0xCD, 0x10, 0x00]);
    program[0x10] = 0xC9;
    let (mut cpu, mut bus) = machine(program);
    assert_eq!(run(&mut cpu, &mut bus, 2), vec![3, 6]);
    assert_eq!(cpu.pc(), 0x0010);
    assert_eq!(cpu.sp(), 0xCFFE);
    assert_eq!(bus.read_word(0xCFFE), Ok(0x0006));
    assert_eq!(cpu.step(&mut bus), Ok(4));
    assert_eq!(cpu.pc(), 0x0006);
    assert_eq!(cpu.sp(), 0xD000);
}

#[test]
fn call_that_is_not_taken_skips_its_operand() {
    let (mut cpu, mut bus) = machine(vec![0x31, 0x00, 0xD0, 0xC4, 0x10, 0x00, 0xC0]);
    assert_eq!(run(&mut cpu, &mut bus, 3), vec![3, 3, 2]);
    assert_eq!(cpu.pc(), 7);
    assert_eq!(cpu.sp(), 0xD000);
}

#[test]
fn pop_af_drops_the_low_nibble() {
    let (mut cpu, mut bus) = machine(vec![0x31, 0x00, 0xD0, 0x01, 0xFF, 0x12, 0xC5, 0xF1, 0xF5, 0xD1]);
    assert_eq!(run(&mut cpu, &mut bus, 4), vec![3, 3, 4, 3]);
    assert_eq!(cpu.af(), 0x12F0);
    assert_eq!(cpu.sp(), 0xD000);
    assert_eq!(run(&mut cpu, &mut bus, 2), vec![4, 3]);
    assert_eq!(cpu.de(), 0x12F0);
}

#[test]
fn restarts_push_and_jump() {
    let (mut cpu, mut bus) = machine(vec![0x31, 0x00, 0xD0, 0xFF]);
    assert_eq!(run(&mut cpu, &mut bus, 2), vec![3, 4]);
    assert_eq!(cpu.pc(), 0x0038);
    assert_eq!(bus.read_word(0xCFFE), Ok(0x0004));
    let (mut cpu, mut bus) = machine(vec![0x31, 0x00, 0xD0, 0xEF]);
    run(&mut cpu, &mut bus, 2);
    assert_eq!(cpu.pc(), 0x0028);
}

#[test]
fn return_from_interrupt_switches_interrupts_on() {
    let (mut cpu, mut bus) = machine(vec![0x00]);
    cpu.set_sp(0xC000);
    bus.write_word(0xC000, 0x1234).unwrap();
    assert_eq!(cpu.reti(&mut bus), Ok(()));
    assert_eq!(cpu.pc(), 0x1234);
    assert_eq!(cpu.sp(), 0xC002);
    assert!(bus.interrupts().master_enable);
}

#[test]
fn interrupt_switches() {
    let (mut cpu, mut bus) = machine(vec![0xFB, 0xF3]);
    assert_eq!(cpu.step(&mut bus), Ok(1));
    assert!(bus.interrupts().master_enable);
    assert_eq!(cpu.step(&mut bus), Ok(1));
    assert!(!bus.interrupts().master_enable);
}

#[test]
fn high_page_loads_and_stores() {
    let (mut cpu, mut bus) = machine(vec![0x3E, 0x42, 0xE0, 0x80, 0x3E, 0x00, 0xF0, 0x80, 0x0E, 0x81, 0xE2, 0xAF, 0xF2]);
    assert_eq!(run(&mut cpu, &mut bus, 4), vec![2, 3, 2, 3]);
    assert_eq!(cpu.a(), 0x42);
    assert_eq!(bus.read_byte(0xFF80), Ok(0x42));
    assert_eq!(run(&mut cpu, &mut bus, 4), vec![2, 2, 1, 2]);
    assert_eq!(bus.read_byte(0xFF81), Ok(0x42));
    assert_eq!(cpu.a(), 0x42);
}

#[test]
fn loads_through_hl_move_hl() {
    let (mut cpu, mut bus) = machine(vec![0x21, 0x00, 0xC0, 0x3E, 0x77, 0x22, 0x32, 0x3A]);
    assert_eq!(run(&mut cpu, &mut bus, 3), vec![3, 2, 2]);
    assert_eq!(bus.read_byte(0xC000), Ok(0x77));
    assert_eq!(cpu.hl(), 0xC001);
    run(&mut cpu, &mut bus, 1);
    assert_eq!(bus.read_byte(0xC001), Ok(0x77));
    assert_eq!(cpu.hl(), 0xC000);
    run(&mut cpu, &mut bus, 1);
    assert_eq!(cpu.hl(), 0xBFFF);
    assert_eq!(cpu.a(), 0x77);
}

#[test]
fn store_stack_pointer_at_an_address() {
    let (mut cpu, mut bus) = machine(vec![0x31, 0xCD, 0xAB, 0x08, 0x00, 0xC1]);
    assert_eq!(run(&mut cpu, &mut bus, 2), vec![3, 5]);
    assert_eq!(bus.read_byte(0xC100), Ok(0xCD));
    assert_eq!(bus.read_byte(0xC101), Ok(0xAB));
}

#[test]
fn stack_pointer_arithmetic() {
    let (mut cpu, mut bus) = machine(vec![0x31, 0xF8, 0xFF, 0xE8, 0x08, 0xF8, 0xFE]);
    assert_eq!(run(&mut cpu, &mut bus, 2), vec![3, 4]);
    assert_eq!(cpu.sp(), 0x0000);
    assert_eq!(cpu.af(), 0x0130);
    assert_eq!(cpu.step(&mut bus), Ok(3));
    assert_eq!(cpu.hl(), 0xFFFE);
    assert_eq!(cpu.sp(), 0x0000);
    assert_eq!(cpu.af(), 0x0110);
}

#[test]
fn accumulator_rotations() {
    let (mut cpu, mut bus) = machine(vec![0x3E, 0x80, 0x07, 0x17, 0x0F, 0x1F]);
    assert_eq!(run(&mut cpu, &mut bus, 2), vec![2, 1]);
    assert_eq!(cpu.af(), 0x0110);
    run(&mut cpu, &mut bus, 1);
    assert_eq!(cpu.af(), 0x0200);
    run(&mut cpu, &mut bus, 1);
    assert_eq!(cpu.af(), 0x0100);
    run(&mut cpu, &mut bus, 1);
    assert_eq!(cpu.af(), 0x8010);
}

#[test]
fn flag_instructions() {
    let (mut cpu, mut bus) = machine(vec![0x3F, 0x37, 0x2F]);
    assert_eq!(cpu.step(&mut bus), Ok(1));
    assert_eq!(cpu.af(), 0x0180);
    assert_eq!(cpu.step(&mut bus), Ok(1));
    assert_eq!(cpu.af(), 0x0190);
    assert_eq!(cpu.step(&mut bus), Ok(1));
    assert_eq!(cpu.af(), 0xFEF0);
}

#[test]
fn prefixed_rotation_costs_a_cycle_more() {
    let (mut cpu, mut bus) = machine(vec![0x06, 0x80, 0xCB, 0x00, 0xCB, 0x10]);
    assert_eq!(run(&mut cpu, &mut bus, 2), vec![2, 3]);
    assert_eq!(cpu.bc(), 0x0113);
    assert_eq!(cpu.af(), 0x0110);
    assert_eq!(cpu.step(&mut bus), Ok(3));
    assert_eq!(cpu.bc(), 0x0213);
    assert_eq!(cpu.af(), 0x0100);
}

#[test]
fn prefixed_rotation_through_memory() {
    let (mut cpu, mut bus) = machine(vec![0x21, 0x00, 0xC0, 0x36, 0x01, 0xCB, 0x0E]);
    assert_eq!(run(&mut cpu, &mut bus, 3), vec![3, 2, 5]);
    assert_eq!(bus.read_byte(0xC000), Ok(0x80));
    assert_eq!(cpu.af(), 0x0110);
}

#[test]
fn prefixed_shifts() {
    let (mut cpu, mut bus) = machine(vec![0x06, 0x81, 0xCB, 0x20, 0xCB, 0x28, 0xCB, 0x38, 0xCB, 0x20, 0xCB, 0x20]);
    assert_eq!(run(&mut cpu, &mut bus, 2), vec![2, 3]);
    assert_eq!(cpu.bc(), 0x0213);
    assert_eq!(cpu.af(), 0x0110);
    run(&mut cpu, &mut bus, 1);
    assert_eq!(cpu.bc(), 0x0113);
    assert_eq!(cpu.af(), 0x0100);
    run(&mut cpu, &mut bus, 1);
    assert_eq!(cpu.bc(), 0x0013);
    assert_eq!(cpu.af(), 0x0190);
    run(&mut cpu, &mut bus, 2);
    assert_eq!(cpu.bc(), 0x0013);
    assert_eq!(cpu.af(), 0x0180);
}

#[test]
fn an_arithmetic_shift_keeps_the_sign() {
    let (mut cpu, mut bus) = machine(vec![0x06, 0x82, 0xCB, 0x38, 0xCB, 0x38]);
    assert_eq!(run(&mut cpu, &mut bus, 2), vec![2, 3]);
    assert_eq!(cpu.bc(), 0xC113);
    assert_eq!(cpu.af(), 0x0100);
    run(&mut cpu, &mut bus, 1);
    assert_eq!(cpu.bc(), 0xE013);
    assert_eq!(cpu.af(), 0x0110);
}

#[test]
fn the_prefix_costs_a_cycle_of_its_own() {
    let (mut cpu, mut bus) = machine(vec![0xC8, 0xCB, 0xC8, 0xCB, 0x46]);
    assert_eq!(cpu.cb(&mut bus), Ok(2));
    assert_eq!(cpu.bc(), 0x0213);
    assert_eq!(cpu.af(), 0x01B0);
    assert_eq!(cpu.pc(), 1);
    cpu.write_word(&mut bus, WordDescriptor::BC, 0x0013).unwrap();
    assert_eq!(cpu.step(&mut bus), Ok(3));
    assert_eq!(cpu.bc(), 0x0213);
    assert_eq!(cpu.pc(), 3);
    cpu.write_word(&mut bus, WordDescriptor::HL, 0xC000).unwrap();
    assert_eq!(cpu.step(&mut bus), Ok(4));
    assert_eq!(cpu.pc(), 5);
}

#[test]
fn a_fault_leaves_what_was_done_before_it() {
    let (mut cpu, mut bus) = machine(vec![0xCD, 0x34, 0x12, 0x21, 0x00, 0x90, 0x22, 0xFA, 0x00, 0x90, 0x34]);
    cpu.set_sp(0x0001);
    assert_eq!(cpu.step(&mut bus), Err(Fault::ReadOnly(0x0000)));
    assert_eq!(cpu.pc(), 3);
    assert_eq!(cpu.sp(), 0xFFFF);
    assert_eq!(bus.read_byte(0xFFFF), Ok(0x03));
    assert_eq!(cpu.step(&mut bus), Ok(3));
    assert_eq!(cpu.step(&mut bus), Err(Fault::Unmapped(0x9000)));
    assert_eq!(cpu.hl(), 0x9000);
    assert_eq!(cpu.pc(), 7);
    assert_eq!(cpu.step(&mut bus), Err(Fault::Unmapped(0x9000)));
    assert_eq!(cpu.pc(), 10);
    assert_eq!(cpu.a(), 0x01);
    assert_eq!(cpu.step(&mut bus), Err(Fault::Unmapped(0x9000)));
    assert_eq!(cpu.pc(), 11);
    assert_eq!(cpu.af(), 0x01B0);
}

#[test]
fn prefixed_bit_operations() {
    let (mut cpu, mut bus) = machine(vec![0x06, 0x80, 0xCB, 0x78, 0xCB, 0x70, 0xCB, 0xCF, 0xCB, 0x87, 0xCB, 0xF0, 0xCB, 0xB8]);
    assert_eq!(run(&mut cpu, &mut bus, 2), vec![2, 3]);
    assert_eq!(cpu.af(), 0x0130);
    run(&mut cpu, &mut bus, 1);
    assert_eq!(cpu.af(), 0x01B0);
    run(&mut cpu, &mut bus, 1);
    assert_eq!(cpu.a(), 0x03);
    run(&mut cpu, &mut bus, 1);
    assert_eq!(cpu.a(), 0x02);
    run(&mut cpu, &mut bus, 1);
    assert_eq!(cpu.bc(), 0xC013);
    run(&mut cpu, &mut bus, 1);
    assert_eq!(cpu.bc(), 0x4013);
}

#[test]
fn prefixed_exchange_with_the_accumulator() {
    let (mut cpu, mut bus) = machine(vec![0x06, 0x00, 0xCB, 0x30]);
    assert_eq!(run(&mut cpu, &mut bus, 2), vec![2, 3]);
    assert_eq!(cpu.af(), 0x0080);
    assert_eq!(cpu.bc(), 0x0113);
}

#[test]
fn jump_to_hl() {
    let (mut cpu, mut bus) = machine(vec![0x21, 0x34, 0x12, 0xE9]);
    assert_eq!(run(&mut cpu, &mut bus, 2), vec![3, 1]);
    assert_eq!(cpu.pc(), 0x1234);
}

#[test]
fn add_then_sub_of_a_register_restores_the_accumulator() {
    for (a, b) in [(0x00u8, 0x00u8), (0x01, 0xFF), (0x80, 0x80), (0xFF, 0x01), (0x3C, 0xC4)] {
        let (mut cpu, mut bus) = machine(vec![0x3E, a, 0x06, b, 0x80, 0x90]);
        assert_eq!(run(&mut cpu, &mut bus, 4), vec![2, 2, 1, 1]);
        assert_eq!(cpu.a(), a);
    }
}

#[test]
fn flags_can_be_set_and_tested() {
    let mut cpu = CPU::new();
    cpu.clear_all_flags();
    assert_eq!(cpu.af(), 0x0100);
    cpu.set_flag(Flag::Zero);
    cpu.set_flag_if(Flag::Carry, true);
    cpu.set_flag_if(Flag::Subtract, false);
    assert!(cpu.test_flag(Flag::Zero));
    assert!(cpu.test_flag(Flag::Carry));
    assert!(!cpu.test_flag(Flag::HalfCarry));
    assert_eq!(cpu.af(), 0x0190);
    cpu.clear_flag(Flag::Zero);
    assert_eq!(cpu.af(), 0x0110);
    assert!(cpu.test_condition(Some((Flag::Carry, true))));
    assert!(!cpu.test_condition(Some((Flag::Zero, true))));
    assert!(cpu.test_condition(None));
}

#[test]
fn the_stack_is_listed_from_the_top() {
    let (mut cpu, mut bus) = machine(vec![0x00]);
    bus.write_word(0xCFFC, 0x1111).unwrap();
    bus.write_word(0xCFFE, 0x2222).unwrap();
    cpu.set_sp(0xCFFC);
    assert_eq!(cpu.stack(&bus, 0xD000), Ok(vec![(0xCFFC, 0x1111), (0xCFFE, 0x2222)]));
    assert_eq!(cpu.stack(&bus, 0xCFFC), Ok(Vec::new()));
    assert_eq!(cpu.stack(&bus, 0xC000), Ok(Vec::new()));
    cpu.set_sp(0xCFFD);
    assert_eq!(cpu.stack(&bus, 0xD000), Ok(vec![(0xCFFD, 0x2211), (0xCFFF, 0x0022)]));
    cpu.set_sp(0xFDFE);
    assert_eq!(cpu.stack(&bus, 0xFE02), Err(Fault::Unmapped(0xFE00)));
    assert_eq!(cpu.stack(&bus, 0xFDFF), Ok(vec![(0xFDFE, 0x0000)]));
    cpu.set_sp(0xFDFF);
    assert_eq!(cpu.stack(&bus, 0xFE00), Err(Fault::Unmapped(0xFE00)));
}

#[test]
fn loads_and_stores_at_an_address() {
    let (mut cpu, mut bus) = machine(vec![0x3E, 0x99, 0xEA, 0x34, 0xC2, 0xAF, 0xFA, 0x34, 0xC2]);
    assert_eq!(run(&mut cpu, &mut bus, 4), vec![2, 4, 1, 4]);
    assert_eq!(bus.read_byte(0xC234), Ok(0x99));
    assert_eq!(cpu.a(), 0x99);
    assert_eq!(cpu.pc(), 9);
}

#[test]
fn increments_and_decrements_in_memory() {
    let (mut cpu, mut bus) = machine(vec![0x21, 0x00, 0xC0, 0x36, 0xFF, 0x34, 0x35]);
    assert_eq!(run(&mut cpu, &mut bus, 3), vec![3, 2, 1]);
    assert_eq!(bus.read_byte(0xC000), Ok(0x00));
    assert_eq!(cpu.af(), 0x01B0);
    assert_eq!(cpu.step(&mut bus), Ok(1));
    assert_eq!(bus.read_byte(0xC000), Ok(0xFF));
    assert_eq!(cpu.af(), 0x0170);
}

#[test]
fn subtract_with_carry_takes_the_borrow() {
    let (mut cpu, mut bus) = machine(vec![0x3E, 0x00, 0xD6, 0x01, 0xDE, 0x00]);
    run(&mut cpu, &mut bus, 2);
    assert_eq!(cpu.af(), 0xFF70);
    run(&mut cpu, &mut bus, 1);
    assert_eq!(cpu.af(), 0xFE40);
}

#[test]
fn a_conditional_return_costs_more_when_taken() {
    let (mut cpu, mut bus) = machine(vec![0x31, 0x00, 0xD0, 0xCD, 0x08, 0x00, 0x00, 0x00, 0xC8]);
    assert_eq!(run(&mut cpu, &mut bus, 3), vec![3, 6, 4]);
    assert_eq!(cpu.pc(), 6);
    assert_eq!(cpu.sp(), 0xD000);
}

#[test]
fn the_stack_pointer_can_be_loaded_from_hl() {
    let (mut cpu, mut bus) = machine(vec![0x21, 0x34, 0x12, 0xF9]);
    assert_eq!(run(&mut cpu, &mut bus, 2), vec![3, 2]);
    assert_eq!(cpu.sp(), 0x1234);
}

#[test]
fn operations_compare_through_hl() {
    let (mut cpu, mut bus) = machine(vec![0x21, 0x00, 0xC0, 0x36, 0x01, 0xBE, 0x86, 0x96, 0x96]);
    assert_eq!(run(&mut cpu, &mut bus, 3), vec![3, 2, 2]);
    assert_eq!(cpu.af(), 0x01C0);
    assert_eq!(run(&mut cpu, &mut bus, 3), vec![2, 2, 2]);
    assert_eq!(cpu.af(), 0x00C0);
}
