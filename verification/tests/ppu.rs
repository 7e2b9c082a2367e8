use emerald::bus::{Attach, Bus, BusListener, Device, Fault};
use emerald::cpu::CPU;
use emerald::graphics::graphics_driver::{encode_rgb, GraphicsDriver};
use emerald::ppu::background_fifo::BackgroundFifo;
use emerald::ppu::fifo::{FifoState, PixelFifo};
use emerald::ppu::sprite_fifo::{OamEntry, SpriteFifo};
use emerald::ppu::{pixel_at, shade, Mode, Registers, PPU};
use emerald::ram::{filled, RAM};

const WHITE: u32 = 0xFFFFFF;
const LIGHT: u32 = 0xC0C0C0;
const DARK: u32 = 0x404040;
const BLACK: u32 = 0x000000;

fn with_ppu() -> (Bus, usize) {
    let mut bus = Bus::new();
    CPU::new().attach_to_bus(&mut bus).unwrap();
    let ppu = bus.attach(Device::Ppu(PPU::new())).unwrap();
    bus.attach(Device::Ram(RAM::new())).unwrap();
    (bus, ppu)
}

fn mode(bus: &Bus, handle: usize) -> Mode {
    match bus.device(handle) {
        Some(Device::Ppu(ppu)) => ppu.mode(),
        _ => panic!("no video controller"),
    }
}

fn clock(bus: &Bus, handle: usize) -> u16 {
    match bus.device(handle) {
        Some(Device::Ppu(ppu)) => ppu.clock(),
        _ => panic!("no video controller"),
    }
}

fn ticks(bus: &mut Bus, handle: usize, count: usize) {
    for _ in 0..count {
        bus.tick(handle, 1).unwrap();
    }
}

fn blank_registers() -> Registers {
    Registers {
        LCDC: 0,
        STAT: 0,
        SCY: 0,
        SCX: 0,
        LX: 0,
        LY: 0,
        LYC: 0,
        WY: 0,
        WX: 0,
        BGP: 0,
        OBP0: 0,
        OBP1: 0,
        dma_active: false,
        dma_address: 0,
        dma_counter: 0,
    }
}

struct Screen {
    frames: Vec<Vec<u32>>,
}

impl GraphicsDriver for Screen {
    fn draw(&mut self, _y: u16, _x: u16, _colour: u32) {}

    fn render(&mut self, pixel_buffer: &[u32]) {
        self.frames.push(pixel_buffer.to_vec());
    }

    fn is_closed(&self) -> bool {
        false
    }
}

#[test]
fn colours_are_packed_red_green_blue() {
    assert_eq!(encode_rgb(0x12, 0x34, 0x56), 0x123456);
    assert_eq!(encode_rgb(0xFF, 0x00, 0x00), 0xFF0000);
    assert_eq!(encode_rgb(0, 0, 0), 0);
    assert_eq!(encode_rgb(0xFF, 0xFF, 0xFF), WHITE);
}

#[test]
fn the_palette_goes_from_white_to_black() {
    assert_eq!([shade(0), shade(1), shade(2), shade(3)], [WHITE, LIGHT, DARK, BLACK]);
}

#[test]
fn a_pixel_takes_one_bit_of_each_byte() {
    assert_eq!(pixel_at(0x80, 0x00, 7), 1);
    assert_eq!(pixel_at(0x00, 0x80, 7), 2);
    assert_eq!(pixel_at(0x80, 0x80, 7), 3);
    assert_eq!(pixel_at(0x80, 0x80, 6), 0);
    assert_eq!(pixel_at(0x01, 0x00, 0), 1);
}

#[test]
fn modes_and_phases_go_round() {
    assert_eq!([Mode::HBlank.number(), Mode::VBlank.number(), Mode::OAM.number(), Mode::Draw.number()], [0, 1, 2, 3]);
    assert_eq!(Mode::from_u8(6), Mode::OAM);
    assert_eq!(Mode::from_u8(255), Mode::Draw);
    let mut mode = Mode::Draw;
    mode.next();
    assert_eq!(mode, Mode::HBlank);
    mode.next();
    assert_eq!(mode, Mode::VBlank);
    assert_eq!(FifoState::from_u8(5), FifoState::FetchTileLo);
    let mut state = FifoState::PushTile;
    state.next();
    assert_eq!(state, FifoState::FetchTileNo);
    state.next();
    assert_eq!(state, FifoState::FetchTileLo);
}

#[test]
fn the_queue_holds_sixteen_pixels_in_order() {
    let mut fifo = PixelFifo::new();
    assert!(fifo.is_empty());
    assert_eq!(fifo.top(), 0);
    assert_eq!(fifo.pop(), None);
    for pixel in 0..20u8 {
        fifo.push(pixel);
    }
    assert_eq!(fifo.len(), 16);
    assert_eq!(fifo.top(), 0);
    for pixel in 0..10u8 {
        assert_eq!(fifo.pop(), Some(pixel));
    }
    for pixel in 100..110u8 {
        fifo.push(pixel);
    }
    assert_eq!(fifo.len(), 16);
    for pixel in 10..16u8 {
        assert_eq!(fifo.pop(), Some(pixel));
    }
    for pixel in 100..110u8 {
        assert_eq!(fifo.pop(), Some(pixel));
    }
    assert_eq!(fifo.pop(), None);
    fifo.push(7);
    fifo.clear();
    assert!(fifo.is_empty());
    assert_eq!(fifo.pop(), None);
}

#[test]
fn the_scan_lasts_twenty_cycles() {
    let (mut bus, ppu) = with_ppu();
    assert_eq!(mode(&bus, ppu), Mode::VBlank);
    bus.write_byte(0xFF40, 0x80).unwrap();
    for spent in 1..=19u16 {
        bus.tick(ppu, 1).unwrap();
        assert_eq!(mode(&bus, ppu), Mode::OAM);
        assert_eq!(clock(&bus, ppu), spent);
    }
    bus.tick(ppu, 1).unwrap();
    assert_eq!(mode(&bus, ppu), Mode::Draw);
    assert_eq!(clock(&bus, ppu), 0);
    assert_eq!(bus.read_byte(0xFF41), Ok(0x03));
    bus.tick(ppu, 1).unwrap();
    assert_eq!(mode(&bus, ppu), Mode::Draw);
}

#[test]
fn the_scan_ends_after_twenty_cycles_at_once() {
    let (mut bus, ppu) = with_ppu();
    bus.write_byte(0xFF40, 0x80).unwrap();
    bus.tick(ppu, 20).unwrap();
    assert_eq!(mode(&bus, ppu), Mode::Draw);
    assert_eq!(clock(&bus, ppu), 0);
}

#[test]
fn a_line_lasts_114_cycles() {
    let (mut bus, ppu) = with_ppu();
    bus.write_byte(0xFF40, 0x80).unwrap();
    ticks(&mut bus, ppu, 20);
    assert_eq!(mode(&bus, ppu), Mode::Draw);
    ticks(&mut bus, ppu, 42);
    assert_eq!(mode(&bus, ppu), Mode::Draw);
    ticks(&mut bus, ppu, 1);
    assert_eq!(mode(&bus, ppu), Mode::HBlank);
    assert_eq!(bus.read_byte(0xFF41), Ok(0x00));
    ticks(&mut bus, ppu, 50);
    assert_eq!(mode(&bus, ppu), Mode::HBlank);
    assert_eq!(bus.read_byte(0xFF44), Ok(0));
    ticks(&mut bus, ppu, 1);
    assert_eq!(mode(&bus, ppu), Mode::OAM);
    assert_eq!(bus.read_byte(0xFF44), Ok(1));
    assert_eq!(bus.read_byte(0xFF41), Ok(0x06));
}

#[test]
fn a_frame_ends_in_the_vertical_blank() {
    let (mut bus, ppu) = with_ppu();
    bus.write_byte(0xFF40, 0x80).unwrap();
    assert!(bus.take_frame(ppu).is_some());
    ticks(&mut bus, ppu, 144 * 114 - 1);
    assert_eq!(mode(&bus, ppu), Mode::HBlank);
    assert_eq!(bus.read_byte(0xFF0F), Ok(0x00));
    ticks(&mut bus, ppu, 1);
    assert_eq!(mode(&bus, ppu), Mode::VBlank);
    assert_eq!(bus.read_byte(0xFF44), Ok(144));
    assert_eq!(bus.read_byte(0xFF0F), Ok(0x01));
    assert_eq!(bus.read_byte(0xFF41), Ok(0x01));
    assert!(bus.take_frame(ppu).is_none());
    ticks(&mut bus, ppu, 10 * 114 - 1);
    assert_eq!(mode(&bus, ppu), Mode::VBlank);
    assert_eq!(bus.read_byte(0xFF44), Ok(153));
    ticks(&mut bus, ppu, 1);
    assert_eq!(mode(&bus, ppu), Mode::OAM);
    assert_eq!(bus.read_byte(0xFF44), Ok(0));
    let frame = bus.take_frame(ppu).unwrap();
    assert_eq!(frame.len(), 160 * 144);
    assert!(frame.iter().all(|pixel| *pixel == WHITE));
    assert!(bus.take_frame(ppu).is_none());
}

#[test]
fn modes_ask_for_the_status_interrupt_when_allowed() {
    let (mut bus, ppu) = with_ppu();
    bus.write_byte(0xFF41, 0x08).unwrap();
    bus.write_byte(0xFF40, 0x80).unwrap();
    ticks(&mut bus, ppu, 62);
    assert_eq!(bus.read_byte(0xFF0F), Ok(0x00));
    ticks(&mut bus, ppu, 1);
    assert_eq!(mode(&bus, ppu), Mode::HBlank);
    assert_eq!(bus.read_byte(0xFF0F), Ok(0x02));
    assert_eq!(bus.read_byte(0xFF41), Ok(0x08));
}

#[test]
fn the_line_compare_sets_its_flag_and_asks_for_the_interrupt() {
    let (mut bus, ppu) = with_ppu();
    bus.write_byte(0xFF41, 0x40).unwrap();
    bus.write_byte(0xFF45, 1).unwrap();
    bus.write_byte(0xFF40, 0x80).unwrap();
    ticks(&mut bus, ppu, 114);
    assert_eq!(bus.read_byte(0xFF44), Ok(1));
    assert_eq!(bus.read_byte(0xFF41), Ok(0x42));
    assert_eq!(bus.read_byte(0xFF0F), Ok(0x00));
    ticks(&mut bus, ppu, 114);
    assert_eq!(bus.read_byte(0xFF44), Ok(2));
    assert_eq!(bus.read_byte(0xFF41), Ok(0x46));
    assert_eq!(bus.read_byte(0xFF0F), Ok(0x02));
    ticks(&mut bus, ppu, 114);
    assert_eq!(bus.read_byte(0xFF41), Ok(0x42));
}

#[test]
fn the_status_register_keeps_its_low_bits() {
    let (mut bus, _) = with_ppu();
    assert_eq!(bus.read_byte(0xFF41), Ok(0x01));
    bus.write_byte(0xFF41, 0xFE).unwrap();
    assert_eq!(bus.read_byte(0xFF41), Ok(0xF9));
    bus.write_byte(0xFF41, 0x00).unwrap();
    assert_eq!(bus.read_byte(0xFF41), Ok(0x01));
}

#[test]
fn the_registers_store_what_is_written() {
    let (mut bus, _) = with_ppu();
    let writable = [0xFF40u16, 0xFF42, 0xFF43, 0xFF45, 0xFF47, 0xFF48, 0xFF49, 0xFF4A, 0xFF4B];
    for (i, address) in writable.iter().enumerate() {
        bus.write_byte(*address, 0x10 + i as u8).unwrap();
    }
    for (i, address) in writable.iter().enumerate() {
        assert_eq!(bus.read_byte(*address), Ok(0x10 + i as u8));
    }
    assert_eq!(bus.write_byte(0xFF44, 0x01), Err(Fault::ReadOnly(0xFF44)));
    assert_eq!(bus.read_byte(0xFF44), Ok(0x00));
    assert_eq!(bus.write_byte(0xFF46, 0xF2), Err(Fault::InvalidDma(0xF2)));
    assert_eq!(bus.read_byte(0xFF46), Ok(0x00));
    assert_eq!(bus.write_byte(0xFF46, 0xF1), Ok(()));
    assert_eq!(bus.read_byte(0xFF46), Ok(0xF1));
}

#[test]
fn the_memories_of_the_controller() {
    let mut ppu = PPU::new();
    assert_eq!(
        ppu.bus_attach(),
        vec![Attach::BlockRange(0x80, 0x9F), Attach::Block(0xFE), Attach::RegisterRange(0x40, 0x4B)]
    );
    assert_eq!(ppu.bus_write(0x8000, 0x12), Ok(false));
    assert_eq!(ppu.bus_write(0x9FFF, 0x34), Ok(false));
    assert_eq!(ppu.bus_write(0xFE00, 0x56), Ok(false));
    assert_eq!(ppu.bus_write(0xFE9F, 0x78), Ok(false));
    assert_eq!(ppu.bus_write(0xFEA0, 0x9A), Ok(false));
    assert_eq!(ppu.bus_read(0x8000), Ok(0x12));
    assert_eq!(ppu.bus_read(0x9FFF), Ok(0x34));
    assert_eq!(ppu.bus_read(0xFE00), Ok(0x56));
    assert_eq!(ppu.bus_read(0xFE9F), Ok(0x78));
    assert_eq!(ppu.bus_read(0xFEA0), Ok(0x00));
    assert_eq!(ppu.bus_read(0xFEFF), Ok(0x00));
    assert_eq!(ppu.bus_read(0xA000), Err(Fault::NotOwned(0xA000)));
    assert_eq!(ppu.bus_read(0xFF4C), Err(Fault::NotOwned(0xFF4C)));
    assert_eq!(ppu.bus_write(0xFF3F, 0), Err(Fault::NotOwned(0xFF3F)));
}

#[test]
fn a_transfer_copies_one_byte_for_each_cycle() {
    let (mut bus, ppu) = with_ppu();
    for offset in 0..0xA0u16 {
        bus.write_byte(0xC100 + offset, offset as u8 ^ 0xFF).unwrap();
    }
    bus.write_byte(0xFF40, 0x80).unwrap();
    bus.write_byte(0xFF46, 0xC1).unwrap();
    bus.tick(ppu, 100).unwrap();
    assert_eq!(bus.read_byte(0xFE00), Ok(0xFF));
    assert_eq!(bus.read_byte(0xFE63), Ok(0x63 ^ 0xFF));
    assert_eq!(bus.read_byte(0xFE64), Ok(0x00));
    bus.tick(ppu, 100).unwrap();
    for offset in 0..0xA0u16 {
        assert_eq!(bus.read_byte(0xFE00 + offset), Ok(offset as u8 ^ 0xFF));
    }
    bus.write_byte(0xC100, 0x00).unwrap();
    bus.tick(ppu, 10).unwrap();
    assert_eq!(bus.read_byte(0xFE00), Ok(0xFF));
}

#[test]
fn a_transfer_can_read_the_video_ram() {
    let (mut bus, ppu) = with_ppu();
    for offset in 0..0xA0u16 {
        bus.write_byte(0x8100 + offset, offset as u8 ^ 0x3C).unwrap();
    }
    bus.write_byte(0xFF40, 0x80).unwrap();
    bus.write_byte(0xFF46, 0x81).unwrap();
    assert_eq!(bus.tick(ppu, 160), Ok(()));
    for offset in 0..0xA0u16 {
        assert_eq!(bus.read_byte(0xFE00 + offset), Ok(offset as u8 ^ 0x3C));
    }
}

#[test]
fn a_transfer_stops_where_nothing_is_attached() {
    let (mut bus, ppu) = with_ppu();
    bus.write_byte(0xFF40, 0x80).unwrap();
    bus.write_byte(0xFF46, 0xA0).unwrap();
    assert_eq!(bus.tick(ppu, 4), Err(Fault::Unmapped(0xA000)));
    assert_eq!(bus.read_byte(0xFF46), Ok(0xA0));
    assert_eq!(mode(&bus, ppu), Mode::OAM);
    assert_eq!(clock(&bus, ppu), 0);
}

#[test]
fn a_disabled_display_shows_blank_frames() {
    let (mut bus, ppu) = with_ppu();
    let frame = bus.take_frame(ppu).unwrap();
    assert_eq!(frame.len(), 160 * 144);
    assert!(frame.iter().all(|pixel| *pixel == 0));
    assert!(bus.take_frame(ppu).is_none());
    for _ in 0..68 {
        bus.tick(ppu, 255).unwrap();
    }
    assert_eq!(clock(&bus, ppu), 17340);
    assert!(bus.take_frame(ppu).is_none());
    bus.tick(ppu, 216).unwrap();
    assert_eq!(clock(&bus, ppu), 17556);
    assert!(bus.take_frame(ppu).is_none());
    bus.tick(ppu, 1).unwrap();
    assert_eq!(clock(&bus, ppu), 1);
    assert_eq!(mode(&bus, ppu), Mode::VBlank);
    assert!(bus.take_frame(ppu).is_some());
    assert!(bus.take_frame(ppu + 1).is_none());
}

#[test]
fn a_frame_is_shown_once() {
    let mut ppu = PPU::new();
    let mut screen = Screen { frames: Vec::new() };
    ppu.update(&mut screen);
    ppu.update(&mut screen);
    assert_eq!(screen.frames.len(), 1);
    assert_eq!(screen.frames[0], filled(0u32, 160 * 144));
    assert!(!screen.is_closed());
}

#[test]
fn the_background_is_drawn_from_unsigned_tiles() {
    let (mut bus, ppu) = with_ppu();
    bus.write_byte(0x9800, 0x01).unwrap();
    bus.write_byte(0x9801, 0x02).unwrap();
    bus.write_byte(0x8010, 0xFF).unwrap();
    bus.write_byte(0x8011, 0x00).unwrap();
    bus.write_byte(0x8020, 0x0F).unwrap();
    bus.write_byte(0x8021, 0xFF).unwrap();
    bus.write_byte(0xFF40, 0x90).unwrap();
    bus.take_frame(ppu);
    ticks(&mut bus, ppu, 154 * 114);
    let frame = bus.take_frame(ppu).unwrap();
    assert_eq!(&frame[0..8], &[LIGHT; 8]);
    assert_eq!(&frame[8..12], &[DARK; 4]);
    assert_eq!(&frame[12..16], &[BLACK; 4]);
    assert_eq!(&frame[16..160], &[WHITE; 144]);
    assert_eq!(&frame[160..176], &[WHITE; 16]);
}

#[test]
fn signed_tiles_count_up_below_128_and_down_from_128() {
    let (mut bus, ppu) = with_ppu();
    bus.write_byte(0x9800, 0x01).unwrap();
    bus.write_byte(0x9801, 0x81).unwrap();
    bus.write_byte(0x9802, 0xFF).unwrap();
    bus.write_byte(0x8810, 0x00).unwrap();
    bus.write_byte(0x8811, 0xFF).unwrap();
    bus.write_byte(0x87F0, 0xFF).unwrap();
    bus.write_byte(0x87F1, 0xFF).unwrap();
    bus.write_byte(0x8010, 0xFF).unwrap();
    bus.write_byte(0x8011, 0x00).unwrap();
    bus.write_byte(0xFF40, 0x80).unwrap();
    bus.take_frame(ppu);
    ticks(&mut bus, ppu, 154 * 114);
    let frame = bus.take_frame(ppu).unwrap();
    assert_eq!(&frame[0..8], &[DARK; 8]);
    assert_eq!(&frame[8..16], &[BLACK; 8]);
    assert_eq!(&frame[16..24], &[LIGHT; 8]);
    assert_eq!(&frame[24..32], &[WHITE; 8]);
}

#[test]
fn the_second_tile_map_can_be_selected() {
    let (mut bus, ppu) = with_ppu();
    bus.write_byte(0x9C00, 0x01).unwrap();
    bus.write_byte(0x8010, 0xFF).unwrap();
    bus.write_byte(0x8011, 0xFF).unwrap();
    bus.write_byte(0xFF40, 0x98).unwrap();
    bus.take_frame(ppu);
    ticks(&mut bus, ppu, 154 * 114);
    let frame = bus.take_frame(ppu).unwrap();
    assert_eq!(&frame[0..8], &[BLACK; 8]);
    assert_eq!(&frame[8..16], &[WHITE; 8]);
}

#[test]
fn a_sprite_is_drawn_over_the_background() {
    let (mut bus, ppu) = with_ppu();
    bus.write_byte(0xFE00, 16).unwrap();
    bus.write_byte(0xFE01, 8).unwrap();
    bus.write_byte(0xFE02, 2).unwrap();
    bus.write_byte(0x8020, 0xFF).unwrap();
    bus.write_byte(0x8021, 0xFF).unwrap();
    bus.write_byte(0xFF40, 0x92).unwrap();
    bus.take_frame(ppu);
    ticks(&mut bus, ppu, 154 * 114);
    let frame = bus.take_frame(ppu).unwrap();
    assert_eq!(&frame[0..15], &[WHITE; 15]);
    assert_eq!(&frame[15..23], &[BLACK; 8]);
    assert_eq!(&frame[23..160], &[WHITE; 137]);
    assert_eq!(&frame[160..320], &[WHITE; 160]);
}

#[test]
fn sprites_are_kept_by_column_and_at_most_ten() {
    let mut oam = filled(0u8, 0x100);
    let columns = [50u8, 20, 90, 20, 10, 159, 30, 40, 60, 70, 80, 5];
    for (i, x) in columns.iter().enumerate() {
        oam[4 * i] = 16;
        oam[4 * i + 1] = *x;
        oam[4 * i + 2] = i as u8;
    }
    let registers = blank_registers();
    let mut fifo = SpriteFifo::new();
    for _ in 0..4 {
        fifo.scan_next_oam_table_entry(&oam, &registers);
    }
    let found: Vec<(u8, u8)> = fifo.table().iter().map(|e| (e.x, e.tile)).collect();
    assert_eq!(found, vec![(20, 3), (20, 1), (50, 0), (90, 2)]);
    for _ in 0..8 {
        fifo.scan_next_oam_table_entry(&oam, &registers);
    }
    let found: Vec<u8> = fifo.table().iter().map(|e| e.x).collect();
    assert_eq!(found, vec![10, 20, 20, 30, 40, 50, 60, 70, 90, 159]);
    fifo.reset();
    assert!(fifo.table().is_empty());
}

#[test]
fn only_sprites_that_cross_the_line_are_kept() {
    let entries = [
        (16u8, 8u8, true),
        (9, 8, true),
        (8, 8, false),
        (17, 8, false),
        (0, 8, false),
        (16, 0, false),
        (16, 160, false),
        (16, 159, true),
    ];
    for (y, x, kept) in entries {
        let mut oam = filled(0u8, 0x100);
        oam[0] = y;
        oam[1] = x;
        let mut fifo = SpriteFifo::new();
        fifo.scan_next_oam_table_entry(&oam, &blank_registers());
        assert_eq!(fifo.table().len(), if kept { 1 } else { 0 });
    }
    let mut oam = filled(0u8, 0x100);
    oam[0] = 1;
    oam[1] = 8;
    let mut tall = blank_registers();
    tall.LCDC = 0x04;
    let mut fifo = SpriteFifo::new();
    fifo.scan_next_oam_table_entry(&oam, &tall);
    assert_eq!(fifo.table(), vec![OamEntry { x: 8, y: 1, tile: 0, attributes: 0 }]);
    let mut line = blank_registers();
    line.LY = 143;
    oam[0] = 167;
    let mut fifo = SpriteFifo::new();
    fifo.scan_next_oam_table_entry(&oam, &line);
    assert_eq!(fifo.table().len(), 0);
    oam[0] = 159;
    let mut fifo = SpriteFifo::new();
    fifo.scan_next_oam_table_entry(&oam, &line);
    assert_eq!(fifo.table().len(), 1);
}

#[test]
fn the_scan_stops_after_forty_sprites() {
    let mut oam = filled(0u8, 0x100);
    for i in 0..64 {
        oam[4 * i] = 16;
        oam[4 * i + 1] = 8;
    }
    for i in 0..40 {
        oam[4 * i + 1] = 0;
    }
    let mut fifo = SpriteFifo::new();
    for _ in 0..64 {
        fifo.scan_next_oam_table_entry(&oam, &blank_registers());
    }
    assert!(fifo.table().is_empty());
}

#[test]
fn a_sprite_row_outside_video_ram_is_a_fault() {
    let mut oam = filled(0u8, 0x100);
    oam[0] = 40;
    oam[1] = 8;
    let vram = filled(0u8, 0x2000);
    let mut registers = blank_registers();
    registers.LCDC = 0x02;
    registers.LY = 30;
    let mut fifo = SpriteFifo::new();
    fifo.scan_next_oam_table_entry(&oam, &registers);
    assert_eq!(fifo.table().len(), 1);
    registers.LY = 0;
    assert_eq!(fifo.step(&vram, registers), Err(Fault::NotOwned(0x7FD0)));
    registers.LY = 30;
    assert_eq!(fifo.step(&vram, registers), Ok(()));
    assert_eq!(fifo.pop(0), None);
}

#[test]
fn the_sprite_queue_waits_for_its_column() {
    let mut oam = filled(0u8, 0x100);
    oam[0] = 16;
    oam[1] = 4;
    oam[2] = 1;
    let mut vram = filled(0u8, 0x2000);
    vram[0x10] = 0b0000_1010;
    vram[0x11] = 0b0000_1100;
    let mut registers = blank_registers();
    registers.LCDC = 0x02;
    let mut fifo = SpriteFifo::new();
    fifo.scan_next_oam_table_entry(&oam, &registers);
    for _ in 0..4 {
        fifo.step(&vram, registers).unwrap();
    }
    assert_eq!(fifo.pop(6), None);
    assert_eq!(fifo.pop(7), Some(3));
    assert_eq!(fifo.pop(7), Some(2));
    assert_eq!(fifo.pop(7), Some(1));
    assert_eq!(fifo.pop(7), Some(0));
    assert_eq!(fifo.pop(7), None);
    registers.LCDC = 0x00;
    fifo.reset();
    fifo.scan_next_oam_table_entry(&oam, &registers);
    for _ in 0..4 {
        fifo.step(&vram, registers).unwrap();
    }
    assert_eq!(fifo.pop(255), None);
}

#[test]
fn the_background_fetcher_goes_through_its_phases() {
    let mut vram = filled(0u8, 0x2000);
    vram[0x1800] = 0x01;
    vram[0x0810] = 0b1100_0000;
    vram[0x0811] = 0b1010_0000;
    let registers = blank_registers();
    let mut fifo = BackgroundFifo::new();
    assert_eq!(fifo.state(), FifoState::FetchTileNo);
    assert_eq!(fifo.pop(), None);
    fifo.step(&vram, registers);
    assert_eq!(fifo.state(), FifoState::FetchTileLo);
    fifo.step(&vram, registers);
    fifo.step(&vram, registers);
    assert_eq!(fifo.state(), FifoState::PushTile);
    assert_eq!(fifo.pop(), None);
    fifo.step(&vram, registers);
    assert_eq!(fifo.state(), FifoState::FetchTileNo);
    for _ in 0..3 {
        fifo.step(&vram, registers);
    }
    assert_eq!(fifo.state(), FifoState::PushTile);
    fifo.step(&vram, registers);
    assert_eq!(fifo.state(), FifoState::FetchTileNo);
    for _ in 0..3 {
        fifo.step(&vram, registers);
    }
    fifo.step(&vram, registers);
    assert_eq!(fifo.state(), FifoState::PushTile);
    assert_eq!([fifo.pop(), fifo.pop(), fifo.pop(), fifo.pop()], [Some(3), Some(1), Some(2), Some(0)]);
    for _ in 0..12 {
        assert_eq!(fifo.pop(), Some(0));
    }
    assert_eq!(fifo.pop(), None);
    fifo.step(&vram, registers);
    assert_eq!(fifo.state(), FifoState::FetchTileNo);
    fifo.reset();
    assert_eq!(fifo.pop(), None);
}

#[test]
fn the_scroll_drops_pixels_from_the_second_tile_on() {
    let mut vram = filled(0u8, 0x2000);
    for address in 0..0x10 {
        vram[address] = 0xFF;
    }
    let mut registers = blank_registers();
    registers.LCDC = 0x10;
    registers.SCX = 3;
    let mut fifo = BackgroundFifo::new();
    for _ in 0..4 {
        fifo.step(&vram, registers);
    }
    let mut first = 0;
    while fifo.pop().is_some() {
        first += 1;
    }
    assert_eq!(first, 8);
    for _ in 0..4 {
        fifo.step(&vram, registers);
    }
    let mut second = 0;
    while fifo.pop().is_some() {
        second += 1;
    }
    assert_eq!(second, 5);
}
