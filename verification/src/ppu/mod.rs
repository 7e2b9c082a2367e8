//! The video controller.

pub mod background_fifo;
pub mod fifo;
pub mod sprite_fifo;

use vstd::prelude::*;
use crate::bus::{ended, Address, Attach, Bus, BusListener, BusModel, Byte, Fault};
use crate::clock::{passed, stopped, ClockListener, Ticked};
use crate::cpu::interrupt::{interrupt, InterruptType};
use crate::graphics::graphics_driver::GraphicsDriver;
use crate::ppu::background_fifo::{BackgroundFifo, BackgroundModel};
use crate::ppu::sprite_fifo::{SpriteFifo, SpriteModel};
use crate::ram::filled;

verus! {

pub const DISPLAY_WIDTH: u8 = 160;

pub const DISPLAY_HEIGHT: u8 = 144;

/// The number of pixels of a frame.
pub const PITCH: usize = 23040;

/// The number of lines of a frame with those of the vertical blank.
pub const VIRTUAL_DISPLAY_HEIGHT: u8 = 154;

pub const LCDC_DISPLAY_ENABLE: u8 = 0x80;

pub const LCDC_WINDOW_TILE_MAP_SELECT: u8 = 0x40;

pub const LCDC_WINDOW_ENABLE: u8 = 0x20;

pub const LCDC_TILE_DATA_SELECT: u8 = 0x10;

pub const LCDC_TILE_MAP_SELECT: u8 = 0x08;

/// Set for sprites of double height.
pub const LCDC_SPRITE_SIZE: u8 = 0x04;

pub const LCDC_SPRITE_ENABLE: u8 = 0x02;

pub const MAX_SPRITES_PER_LINE: usize = 10;

pub const STAT_LYC_INTERRUPT: u8 = 0x40;

pub const STAT_OAM_INTERRUPT: u8 = 0x20;

pub const STAT_VBLANK_INTERRUPT: u8 = 0x10;

pub const STAT_HBLANK_INTERRUPT: u8 = 0x08;

pub const STAT_LYC_FLAG: u8 = 0x04;

pub const STAT_MODE_MASK: u8 = 0x03;

pub const VRAM_BASE_ADDRESS: Address = 0x8000;

pub const VRAM_SIZE: usize = 0x2000;

pub const OAM_SIZE: usize = 0x100;

/// The two tile maps, as offsets into video RAM.
pub const TILE_MAP_LO_BASE: Address = 0x1800;

pub const TILE_MAP_HI_BASE: Address = 0x1C00;

/// The block of tile data that tile numbers count from when they are taken
/// as signed, as an offset into video RAM.
pub const TILE_DATA_SIGNED_BASE: Address = 0x0800;

pub const OAM_CYCLES: u16 = 20;

pub const DRAW_CYCLES: u16 = 43;

pub const HBLANK_CYCLES: u16 = 51;

pub const VBLANK_LINE_CYCLES: u16 = 114;

/// The cycles of a whole frame.
pub const SCREEN_CYCLES: u16 = 17556;

/// The four modes that the controller goes through, with the numbers that
/// the status register shows for them.
#[derive(Clone, Copy, Debug, PartialEq, Eq, Structural)]
pub enum Mode {
    HBlank,
    VBlank,
    OAM,
    Draw,
}

impl Mode {
    /// The number of the mode in the low two bits of the status register.
    pub open spec fn index(self) -> u8 {
        match self {
            Mode::HBlank => 0,
            Mode::VBlank => 1,
            Mode::OAM => 2,
            Mode::Draw => 3,
        }
    }

    /// The mode with a number, counted modulo 4.
    pub open spec fn at(value: int) -> Mode {
        if value % 4 == 0 {
            Mode::HBlank
        } else if value % 4 == 1 {
            Mode::VBlank
        } else if value % 4 == 2 {
            Mode::OAM
        } else {
            Mode::Draw
        }
    }

    pub fn number(self) -> (r: u8)
        ensures
            r == self.index(),
    {
        match self {
            Mode::HBlank => 0,
            Mode::VBlank => 1,
            Mode::OAM => 2,
            Mode::Draw => 3,
        }
    }

    /// Moves on to the mode with the next number.
    pub fn next(&mut self)
        ensures
            *final(self) == Mode::at(old(self).index() + 1),
    {
        *self = Mode::from_u8((self.number() + 1) % 4);
    }

    pub fn from_u8(value: u8) -> (r: Mode)
        ensures
            r == Mode::at(value as int),
    {
        let number = value % 4;
        if number == 0 {
            Mode::HBlank
        } else if number == 1 {
            Mode::VBlank
        } else if number == 2 {
            Mode::OAM
        } else {
            Mode::Draw
        }
    }
}

/// A position in the background, in pixels.
#[derive(Clone, Copy, Debug, PartialEq, Eq, Structural)]
pub struct Point {
    pub x: u16,
    pub y: u16,
}

/// The registers of the video controller.
#[allow(non_snake_case)]
#[derive(Clone, Copy, Debug, PartialEq, Eq, Structural)]
pub struct Registers {
    pub LCDC: Byte,
    pub STAT: Byte,
    pub SCY: Byte,
    pub SCX: Byte,
    /// The column that is drawn next; no register of the hardware.
    pub LX: Byte,
    pub LY: Byte,
    pub LYC: Byte,
    pub WY: Byte,
    pub WX: Byte,
    pub BGP: Byte,
    pub OBP0: Byte,
    pub OBP1: Byte,
    pub dma_active: bool,
    pub dma_address: Byte,
    pub dma_counter: Byte,
}

/// The two-bit colour of one pixel of a row of a tile: bit `bit` of the high
/// byte above bit `bit` of the low byte.
pub open spec fn pixel_of(lo: u8, hi: u8, bit: u8) -> u8 {
    (((hi >> bit) & 1) << 1) | ((lo >> bit) & 1)
}

pub fn pixel_at(lo: u8, hi: u8, bit: u8) -> (r: u8)
    requires
        bit < 8,
    ensures
        r == pixel_of(lo, hi, bit),
{
    (((hi >> bit) & 1) << 1) | ((lo >> bit) & 1)
}


/// The colour that the display shows for a two-bit colour of a pixel, from
/// white to black.
pub open spec fn shade_of(index: u8) -> u32 {
    if index == 0 {
        0xFFFFFF
    } else if index == 1 {
        0xC0C0C0
    } else if index == 2 {
        0x404040
    } else {
        0x000000
    }
}

pub fn shade(index: u8) -> (r: u32)
    ensures
        r == shade_of(index),
{
    if index == 0 {
        0xFFFFFF
    } else if index == 1 {
        0xC0C0C0
    } else if index == 2 {
        0x404040
    } else {
        0x000000
    }
}

pub struct PPU {
    on: bool,
    mode: Mode,
    clock: u16,
    pixel_buffer: Vec<u32>,
    render_flag: bool,
    vram: Vec<Byte>,
    oam: Vec<Byte>,
    registers: Registers,
    bgfifo: BackgroundFifo,
    spfifo: SpriteFifo,
}

/// What a [`PPU`] holds.
pub struct PpuModel {
    /// Whether the display was switched on when time last passed.
    pub on: bool,
    pub mode: Mode,
    /// The cycles spent in the mode, and those not yet accounted for.
    pub clock: u16,
    /// The frame, line after line.
    pub pixels: Seq<u32>,
    /// Whether a frame is ready to be shown.
    pub render_flag: bool,
    pub vram: Seq<Byte>,
    pub oam: Seq<Byte>,
    pub registers: Registers,
    pub bgfifo: BackgroundModel,
    pub spfifo: SpriteModel,
}

pub open spec fn ppu_claims() -> Seq<Attach> {
    seq![Attach::BlockRange(0x80, 0x9F), Attach::Block(0xFE), Attach::RegisterRange(0x40, 0x4B)]
}

impl Registers {
    /// The register at an address of the controller, if it can be read.
    pub open spec fn read(self, address: Address) -> Option<Byte> {
        if address == 0xFF40 {
            Some(self.LCDC)
        } else if address == 0xFF41 {
            Some(self.STAT)
        } else if address == 0xFF42 {
            Some(self.SCY)
        } else if address == 0xFF43 {
            Some(self.SCX)
        } else if address == 0xFF44 {
            Some(self.LY)
        } else if address == 0xFF45 {
            Some(self.LYC)
        } else if address == 0xFF46 {
            Some(self.dma_address)
        } else if address == 0xFF47 {
            Some(self.BGP)
        } else if address == 0xFF48 {
            Some(self.OBP0)
        } else if address == 0xFF49 {
            Some(self.OBP1)
        } else if address == 0xFF4A {
            Some(self.WY)
        } else if address == 0xFF4B {
            Some(self.WX)
        } else {
            None
        }
    }

    /// The registers after a write. Of the status register only the high
    /// five bits can be written, and the line counter not at all. A write
    /// to the DMA register starts a transfer from the page it names, which
    /// must not lie above `0xF1`.
    pub open spec fn write(self, address: Address, value: Byte) -> Result<Registers, Fault> {
        if address == 0xFF40 {
            Ok(Registers { LCDC: value, ..self })
        } else if address == 0xFF41 {
            Ok(Registers { STAT: (value & 0xF8) | (self.STAT & 0x07), ..self })
        } else if address == 0xFF42 {
            Ok(Registers { SCY: value, ..self })
        } else if address == 0xFF43 {
            Ok(Registers { SCX: value, ..self })
        } else if address == 0xFF44 {
            Err(Fault::ReadOnly(address))
        } else if address == 0xFF45 {
            Ok(Registers { LYC: value, ..self })
        } else if address == 0xFF46 {
            if value <= 0xF1 {
                Ok(Registers { dma_active: true, dma_counter: 0, dma_address: value, ..self })
            } else {
                Err(Fault::InvalidDma(value))
            }
        } else if address == 0xFF47 {
            Ok(Registers { BGP: value, ..self })
        } else if address == 0xFF48 {
            Ok(Registers { OBP0: value, ..self })
        } else if address == 0xFF49 {
            Ok(Registers { OBP1: value, ..self })
        } else if address == 0xFF4A {
            Ok(Registers { WY: value, ..self })
        } else if address == 0xFF4B {
            Ok(Registers { WX: value, ..self })
        } else {
            Err(Fault::NotOwned(address))
        }
    }

    fn get(&self, address: Address) -> (r: Option<Byte>)
        ensures
            r == self.read(address),
    {
        if address == 0xFF40 {
            Some(self.LCDC)
        } else if address == 0xFF41 {
            Some(self.STAT)
        } else if address == 0xFF42 {
            Some(self.SCY)
        } else if address == 0xFF43 {
            Some(self.SCX)
        } else if address == 0xFF44 {
            Some(self.LY)
        } else if address == 0xFF45 {
            Some(self.LYC)
        } else if address == 0xFF46 {
            Some(self.dma_address)
        } else if address == 0xFF47 {
            Some(self.BGP)
        } else if address == 0xFF48 {
            Some(self.OBP0)
        } else if address == 0xFF49 {
            Some(self.OBP1)
        } else if address == 0xFF4A {
            Some(self.WY)
        } else if address == 0xFF4B {
            Some(self.WX)
        } else {
            None
        }
    }

    fn set(&mut self, address: Address, value: Byte) -> (r: Result<(), Fault>)
        ensures
            match old(self).write(address, value) {
                Ok(m) => r is Ok && *final(self) == m,
                Err(f) => r == Err::<(), Fault>(f) && *final(self) == *old(self),
            },
    {
        if address == 0xFF40 {
            self.LCDC = value;
        } else if address == 0xFF41 {
            let stat = self.STAT;
            self.STAT = (value & 0xF8) | (stat & 0x07);
        } else if address == 0xFF42 {
            self.SCY = value;
        } else if address == 0xFF43 {
            self.SCX = value;
        } else if address == 0xFF44 {
            return Err(Fault::ReadOnly(address));
        } else if address == 0xFF45 {
            self.LYC = value;
        } else if address == 0xFF46 {
            if value > 0xF1 {
                return Err(Fault::InvalidDma(value));
            }
            self.dma_active = true;
            self.dma_counter = 0;
            self.dma_address = value;
        } else if address == 0xFF47 {
            self.BGP = value;
        } else if address == 0xFF48 {
            self.OBP0 = value;
        } else if address == 0xFF49 {
            self.OBP1 = value;
        } else if address == 0xFF4A {
            self.WY = value;
        } else if address == 0xFF4B {
            self.WX = value;
        } else {
            return Err(Fault::NotOwned(address));
        }
        Ok(())
    }
}

impl PpuModel {
    /// The line counter stays below 154, and below 144 outside the vertical
    /// blank; the column stays within the line; a transfer that is under
    /// way has bytes left to copy.
    pub open spec fn wf(self) -> bool {
        &&& self.pixels.len() == PITCH
        &&& self.vram.len() == VRAM_SIZE
        &&& self.oam.len() == OAM_SIZE
        &&& self.bgfifo.wf()
        &&& self.spfifo.wf()
        &&& self.registers.LY < VIRTUAL_DISPLAY_HEIGHT
        &&& self.mode != Mode::VBlank ==> self.registers.LY < DISPLAY_HEIGHT
        &&& self.registers.LX <= DISPLAY_WIDTH
        &&& self.registers.dma_active ==> self.registers.dma_counter < DISPLAY_WIDTH
    }

    /// A read of video RAM, of the object attribute memory, of the unusable
    /// addresses after it, which read as zero, or of a register.
    pub open spec fn read(self, address: Address) -> Result<Byte, Fault> {
        if 0x8000 <= address <= 0x9FFF {
            Ok(self.vram[address - 0x8000])
        } else if 0xFE00 <= address <= 0xFE9F {
            Ok(self.oam[address - 0xFE00])
        } else if 0xFEA0 <= address <= 0xFEFF {
            Ok(0u8)
        } else {
            match self.registers.read(address) {
                Some(v) => Ok(v),
                None => Err(Fault::NotOwned(address)),
            }
        }
    }

    /// A write to video RAM, to the object attribute memory, to the
    /// unusable addresses after it, which ignore it, or to a register.
    pub open spec fn write(self, address: Address, value: Byte) -> Result<(PpuModel, bool), Fault> {
        if 0x8000 <= address <= 0x9FFF {
            Ok((PpuModel { vram: self.vram.update(address - 0x8000, value), ..self }, false))
        } else if 0xFE00 <= address <= 0xFE9F {
            Ok((PpuModel { oam: self.oam.update(address - 0xFE00, value), ..self }, false))
        } else if 0xFEA0 <= address <= 0xFEFF {
            Ok((self, false))
        } else {
            match self.registers.write(address, value) {
                Ok(registers) => Ok((PpuModel { registers, ..self }, false)),
                Err(f) => Err(f),
            }
        }
    }

    /// The frame to show, if one is ready: the pixels drawn, or a blank
    /// frame while the display is off.
    pub open spec fn frame(self) -> Option<Seq<u32>> {
        if !self.render_flag {
            None
        } else if !self.on {
            Some(Seq::new(PITCH as nat, |i: int| 0u32))
        } else {
            Some(self.pixels)
        }
    }
}

impl PPU {
    pub closed spec fn view(&self) -> PpuModel {
        PpuModel {
            on: self.on,
            mode: self.mode,
            clock: self.clock,
            pixels: self.pixel_buffer@,
            render_flag: self.render_flag,
            vram: self.vram@,
            oam: self.oam@,
            registers: self.registers,
            bgfifo: self.bgfifo@,
            spfifo: self.spfifo@,
        }
    }

    pub closed spec fn wf(&self) -> bool {
        &&& self.bgfifo.wf()
        &&& self.spfifo.wf()
        &&& self@.wf()
    }

    /// A well-formed controller has a well-formed model.
    pub proof fn lemma_wf(&self)
        requires
            self.wf(),
        ensures
            self@.wf(),
    {
    }

    /// A controller with the display off, in the vertical blank, with empty
    /// memories and a frame to show.
    pub fn new() -> (r: Self)
        ensures
            r.wf(),
            !r@.on,
            r@.mode == Mode::VBlank,
            r@.clock == 0,
            r@.render_flag,
            r@.pixels == Seq::new(PITCH as nat, |i: int| 0u32),
            r@.vram == Seq::new(VRAM_SIZE as nat, |i: int| 0u8),
            r@.oam == Seq::new(OAM_SIZE as nat, |i: int| 0u8),
            r@.registers == (Registers {
                LCDC: 0,
                STAT: 1,
                SCY: 0,
                SCX: 0,
                LX: 0,
                LY: 0,
                LYC: 0,
                WY: 0,
                WX: 0,
                BGP: 0,
                OBP0: 0,
                OBP1: 0,
                dma_active: false,
                dma_address: 0,
                dma_counter: 0,
            }),
    {
        let bgfifo = BackgroundFifo::new();
        let spfifo = SpriteFifo::new();
        proof {
            bgfifo.lemma_wf();
            spfifo.lemma_wf();
        }
        Self {
            on: false,
            mode: Mode::VBlank,
            clock: 0,
            pixel_buffer: filled(0u32, PITCH),
            render_flag: true,
            vram: filled(0u8, VRAM_SIZE),
            oam: filled(0u8, OAM_SIZE),
            registers: Registers {
                LCDC: 0,
                STAT: 1,
                SCY: 0,
                SCX: 0,
                LX: 0,
                LY: 0,
                LYC: 0,
                WY: 0,
                WX: 0,
                BGP: 0,
                OBP0: 0,
                OBP1: 0,
                dma_active: false,
                dma_address: 0,
                dma_counter: 0,
            },
            bgfifo,
            spfifo,
        }
    }

    /// The mode that the controller is in.
    pub fn mode(&self) -> (r: Mode)
        ensures
            r == self@.mode,
    {
        self.mode
    }

    /// The cycles spent in the mode.
    pub fn clock(&self) -> (r: u16)
        ensures
            r == self@.clock,
    {
        self.clock
    }

    /// Whether the display was on when time last passed.
    pub fn is_on(&self) -> (r: bool)
        ensures
            r == self@.on,
    {
        self.on
    }

    /// The fetcher of the sprites.
    pub fn sprites(&self) -> (r: &SpriteFifo)
        ensures
            r@ == self@.spfifo,
    {
        &self.spfifo
    }

    /// The fetcher of the background.
    pub fn background(&self) -> (r: &BackgroundFifo)
        ensures
            r@ == self@.bgfifo,
    {
        &self.bgfifo
    }

    /// The registers.
    pub fn registers(&self) -> (r: Registers)
        ensures
            r == self@.registers,
    {
        self.registers
    }

    /// Hands out the frame to show, if one is ready, and notes that it has
    /// been shown.
    pub fn take_frame(&mut self) -> (r: Option<Vec<u32>>)
        requires
            old(self).wf(),
        ensures
            final(self).wf(),
            final(self)@ == (PpuModel { render_flag: false, ..old(self)@ }),
            match old(self)@.frame() {
                Some(pixels) => r matches Some(v) && v@ == pixels,
                None => r is None,
            },
    {
        if !self.render_flag {
            return None;
        }
        self.render_flag = false;
        if !self.on {
            Some(filled(0u32, PITCH))
        } else {
            let mut frame: Vec<u32> = Vec::new();
            let mut i: usize = 0;
            while i < PITCH
                invariant
                    i <= PITCH,
                    self.pixel_buffer.len() == PITCH,
                    frame.len() == i,
                    forall|k: int| 0 <= k < i ==> frame[k] == self.pixel_buffer[k],
                decreases PITCH - i,
            {
                frame.push(self.pixel_buffer[i]);
                i += 1;
            }
            Some(frame)
        }
    }

    /// Shows the frame on a display, if one is ready.
    pub fn update<D: GraphicsDriver>(&mut self, driver: &mut D)
        requires
            old(self).wf(),
        ensures
            final(self).wf(),
            final(self)@ == (PpuModel { render_flag: false, ..old(self)@ }),
    {
        match self.take_frame() {
            Some(frame) => {
                driver.render(frame.as_slice());
            },
            None => {},
        }
    }
}

impl BusListener for PPU {
    type Model = PpuModel;

    open spec fn model(&self) -> PpuModel {
        self@
    }

    open spec fn valid(&self) -> bool {
        self.wf()
    }

    open spec fn claims_of(m: PpuModel) -> Seq<Attach> {
        ppu_claims()
    }

    open spec fn read_of(m: PpuModel, address: Address) -> Result<Byte, Fault> {
        m.read(address)
    }

    open spec fn write_of(m: PpuModel, address: Address, value: Byte) -> Result<(PpuModel, bool), Fault> {
        m.write(address, value)
    }

    fn bus_attach(&self) -> (r: Vec<Attach>) {
        let r = vec![Attach::BlockRange(0x80, 0x9F), Attach::Block(0xFE), Attach::RegisterRange(0x40, 0x4B)];
        r
    }

    fn bus_read(&self, address: Address) -> (r: Result<Byte, Fault>) {
        if 0x8000 <= address && address <= 0x9FFF {
            Ok(self.vram[(address - 0x8000) as usize])
        } else if 0xFE00 <= address && address <= 0xFE9F {
            Ok(self.oam[(address - 0xFE00) as usize])
        } else if 0xFEA0 <= address && address <= 0xFEFF {
            Ok(0)
        } else {
            match self.registers.get(address) {
                Some(v) => Ok(v),
                None => Err(Fault::NotOwned(address)),
            }
        }
    }

    fn bus_write(&mut self, address: Address, value: Byte) -> (r: Result<bool, Fault>) {
        if 0x8000 <= address && address <= 0x9FFF {
            self.vram[(address - 0x8000) as usize] = value;
            Ok(false)
        } else if 0xFE00 <= address && address <= 0xFE9F {
            self.oam[(address - 0xFE00) as usize] = value;
            Ok(false)
        } else if 0xFEA0 <= address && address <= 0xFEFF {
            Ok(false)
        } else {
            self.registers.set(address, value)?;
            Ok(false)
        }
    }
}


/// The bit of the status register that lets a mode ask for the status
/// interrupt when it is entered. Drawing has none.
pub open spec fn stat_source(mode: Mode) -> u8 {
    match mode {
        Mode::HBlank => STAT_HBLANK_INTERRUPT,
        Mode::VBlank => STAT_VBLANK_INTERRUPT,
        Mode::OAM => STAT_OAM_INTERRUPT,
        Mode::Draw => 0,
    }
}

/// The bus after an optional request for an interrupt.
pub open spec fn raise_if(bus: BusModel, wanted: bool, source: InterruptType) -> Result<BusModel, Fault> {
    if wanted {
        bus.raise(source)
    } else {
        Ok(bus)
    }
}

/// A cycle count moved on by some cycles, modulo 65536.
pub open spec fn clock_after(clock: u16, cycles: u8) -> u16 {
    ((clock + cycles) % 0x10000) as u16
}

impl PpuModel {
    /// The controller in a mode, with the mode's number in the low two bits
    /// of the status register.
    pub open spec fn with_mode(self, mode: Mode) -> PpuModel {
        PpuModel {
            mode,
            registers: Registers {
                STAT: (self.registers.STAT & (0xFF ^ STAT_MODE_MASK)) | mode.index(),
                ..self.registers
            },
            ..self
        }
    }

    /// Enters a mode. The vertical blank asks for its interrupt; every mode
    /// but drawing asks for the status interrupt if its bit in the status
    /// register allows it. The mode is entered before either is asked for.
    pub open spec fn set_mode(self, bus: BusModel, mode: Mode) -> Ticked<PpuModel> {
        let entered = self.with_mode(mode);
        match raise_if(bus, mode == Mode::VBlank, InterruptType::VBlank) {
            Ok(b) => match raise_if(
                b,
                mode != Mode::Draw && entered.registers.STAT & stat_source(mode) != 0,
                InterruptType::LCDStat,
            ) {
                Ok(raised) => passed(entered, raised),
                Err(f) => stopped(entered, b, f),
            },
            Err(f) => stopped(entered, bus, f),
        }
    }

    pub open spec fn with_line(self, ly: u8) -> PpuModel {
        PpuModel { registers: Registers { LY: ly, ..self.registers }, ..self }
    }

    pub open spec fn with_clock(self, clock: u16) -> PpuModel {
        PpuModel { clock, ..self }
    }

    /// Starts a frame: the first line, in the scan of the object attribute
    /// memory, with no cycles spent.
    pub open spec fn reset(self, bus: BusModel) -> Ticked<PpuModel> {
        self.with_line(0).with_clock(0).set_mode(bus, Mode::OAM)
    }

    /// Time passing while the display is off: a blank frame is ready
    /// whenever more than the cycles of a frame have passed.
    pub open spec fn idle(self, cycles: u8) -> PpuModel {
        let clock = clock_after(self.clock, cycles);
        if SCREEN_CYCLES < clock {
            PpuModel { on: false, clock: (clock - SCREEN_CYCLES) as u16, render_flag: true, ..self }
        } else {
            PpuModel { on: false, clock, ..self }
        }
    }

    /// The address that the transfer reads next.
    pub open spec fn dma_source(self) -> Address {
        (self.registers.dma_address * 256 + self.registers.dma_counter) as Address
    }

    /// The byte that a transfer reads at an address: through the bus, but
    /// for the controller's own memory, which the bus cannot reach while
    /// time passes for the controller and which is read directly.
    pub open spec fn dma_read(self, bus: BusModel, source: Address) -> Result<Byte, Fault> {
        match bus.read_byte(source) {
            Err(Fault::Busy(_)) => self.read(source),
            r => r,
        }
    }

    /// The controller after at most `n` bytes of a transfer: one byte for
    /// each cycle, until 160 bytes are copied. A byte that cannot be read
    /// ends the transfer's progress there.
    pub open spec fn dma(self, bus: BusModel, n: nat) -> (PpuModel, Result<(), Fault>)
        decreases n,
    {
        if n == 0 || !self.registers.dma_active {
            (self, Ok(()))
        } else {
            match self.dma_read(bus, self.dma_source()) {
                Ok(data) => (PpuModel {
                    oam: self.oam.update(self.registers.dma_counter as int, data),
                    registers: Registers {
                        dma_counter: (self.registers.dma_counter + 1) as u8,
                        dma_active: self.registers.dma_counter + 1 < DISPLAY_WIDTH,
                        ..self.registers
                    },
                    ..self
                }).dma(bus, (n - 1) as nat),
                Err(f) => (self, Err(f)),
            }
        }
    }

    /// The controller with one more pixel on the line, or `None` once the
    /// line is full or the background has no pixel to give. The pixel is the
    /// sprite's where the sprites have one for the column, else the
    /// background's.
    pub open spec fn draw_pixel(self) -> Option<PpuModel> {
        if self.registers.LX >= DISPLAY_WIDTH {
            None
        } else {
            match self.bgfifo.pop() {
                (None, _) => None,
                (Some(background), bgfifo) => {
                    let (sprite, spfifo) = self.spfifo.pop(self.registers.LX);
                    let index = match sprite {
                        Some(s) => s,
                        None => background,
                    };
                    Some(
                        PpuModel {
                            pixels: self.pixels.update(
                                self.registers.LY * DISPLAY_WIDTH + self.registers.LX,
                                shade_of(index),
                            ),
                            registers: Registers { LX: (self.registers.LX + 1) as u8, ..self.registers },
                            bgfifo,
                            spfifo,
                            ..self
                        },
                    )
                },
            }
        }
    }

    /// The controller after at most `n` pixels.
    pub open spec fn draw_pixels(self, n: nat) -> PpuModel
        decreases n,
    {
        if n == 0 {
            self
        } else {
            match self.draw_pixel() {
                Some(drawn) => drawn.draw_pixels((n - 1) as nat),
                None => self,
            }
        }
    }

    /// One step of drawing: both fetchers move on by a phase, the
    /// background's first, then at most two pixels are drawn.
    pub open spec fn draw_step(self) -> (PpuModel, Result<(), Fault>) {
        let bgfifo = self.bgfifo.step(self.vram, self.registers);
        match self.spfifo.step(self.vram, self.registers) {
            Ok(spfifo) => ((PpuModel { bgfifo, spfifo, ..self }).draw_pixels(2), Ok(())),
            Err(f) => (PpuModel { bgfifo, ..self }, Err(f)),
        }
    }

    pub open spec fn draw_steps(self, n: nat) -> (PpuModel, Result<(), Fault>)
        decreases n,
    {
        if n == 0 {
            (self, Ok(()))
        } else {
            match self.draw_step() {
                (stepped, Ok(_)) => stepped.draw_steps((n - 1) as nat),
                (stepped, Err(f)) => (stepped, Err(f)),
            }
        }
    }

    /// The scan of the object attribute memory: one sprite is looked at
    /// each time, until 20 cycles have passed and drawing begins.
    pub open spec fn scan_line(self, bus: BusModel) -> Ticked<PpuModel> {
        if self.clock < OAM_CYCLES {
            passed(PpuModel { spfifo: self.spfifo.scan(self.oam, self.registers), ..self }, bus)
        } else {
            self.with_clock((self.clock - OAM_CYCLES) as u16).set_mode(bus, Mode::Draw)
        }
    }

    /// Drawing: two steps for each cycle, modulo 256, until the line is
    /// full and 43 cycles have passed and the horizontal blank begins.
    pub open spec fn draw_line(self, bus: BusModel, cycles: u8) -> Ticked<PpuModel> {
        match self.draw_steps(((cycles * 2) % 256) as nat) {
            (drawn, Ok(_)) => if drawn.registers.LX < DISPLAY_WIDTH || drawn.clock < DRAW_CYCLES {
                passed(drawn, bus)
            } else {
                drawn.with_clock((drawn.clock - DRAW_CYCLES) as u16).set_mode(bus, Mode::HBlank)
            },
            (drawn, Err(f)) => stopped(drawn, bus, f),
        }
    }

    /// The status register after the line is compared with the line that
    /// the program waits for.
    pub open spec fn compared(self) -> u8 {
        if self.registers.LY == self.registers.LYC {
            self.registers.STAT | STAT_LYC_FLAG
        } else {
            self.registers.STAT & (0xFF ^ STAT_LYC_FLAG)
        }
    }

    /// The controller at the end of a line, once the line is compared and
    /// both fetchers have started over.
    pub open spec fn cleared(self) -> PpuModel {
        PpuModel {
            clock: (self.clock - HBLANK_CYCLES) as u16,
            registers: Registers { STAT: self.compared(), LX: 0, ..self.registers },
            bgfifo: self.bgfifo.reset(),
            spfifo: self.spfifo.reset(),
            ..self
        }
    }

    /// The end of the horizontal blank, after 51 cycles: the line is
    /// compared, which may ask for the status interrupt, both fetchers
    /// start over, and the next line begins with the scan, or after the
    /// last line the vertical blank. The line counter moves once the
    /// vertical blank is entered, and before the scan is.
    pub open spec fn end_line(self, bus: BusModel) -> Ticked<PpuModel> {
        if self.clock < HBLANK_CYCLES {
            passed(self, bus)
        } else {
            match raise_if(
                bus,
                self.registers.LY == self.registers.LYC && self.compared() & STAT_LYC_INTERRUPT != 0,
                InterruptType::LCDStat,
            ) {
                Ok(b) => if self.registers.LY + 1 >= DISPLAY_HEIGHT {
                    let blank = self.cleared().set_mode(b, Mode::VBlank);
                    if blank.result is Ok {
                        passed(blank.component.with_line((self.registers.LY + 1) as u8), blank.bus)
                    } else {
                        blank
                    }
                } else {
                    self.cleared().with_line((self.registers.LY + 1) as u8).set_mode(b, Mode::OAM)
                },
                Err(f) => stopped(
                    PpuModel {
                        clock: (self.clock - HBLANK_CYCLES) as u16,
                        registers: Registers { STAT: self.compared(), ..self.registers },
                        ..self
                    },
                    bus,
                    f,
                ),
            }
        }
    }

    /// A line of the vertical blank, which lasts 114 cycles. After the last
    /// a frame is ready, and the first line begins with the scan.
    pub open spec fn blank_line(self, bus: BusModel) -> Ticked<PpuModel> {
        if self.clock < VBLANK_LINE_CYCLES {
            passed(self, bus)
        } else if self.registers.LY + 1 < VIRTUAL_DISPLAY_HEIGHT {
            passed(
                self.with_clock((self.clock - VBLANK_LINE_CYCLES) as u16).with_line((self.registers.LY + 1) as u8),
                bus,
            )
        } else {
            (PpuModel {
                clock: (self.clock - VBLANK_LINE_CYCLES) as u16,
                render_flag: true,
                ..self.with_line(0)
            }).set_mode(bus, Mode::OAM)
        }
    }

    /// What the mode does with the cycles.
    pub open spec fn advance(self, bus: BusModel, cycles: u8) -> Ticked<PpuModel> {
        match self.mode {
            Mode::OAM => self.scan_line(bus),
            Mode::Draw => self.draw_line(bus, cycles),
            Mode::HBlank => self.end_line(bus),
            Mode::VBlank => self.blank_line(bus),
        }
    }

    /// Switches the display on if it was off, which starts a frame.
    pub open spec fn wake(self, bus: BusModel) -> Ticked<PpuModel> {
        if self.on {
            passed(self, bus)
        } else {
            let started = self.reset(bus);
            if started.result is Ok {
                passed(PpuModel { on: true, ..started.component }, started.bus)
            } else {
                started
            }
        }
    }

    /// The controller and the bus after some cycles. With the display
    /// disabled only the cycles are counted. Else a transfer that is under
    /// way is served first, then the cycles are added to the count and the
    /// mode does its part.
    pub open spec fn tick(self, bus: BusModel, cycles: u8) -> Ticked<PpuModel> {
        if self.registers.LCDC & LCDC_DISPLAY_ENABLE == 0 {
            passed(self.idle(cycles), bus)
        } else {
            let awake = self.wake(bus);
            if awake.result is Ok {
                match awake.component.dma(awake.bus, cycles as nat) {
                    (served, Ok(_)) => served.with_clock(clock_after(served.clock, cycles)).advance(
                        awake.bus,
                        cycles,
                    ),
                    (served, Err(f)) => stopped(served, awake.bus, f),
                }
            } else {
                awake
            }
        }
    }
}

/// Whether the controller and the bus that an operation left behind are
/// what was to be expected, after success and after a fault alike.
pub open spec fn lands(r: Result<(), Fault>, ppu: PpuModel, bus: BusModel, expected: Ticked<PpuModel>) -> bool {
    ppu == expected.component && bus == expected.bus && ended(r, expected.result)
}

fn raise_when(bus: &mut Bus, wanted: bool, source: InterruptType) -> (r: Result<(), Fault>)
    requires
        old(bus).wf(),
    ensures
        final(bus).wf(),
        final(bus)@.devices.len() == old(bus)@.devices.len(),
        match raise_if(old(bus)@, wanted, source) {
            Ok(b) => r is Ok && final(bus)@ == b,
            Err(f) => r == Err::<(), Fault>(f) && final(bus)@ == old(bus)@,
        },
{
    if wanted {
        interrupt(bus, source)
    } else {
        Ok(())
    }
}

impl PPU {
    fn stat_bit(mode: Mode) -> (r: u8)
        ensures
            r == stat_source(mode),
    {
        match mode {
            Mode::HBlank => STAT_HBLANK_INTERRUPT,
            Mode::VBlank => STAT_VBLANK_INTERRUPT,
            Mode::OAM => STAT_OAM_INTERRUPT,
            Mode::Draw => 0,
        }
    }

    /// Enters a mode.
    fn set_mode(&mut self, bus: &mut Bus, mode: Mode) -> (r: Result<(), Fault>)
        requires
            old(self).wf(),
            old(bus).wf(),
            mode != Mode::VBlank ==> old(self)@.registers.LY < DISPLAY_HEIGHT,
        ensures
            final(self).wf(),
            final(bus).wf(),
            final(bus)@.devices.len() == old(bus)@.devices.len(),
            lands(r, final(self)@, final(bus)@, old(self)@.set_mode(old(bus)@, mode)),
    {
        self.mode = mode;
        self.registers.STAT &= 0xFF ^ STAT_MODE_MASK;
        self.registers.STAT |= mode.number();
        let vblank = match mode {
            Mode::VBlank => true,
            _ => false,
        };
        let draw = match mode {
            Mode::Draw => true,
            _ => false,
        };
        raise_when(bus, vblank, InterruptType::VBlank)?;
        raise_when(bus, !draw && self.registers.STAT & Self::stat_bit(mode) != 0, InterruptType::LCDStat)
    }

    /// Starts a frame.
    pub fn reset(&mut self, bus: &mut Bus) -> (r: Result<(), Fault>)
        requires
            old(self).wf(),
            old(bus).wf(),
        ensures
            final(self).wf(),
            final(bus).wf(),
            final(bus)@.devices.len() == old(bus)@.devices.len(),
            lands(r, final(self)@, final(bus)@, old(self)@.reset(old(bus)@)),
    {
        self.registers.LY = 0;
        self.clock = 0;
        self.set_mode(bus, Mode::OAM)
    }

    fn idle(&mut self, cycles: u8)
        requires
            old(self).wf(),
        ensures
            final(self).wf(),
            final(self)@ == old(self)@.idle(cycles),
    {
        self.on = false;
        self.clock = ((self.clock as u32 + cycles as u32) % 0x10000) as u16;
        if SCREEN_CYCLES < self.clock {
            self.clock -= SCREEN_CYCLES;
            self.render_flag = true;
        }
    }

    fn dma(&mut self, bus: &Bus, cycles: u8) -> (r: Result<(), Fault>)
        requires
            old(self).wf(),
            bus.wf(),
        ensures
            final(self).wf(),
            final(self)@ == old(self)@.dma(bus@, cycles as nat).0,
            ended(r, old(self)@.dma(bus@, cycles as nat).1),
    {
        let mut i: u8 = 0;
        while i < cycles && self.registers.dma_active
            invariant
                i <= cycles,
                self.wf(),
                bus.wf(),
                old(self)@.dma(bus@, cycles as nat) == self@.dma(bus@, (cycles - i) as nat),
            decreases cycles - i,
        {
            let counter = self.registers.dma_counter;
            let source: u16 = (self.registers.dma_address as u16) * 256 + counter as u16;
            let data = match bus.read_byte(source) {
                Ok(data) => data,
                Err(Fault::Busy(_)) => match self.bus_read(source) {
                    Ok(data) => data,
                    Err(f) => {
                        return Err(f);
                    },
                },
                Err(f) => {
                    return Err(f);
                },
            };
            self.oam[counter as usize] = data;
            self.registers.dma_counter += 1;
            self.registers.dma_active = self.registers.dma_counter < DISPLAY_WIDTH;
            i += 1;
        }
        Ok(())
    }

    fn draw_pixel(&mut self) -> (drawn: bool)
        requires
            old(self).wf(),
            old(self)@.mode != Mode::VBlank,
        ensures
            final(self).wf(),
            final(self)@.mode == old(self)@.mode,
            match old(self)@.draw_pixel() {
                Some(p) => drawn && final(self)@ == p,
                None => !drawn && final(self)@ == old(self)@,
            },
    {
        if DISPLAY_WIDTH <= self.registers.LX {
            return false;
        }
        proof {
            self.bgfifo.lemma_wf();
            self.spfifo.lemma_wf();
        }
        let background = match self.bgfifo.pop() {
            None => {
                return false;
            },
            Some(index) => index,
        };
        let pixel_index = match self.spfifo.pop(self.registers.LX) {
            None => background,
            Some(index) => index,
        };
        let buffer_index: usize = (self.registers.LY as usize) * (DISPLAY_WIDTH as usize) + (
        self.registers.LX as usize);
        self.pixel_buffer[buffer_index] = shade(pixel_index);
        self.registers.LX += 1;
        proof {
            self.bgfifo.lemma_wf();
            self.spfifo.lemma_wf();
        }
        true
    }

    fn draw_pixels(&mut self)
        requires
            old(self).wf(),
            old(self)@.mode != Mode::VBlank,
        ensures
            final(self).wf(),
            final(self)@.mode == old(self)@.mode,
            final(self)@ == old(self)@.draw_pixels(2),
    {
        if self.draw_pixel() {
            let ghost first = self@;
            assert(first.draw_pixels(1) == (match first.draw_pixel() {
                Some(p) => p.draw_pixels(0),
                None => first,
            }));
            self.draw_pixel();
        }
    }

    fn draw_step(&mut self) -> (r: Result<(), Fault>)
        requires
            old(self).wf(),
            old(self)@.mode != Mode::VBlank,
        ensures
            final(self).wf(),
            final(self)@.mode == old(self)@.mode,
            final(self)@ == old(self)@.draw_step().0,
            ended(r, old(self)@.draw_step().1),
    {
        self.bgfifo.step(self.vram.as_slice(), self.registers);
        proof {
            self.bgfifo.lemma_wf();
        }
        let stepped = self.spfifo.step(self.vram.as_slice(), self.registers);
        proof {
            self.spfifo.lemma_wf();
        }
        stepped?;
        self.draw_pixels();
        Ok(())
    }

    fn draw_steps(&mut self, steps: u16) -> (r: Result<(), Fault>)
        requires
            old(self).wf(),
            old(self)@.mode != Mode::VBlank,
        ensures
            final(self).wf(),
            final(self)@.mode == old(self)@.mode,
            final(self)@ == old(self)@.draw_steps(steps as nat).0,
            ended(r, old(self)@.draw_steps(steps as nat).1),
    {
        let mut i: u16 = 0;
        while i < steps
            invariant
                i <= steps,
                self.wf(),
                self@.mode == old(self)@.mode,
                self@.mode != Mode::VBlank,
                old(self)@.draw_steps(steps as nat) == self@.draw_steps((steps - i) as nat),
            decreases steps - i,
        {
            self.draw_step()?;
            i += 1;
        }
        Ok(())
    }

    fn scan_line(&mut self, bus: &mut Bus) -> (r: Result<(), Fault>)
        requires
            old(self).wf(),
            old(bus).wf(),
            old(self)@.mode == Mode::OAM,
        ensures
            final(self).wf(),
            final(bus).wf(),
            final(bus)@.devices.len() == old(bus)@.devices.len(),
            lands(r, final(self)@, final(bus)@, old(self)@.scan_line(old(bus)@)),
    {
        if self.clock < OAM_CYCLES {
            self.spfifo.scan_next_oam_table_entry(self.oam.as_slice(), &self.registers);
            proof {
                self.spfifo.lemma_wf();
            }
            return Ok(());
        }
        self.clock -= OAM_CYCLES;
        self.set_mode(bus, Mode::Draw)
    }

    fn draw_line(&mut self, bus: &mut Bus, cycles: u8) -> (r: Result<(), Fault>)
        requires
            old(self).wf(),
            old(bus).wf(),
            old(self)@.mode == Mode::Draw,
        ensures
            final(self).wf(),
            final(bus).wf(),
            final(bus)@.devices.len() == old(bus)@.devices.len(),
            lands(r, final(self)@, final(bus)@, old(self)@.draw_line(old(bus)@, cycles)),
    {
        self.draw_steps((cycles as u16 * 2) % 256)?;
        if self.registers.LX < DISPLAY_WIDTH || self.clock < DRAW_CYCLES {
            return Ok(());
        }
        self.clock -= DRAW_CYCLES;
        self.set_mode(bus, Mode::HBlank)
    }

    fn end_line(&mut self, bus: &mut Bus) -> (r: Result<(), Fault>)
        requires
            old(self).wf(),
            old(bus).wf(),
            old(self)@.mode == Mode::HBlank,
        ensures
            final(self).wf(),
            final(bus).wf(),
            final(bus)@.devices.len() == old(bus)@.devices.len(),
            lands(r, final(self)@, final(bus)@, old(self)@.end_line(old(bus)@)),
    {
        if self.clock < HBLANK_CYCLES {
            return Ok(());
        }
        self.clock -= HBLANK_CYCLES;
        let matched = self.registers.LY == self.registers.LYC;
        if matched {
            self.registers.STAT |= STAT_LYC_FLAG;
        } else {
            self.registers.STAT &= 0xFF ^ STAT_LYC_FLAG;
        }
        raise_when(bus, matched && self.registers.STAT & STAT_LYC_INTERRUPT != 0, InterruptType::LCDStat)?;
        self.bgfifo.reset();
        self.spfifo.reset();
        proof {
            self.bgfifo.lemma_wf();
            self.spfifo.lemma_wf();
        }
        self.registers.LX = 0;
        let line = self.registers.LY + 1;
        if line >= DISPLAY_HEIGHT {
            self.set_mode(bus, Mode::VBlank)?;
            self.registers.LY = line;
            Ok(())
        } else {
            self.registers.LY = line;
            self.set_mode(bus, Mode::OAM)
        }
    }

    fn blank_line(&mut self, bus: &mut Bus) -> (r: Result<(), Fault>)
        requires
            old(self).wf(),
            old(bus).wf(),
            old(self)@.mode == Mode::VBlank,
        ensures
            final(self).wf(),
            final(bus).wf(),
            final(bus)@.devices.len() == old(bus)@.devices.len(),
            lands(r, final(self)@, final(bus)@, old(self)@.blank_line(old(bus)@)),
    {
        if self.clock < VBLANK_LINE_CYCLES {
            return Ok(());
        }
        self.clock -= VBLANK_LINE_CYCLES;
        let line = self.registers.LY + 1;
        if line < VIRTUAL_DISPLAY_HEIGHT {
            self.registers.LY = line;
            return Ok(());
        }
        self.render_flag = true;
        self.registers.LY = 0;
        self.set_mode(bus, Mode::OAM)
    }

    fn wake(&mut self, bus: &mut Bus) -> (r: Result<(), Fault>)
        requires
            old(self).wf(),
            old(bus).wf(),
        ensures
            final(self).wf(),
            final(bus).wf(),
            final(bus)@.devices.len() == old(bus)@.devices.len(),
            lands(r, final(self)@, final(bus)@, old(self)@.wake(old(bus)@)),
    {
        if !self.on {
            self.reset(bus)?;
            self.on = true;
        }
        Ok(())
    }

    fn advance(&mut self, bus: &mut Bus, cycles: u8) -> (r: Result<(), Fault>)
        requires
            old(self).wf(),
            old(bus).wf(),
        ensures
            final(self).wf(),
            final(bus).wf(),
            final(bus)@.devices.len() == old(bus)@.devices.len(),
            lands(r, final(self)@, final(bus)@, old(self)@.advance(old(bus)@, cycles)),
    {
        match self.mode {
            Mode::OAM => self.scan_line(bus),
            Mode::Draw => self.draw_line(bus, cycles),
            Mode::HBlank => self.end_line(bus),
            Mode::VBlank => self.blank_line(bus),
        }
    }
}

impl ClockListener for PPU {
    open spec fn tick_of(m: PpuModel, bus: BusModel, cycles: u8) -> Ticked<PpuModel> {
        m.tick(bus, cycles)
    }

    fn callback(&mut self, bus: &mut Bus, cycles: u8) -> (r: Result<(), Fault>) {
        if self.registers.LCDC & LCDC_DISPLAY_ENABLE == 0 {
            self.idle(cycles);
            return Ok(());
        }
        self.wake(bus)?;
        self.dma(bus, cycles)?;
        self.clock = ((self.clock as u32 + cycles as u32) % 0x10000) as u16;
        self.advance(bus, cycles)
    }
}


impl PpuModel {
    /// While the scan of the object attribute memory has not lasted 20
    /// cycles, the controller stays in it and counts the cycles.
    pub proof fn law_scan_lasts(self, bus: BusModel, cycles: u8)
        requires
            self.on,
            self.mode == Mode::OAM,
            self.registers.LCDC & LCDC_DISPLAY_ENABLE != 0,
            self.dma(bus, cycles as nat).1 is Ok,
            self.clock + cycles < OAM_CYCLES,
        ensures
            self.tick(bus, cycles).result is Ok,
            self.tick(bus, cycles).component.mode == Mode::OAM,
            self.tick(bus, cycles).component.clock == self.clock + cycles,
            self.tick(bus, cycles).bus == bus,
    {
        self.lemma_dma_keeps(bus, cycles as nat);
    }

    /// Once the scan of the object attribute memory has lasted exactly 20
    /// cycles, the controller is drawing, with no cycles spent yet, and
    /// has asked for no interrupt.
    pub proof fn law_scan_ends(self, bus: BusModel, cycles: u8)
        requires
            self.on,
            self.mode == Mode::OAM,
            self.registers.LCDC & LCDC_DISPLAY_ENABLE != 0,
            self.dma(bus, cycles as nat).1 is Ok,
            self.clock + cycles == OAM_CYCLES,
        ensures
            self.tick(bus, cycles).result is Ok,
            self.tick(bus, cycles).component.mode == Mode::Draw,
            self.tick(bus, cycles).component.clock == 0,
            self.tick(bus, cycles).bus == bus,
    {
        self.lemma_dma_keeps(bus, cycles as nat);
    }

    /// A transfer changes nothing but the object attribute memory and its
    /// own progress.
    pub proof fn lemma_dma_keeps(self, bus: BusModel, n: nat)
        ensures
            ({
                let p = self.dma(bus, n).0;
                &&& p.on == self.on
                &&& p.mode == self.mode
                &&& p.clock == self.clock
                &&& p.registers.LCDC == self.registers.LCDC
                &&& p.registers.STAT == self.registers.STAT
            }),
        decreases n,
    {
        if n != 0 && self.registers.dma_active && self.dma_read(bus, self.dma_source()) is Ok {
            let data = self.dma_read(bus, self.dma_source())->Ok_0;
            let next = PpuModel {
                oam: self.oam.update(self.registers.dma_counter as int, data),
                registers: Registers {
                    dma_counter: (self.registers.dma_counter + 1) as u8,
                    dma_active: self.registers.dma_counter + 1 < DISPLAY_WIDTH,
                    ..self.registers
                },
                ..self
            };
            next.lemma_dma_keeps(bus, (n - 1) as nat);
        }
    }

    /// A transfer from the controller's own video RAM copies what the
    /// video RAM holds, also while time passes for the controller and its
    /// place on the bus is vacant.
    pub proof fn law_dma_reads_own_memory(self, bus: BusModel, source: Address)
        requires
            0x8000 <= source <= 0x9FFF,
            bus.read_byte(source) == Err::<Byte, Fault>(Fault::Busy(source)),
        ensures
            self.dma_read(bus, source) == Ok::<Byte, Fault>(self.vram[source - 0x8000]),
    {
    }
}

} // verus!
