//! The fetcher of the background: it reads tiles from video RAM, a phase at
//! a time, and queues their pixels.

use vstd::prelude::*;
use crate::bus::{Address, Byte};
use crate::ppu::fifo::{FifoState, PixelFifo};
use crate::ppu::{
    pixel_at, pixel_of, Point, Registers, LCDC_TILE_DATA_SELECT, LCDC_TILE_MAP_SELECT, TILE_DATA_SIGNED_BASE,
    TILE_MAP_HI_BASE, TILE_MAP_LO_BASE, VRAM_SIZE,
};

verus! {

pub struct BackgroundFifo {
    fifo: PixelFifo,
    state: FifoState,
    offset: Point,
    column: u8,
    discard_columns: u8,
    tile_data: (u8, u8),
    tile_data_address: Address,
}

/// What a [`BackgroundFifo`] holds.
pub struct BackgroundModel {
    /// The queued pixels, the oldest first.
    pub pixels: Seq<u8>,
    pub state: FifoState,
    /// The position in the background of the tile fetched last.
    pub offset: Point,
    /// The column of the line that the next tile starts at.
    pub column: u8,
    /// The pixels still to be dropped before one is queued.
    pub discard_columns: u8,
    /// The low and the high byte of the row of the tile.
    pub tile_data: (u8, u8),
    /// Where in video RAM the row of the tile lies.
    pub tile_data_address: Address,
}

/// Where in video RAM the row of a tile lies. With unsigned numbering the
/// tiles count up from the start. With signed numbering the tiles below 128
/// count up from the signed base, and those from 128 on count down from
/// twice that base.
pub open spec fn tile_row_address(unsigned: bool, tile_no: u8, row: int) -> int {
    let tile_index = tile_no * 16 + row * 2;
    if unsigned {
        tile_index
    } else if tile_no < 128 {
        TILE_DATA_SIGNED_BASE + tile_index
    } else {
        2 * TILE_DATA_SIGNED_BASE - tile_index
    }
}

/// The queue and the count of pixels to drop after the pixels of a row are
/// taken in turn, `n` of them left, from bit `n - 1` down to bit 0: a pixel
/// is dropped while the count is not zero, else queued.
pub open spec fn push_row(pixels: Seq<u8>, discard: u8, lo: u8, hi: u8, n: nat) -> (Seq<u8>, u8)
    decreases n,
{
    if n == 0 {
        (pixels, discard)
    } else if discard != 0 {
        push_row(pixels, (discard - 1) as u8, lo, hi, (n - 1) as nat)
    } else {
        push_row(pixels.push(pixel_of(lo, hi, (n - 1) as u8)), 0, lo, hi, (n - 1) as nat)
    }
}

impl BackgroundModel {
    pub open spec fn wf(self) -> bool {
        self.pixels.len() <= 16 && self.tile_data_address + 1 < VRAM_SIZE
    }

    /// The fetcher after the first phase: it finds the tile under the
    /// current column of the current line in the tile map, and the address
    /// of the tile's row. From the second tile of a line on, the horizontal
    /// scroll is the count of pixels to drop.
    pub open spec fn fetch_tile_no(self, vram: Seq<Byte>, registers: Registers) -> BackgroundModel {
        let tile_map_base = if registers.LCDC & LCDC_TILE_MAP_SELECT == 0 {
            TILE_MAP_LO_BASE
        } else {
            TILE_MAP_HI_BASE
        };
        let x = (self.column + registers.SCX) % 0xFF;
        let y = (registers.LY + registers.SCY) % 0xFF;
        let map_index = (y / 8) * 32 + x / 8;
        let tile_no = vram[tile_map_base + map_index];
        BackgroundModel {
            discard_columns: if self.column != 0 {
                registers.SCX
            } else {
                self.discard_columns
            },
            offset: Point { x: x as u16, y: y as u16 },
            tile_data_address: tile_row_address(
                registers.LCDC & LCDC_TILE_DATA_SELECT != 0,
                tile_no,
                y % 8,
            ) as Address,
            ..self
        }
    }

    /// The fetcher after the last phase: the eight pixels of the row are
    /// dropped or queued, and the column moves on by eight, modulo 256.
    pub open spec fn push_tile(self) -> BackgroundModel {
        let (pixels, discard) = push_row(self.pixels, self.discard_columns, self.tile_data.0, self.tile_data.1, 8);
        BackgroundModel { pixels, discard_columns: discard, column: ((self.column + 8) % 256) as u8, ..self }
    }

    /// The fetcher one phase on. The last phase waits, and the fetcher stays
    /// in it, while more than eight pixels are queued.
    pub open spec fn step(self, vram: Seq<Byte>, registers: Registers) -> BackgroundModel {
        match self.state {
            FifoState::FetchTileNo => BackgroundModel {
                state: FifoState::FetchTileLo,
                ..self.fetch_tile_no(vram, registers)
            },
            FifoState::FetchTileLo => BackgroundModel {
                state: FifoState::FetchTileHi,
                tile_data: (vram[self.tile_data_address as int], self.tile_data.1),
                ..self
            },
            FifoState::FetchTileHi => BackgroundModel {
                state: FifoState::PushTile,
                tile_data: (self.tile_data.0, vram[self.tile_data_address + 1]),
                ..self
            },
            FifoState::PushTile => if self.pixels.len() > 8 {
                self
            } else {
                BackgroundModel { state: FifoState::FetchTileNo, ..self.push_tile() }
            },
        }
    }

    /// The oldest pixel, if there is one, and the fetcher without it.
    pub open spec fn pop(self) -> (Option<u8>, BackgroundModel) {
        if self.pixels.len() > 0 {
            (Some(self.pixels[0]), BackgroundModel { pixels: self.pixels.drop_first(), ..self })
        } else {
            (None, self)
        }
    }

    /// The fetcher at the start of a line.
    pub open spec fn reset(self) -> BackgroundModel {
        BackgroundModel { pixels: Seq::empty(), state: FifoState::FetchTileNo, column: 0, ..self }
    }
}

impl BackgroundFifo {
    pub closed spec fn view(&self) -> BackgroundModel {
        BackgroundModel {
            pixels: self.fifo@,
            state: self.state,
            offset: self.offset,
            column: self.column,
            discard_columns: self.discard_columns,
            tile_data: self.tile_data,
            tile_data_address: self.tile_data_address,
        }
    }

    pub closed spec fn wf(&self) -> bool {
        self.fifo.wf() && self.tile_data_address + 1 < VRAM_SIZE
    }

    /// A well-formed fetcher has a well-formed model.
    pub proof fn lemma_wf(&self)
        requires
            self.wf(),
        ensures
            self@.wf(),
    {
        self.fifo.lemma_bounds();
    }

    pub fn new() -> (r: Self)
        ensures
            r.wf(),
            r@ == (BackgroundModel {
                pixels: Seq::empty(),
                state: FifoState::FetchTileNo,
                offset: Point { x: 0, y: 0 },
                column: 0,
                discard_columns: 0,
                tile_data: (0u8, 0u8),
                tile_data_address: 0,
            }),
    {
        Self {
            fifo: PixelFifo::new(),
            state: FifoState::FetchTileNo,
            offset: Point { x: 0, y: 0 },
            column: 0,
            discard_columns: 0,
            tile_data: (0, 0),
            tile_data_address: 0,
        }
    }

    /// The phase that the fetcher is in.
    pub fn state(&self) -> (r: FifoState)
        ensures
            r == self@.state,
    {
        self.state
    }

    fn fetch_tile_no(&mut self, vram: &[Byte], registers: Registers)
        requires
            old(self).wf(),
            vram.len() >= VRAM_SIZE,
        ensures
            final(self).wf(),
            final(self)@ == old(self)@.fetch_tile_no(vram@, registers),
    {
        let tile_map_base: u16 = if registers.LCDC & LCDC_TILE_MAP_SELECT == 0 {
            TILE_MAP_LO_BASE
        } else {
            TILE_MAP_HI_BASE
        };
        if self.column != 0 {
            self.discard_columns = registers.SCX;
        }
        let x: u16 = (self.column as u16 + registers.SCX as u16) % 0xFF;
        let y: u16 = (registers.LY as u16 + registers.SCY as u16) % 0xFF;
        self.offset = Point { x, y };
        assert(((y & 0xF8) << 2) == (y / 8) * 32 && (x >> 3) == x / 8 && ((y % 8) << 1) == (y % 8) * 2) by (bit_vector)
            requires
                x < 255,
                y < 255,
        ;
        let map_index: u16 = ((y & 0xF8) << 2) + (x >> 3);
        let tile_no: u8 = vram[(tile_map_base + map_index) as usize];
        let number: u16 = tile_no as u16;
        let row: u16 = (y % 8) << 1;
        assert((number << 4) == number * 16 && ((number & 0x80 == 0) == (number < 128))) by (bit_vector)
            requires
                number < 256,
        ;
        let tile_index: u16 = (number << 4) + row;
        assert(0x0800 <= tile_index < 0x1000 ==> (tile_index ^ 0x0800) == (tile_index - 0x0800) as u16) by (bit_vector);
        self.tile_data_address = if registers.LCDC & LCDC_TILE_DATA_SELECT == 0 {
            if number & 0x80 == 0 {
                TILE_DATA_SIGNED_BASE + tile_index
            } else {
                TILE_DATA_SIGNED_BASE - (tile_index ^ 0x0800)
            }
        } else {
            tile_index
        };
    }

    fn push_tile(&mut self)
        requires
            old(self).wf(),
            old(self)@.pixels.len() <= 8,
        ensures
            final(self).wf(),
            final(self)@ == old(self)@.push_tile(),
    {
        let lo = self.tile_data.0;
        let hi = self.tile_data.1;
        let mut n: u8 = 8;
        while n > 0
            invariant
                n <= 8,
                self.fifo.wf(),
                self.fifo@.len() <= 16 - n,
                self.tile_data_address == old(self).tile_data_address,
                self.state == old(self).state,
                self.offset == old(self).offset,
                self.column == old(self).column,
                self.tile_data == old(self).tile_data,
                lo == self.tile_data.0,
                hi == self.tile_data.1,
                push_row(old(self)@.pixels, old(self)@.discard_columns, lo, hi, 8) == push_row(
                    self.fifo@,
                    self.discard_columns,
                    lo,
                    hi,
                    n as nat,
                ),
            decreases n,
        {
            if self.discard_columns != 0 {
                self.discard_columns -= 1;
            } else {
                let pixel = pixel_at(lo, hi, n - 1);
                self.fifo.push(pixel);
            }
            n -= 1;
        }
        self.column = if self.column >= 248 {
            self.column - 248
        } else {
            self.column + 8
        };
    }

    /// Moves the fetcher on by one phase.
    pub fn step(&mut self, vram: &[Byte], registers: Registers)
        requires
            old(self).wf(),
            vram.len() >= VRAM_SIZE,
        ensures
            final(self).wf(),
            final(self)@ == old(self)@.step(vram@, registers),
    {
        match self.state {
            FifoState::FetchTileNo => {
                self.fetch_tile_no(vram, registers);
            },
            FifoState::FetchTileLo => {
                self.tile_data.0 = vram[self.tile_data_address as usize];
            },
            FifoState::FetchTileHi => {
                self.tile_data.1 = vram[(self.tile_data_address + 1) as usize];
            },
            FifoState::PushTile => {
                if self.fifo.len() > 8 {
                    return ;
                }
                self.push_tile();
            },
        }
        self.state.next();
    }

    /// Takes the oldest pixel out of the queue, if there is one.
    pub fn pop(&mut self) -> (r: Option<u8>)
        requires
            old(self).wf(),
        ensures
            final(self).wf(),
            (r, final(self)@) == old(self)@.pop(),
    {
        self.fifo.pop()
    }

    /// Empties the queue and starts over at the first column.
    pub fn reset(&mut self)
        requires
            old(self).wf(),
        ensures
            final(self).wf(),
            final(self)@ == old(self)@.reset(),
    {
        self.fifo.clear();
        self.state = FifoState::FetchTileNo;
        self.column = 0;
    }
}

} // verus!
