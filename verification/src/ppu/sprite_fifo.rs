//! The fetcher of the sprites: it picks the sprites of a line out of the
//! object attribute memory, sorted by column, and queues their pixels.

use vstd::prelude::*;
use crate::bus::{Address, Byte, Fault};
use crate::ppu::fifo::{FifoState, PixelFifo};
use crate::ppu::{
    pixel_at, pixel_of, Registers, LCDC_SPRITE_ENABLE, LCDC_SPRITE_SIZE, MAX_SPRITES_PER_LINE, VRAM_BASE_ADDRESS,
    VRAM_SIZE,
};

verus! {

/// The number of sprites in the object attribute memory.
pub const OAM_ENTRIES: usize = 40;

/// One sprite as the object attribute memory describes it.
#[derive(Clone, Copy, Debug, PartialEq, Eq, Structural)]
pub struct OamEntry {
    pub x: u8,
    pub y: u8,
    pub tile: u8,
    pub attributes: u8,
}

impl OamEntry {
    pub fn new() -> (r: Self)
        ensures
            r == (OamEntry { x: 0, y: 0, tile: 0, attributes: 0 }),
    {
        Self { x: 0, y: 0, tile: 0, attributes: 0 }
    }
}

/// The sprite at an index of the object attribute memory: four bytes, for
/// the line, the column, the tile and the attributes.
pub open spec fn oam_entry(oam: Seq<Byte>, index: int) -> OamEntry {
    OamEntry { y: oam[4 * index], x: oam[4 * index + 1], tile: oam[4 * index + 2], attributes: oam[4 * index + 3] }
}

/// The height of a sprite in lines.
pub open spec fn sprite_height(lcdc: u8) -> int {
    if lcdc & LCDC_SPRITE_SIZE != 0 {
        16
    } else {
        8
    }
}

/// Whether a sprite is on the screen and crosses the line: its column and
/// its line are in range, and the line is one of the sprite's, which start
/// 16 above the line it names.
pub open spec fn on_line(e: OamEntry, ly: u8, lcdc: u8) -> bool {
    &&& 0 < e.x < 160
    &&& 0 < e.y < 168
    &&& e.y - 16 <= ly < e.y - 16 + sprite_height(lcdc)
}

/// The sprites are in the order of their columns.
pub open spec fn sorted(table: Seq<OamEntry>) -> bool {
    forall|i: int, j: int| 0 <= i <= j < table.len() ==> table[i].x <= table[j].x
}

/// The first index from `from` on whose sprite does not lie left of column
/// `x`, or the length of the table.
pub open spec fn rank(table: Seq<OamEntry>, x: u8, from: int) -> int
    decreases table.len() - from,
{
    if from >= table.len() || table[from].x >= x {
        from
    } else {
        rank(table, x, from + 1)
    }
}

/// Every sprite before the rank lies left of the column, and the sprite at
/// the rank does not.
pub proof fn lemma_rank(table: Seq<OamEntry>, x: u8, from: int)
    requires
        0 <= from <= table.len(),
    ensures
        from <= rank(table, x, from) <= table.len(),
        forall|j: int| from <= j < rank(table, x, from) ==> (#[trigger] table[j]).x < x,
        rank(table, x, from) < table.len() ==> table[rank(table, x, from)].x >= x,
    decreases table.len() - from,
{
    if from < table.len() && table[from].x < x {
        lemma_rank(table, x, from + 1);
    }
}

/// The queues after the pixels of a sprite's row are taken in turn, `n` of
/// them left, from bit `n - 1` down to bit 0: a pixel is dropped while the
/// count is not zero, else queued together with its column, which is the
/// sprite's column plus the number of the bit.
pub open spec fn push_sprite_row(pixels: Seq<u8>, columns: Seq<u8>, discard: u8, lo: u8, hi: u8, x: u8, n: nat) -> (
    Seq<u8>,
    Seq<u8>,
    u8,
)
    decreases n,
{
    if n == 0 {
        (pixels, columns, discard)
    } else if discard != 0 {
        push_sprite_row(pixels, columns, (discard - 1) as u8, lo, hi, x, (n - 1) as nat)
    } else {
        push_sprite_row(
            pixels.push(pixel_of(lo, hi, (n - 1) as u8)),
            columns.push((x + n - 1) as u8),
            0,
            lo,
            hi,
            x,
            (n - 1) as nat,
        )
    }
}

/// What a [`SpriteFifo`] holds.
pub struct SpriteModel {
    /// The queued pixels, the oldest first.
    pub pixels: Seq<u8>,
    /// The column of each queued pixel.
    pub columns: Seq<u8>,
    pub state: FifoState,
    /// The sprites found on the line so far, by column.
    pub table: Seq<OamEntry>,
    /// The sprite of the table that is fetched next.
    pub entry_index: usize,
    /// The sprite of the object attribute memory that is looked at next.
    pub scan_index: usize,
    pub column: u8,
    pub discard_columns: u8,
    pub tile_data: (u8, u8),
    pub tile_data_address: Address,
}

impl SpriteModel {
    pub open spec fn wf(self) -> bool {
        &&& self.pixels.len() == self.columns.len()
        &&& self.pixels.len() <= 16
        &&& self.table.len() <= MAX_SPRITES_PER_LINE
        &&& sorted(self.table)
        &&& forall|i: int| 0 <= i < self.table.len() ==> 0 < (#[trigger] self.table[i]).x < 160
        &&& self.scan_index <= OAM_ENTRIES
        &&& self.state != FifoState::FetchTileNo ==> self.entry_index < self.table.len()
        &&& self.tile_data_address + 1 < VRAM_SIZE
    }

    /// The fetcher after it has looked at the next sprite of the object
    /// attribute memory: a sprite that crosses the line enters the table
    /// before the first sprite that does not lie left of it. Once all 40
    /// have been looked at nothing happens, and a sprite that would be the
    /// eleventh of the line is dropped.
    pub open spec fn scan(self, oam: Seq<Byte>, registers: Registers) -> SpriteModel {
        if self.scan_index >= OAM_ENTRIES {
            self
        } else {
            let entry = oam_entry(oam, self.scan_index as int);
            let scanned = SpriteModel { scan_index: (self.scan_index + 1) as usize, ..self };
            if on_line(entry, registers.LY, registers.LCDC) && self.table.len() < MAX_SPRITES_PER_LINE {
                SpriteModel { table: self.table.insert(rank(self.table, entry.x, 0), entry), ..scanned }
            } else {
                scanned
            }
        }
    }

    /// Where in video RAM the row of a sprite lies that crosses a line:
    /// 16 bytes for each tile and two for each line below the sprite's
    /// first.
    pub open spec fn row_address(entry: OamEntry, ly: u8) -> int {
        entry.tile * 16 + (ly + 16 - entry.y) * 2
    }

    /// The fetcher after the first phase, once the fetcher's column lies
    /// left of the sprite's: the column moves on by one, a sprite that
    /// starts left of column 8 has its missing pixels counted for dropping,
    /// and the address of the sprite's row is found. A row outside video
    /// RAM is a fault.
    pub open spec fn fetch_tile_no(self, registers: Registers) -> Result<SpriteModel, Fault> {
        let entry = self.table[self.entry_index as int];
        let address = Self::row_address(entry, registers.LY);
        if 0 <= address && address + 1 < VRAM_SIZE {
            Ok(
                SpriteModel {
                    state: FifoState::FetchTileLo,
                    column: (self.column + 1) as u8,
                    discard_columns: if entry.x < 8 {
                        (8 - entry.x) as u8
                    } else {
                        self.discard_columns
                    },
                    tile_data_address: address as Address,
                    ..self
                },
            )
        } else {
            Err(Fault::NotOwned(((VRAM_BASE_ADDRESS + address) % 0x10000) as Address))
        }
    }

    /// The fetcher after the last phase: the eight pixels of the row are
    /// dropped or queued, the next sprite of the table is up, and the
    /// column moves on by eight less what is still to be dropped, modulo
    /// 256.
    pub open spec fn push_tile(self) -> SpriteModel {
        let (pixels, columns, discard) = push_sprite_row(
            self.pixels,
            self.columns,
            self.discard_columns,
            self.tile_data.0,
            self.tile_data.1,
            self.table[self.entry_index as int].x,
            8,
        );
        SpriteModel {
            state: FifoState::FetchTileNo,
            pixels,
            columns,
            discard_columns: discard,
            entry_index: (self.entry_index + 1) as usize,
            column: ((self.column + 8 - discard) % 256) as u8,
            ..self
        }
    }

    /// The fetcher one phase on. Nothing happens while sprites are switched
    /// off. The first phase waits for a sprite in the table that the
    /// fetcher's column lies left of; the last waits while more than eight
    /// pixels are queued.
    pub open spec fn step(self, vram: Seq<Byte>, registers: Registers) -> Result<SpriteModel, Fault> {
        if registers.LCDC & LCDC_SPRITE_ENABLE == 0 {
            Ok(self)
        } else {
            match self.state {
                FifoState::FetchTileNo => if self.entry_index < self.table.len() && self.column
                    < self.table[self.entry_index as int].x {
                    self.fetch_tile_no(registers)
                } else {
                    Ok(self)
                },
                FifoState::FetchTileLo => Ok(
                    SpriteModel {
                        state: FifoState::FetchTileHi,
                        tile_data: (vram[self.tile_data_address as int], self.tile_data.1),
                        ..self
                    },
                ),
                FifoState::FetchTileHi => Ok(
                    SpriteModel {
                        state: FifoState::PushTile,
                        tile_data: (self.tile_data.0, vram[self.tile_data_address + 1]),
                        ..self
                    },
                ),
                FifoState::PushTile => if self.pixels.len() > 8 {
                    Ok(self)
                } else {
                    Ok(self.push_tile())
                },
            }
        }
    }

    /// The oldest pixel, if there is one and the display has reached its
    /// column, and the fetcher without it.
    pub open spec fn pop(self, x: u8) -> (Option<u8>, SpriteModel) {
        if self.pixels.len() > 0 && x >= self.columns[0] {
            (
                Some(self.pixels[0]),
                SpriteModel { pixels: self.pixels.drop_first(), columns: self.columns.drop_first(), ..self },
            )
        } else {
            (None, self)
        }
    }

    /// The fetcher at the start of a line.
    pub open spec fn reset(self) -> SpriteModel {
        SpriteModel {
            pixels: Seq::empty(),
            columns: Seq::empty(),
            state: FifoState::FetchTileNo,
            column: 0,
            entry_index: 0,
            scan_index: 0,
            table: Seq::empty(),
            ..self
        }
    }
}

pub struct SpriteFifo {
    fifo: PixelFifo,
    entry_fifo: PixelFifo,
    state: FifoState,
    oam_table: [OamEntry; 10],
    oam_table_size: usize,
    oam_entry_index: usize,
    oam_scan_index: usize,
    column: u8,
    discard_columns: u8,
    tile_data: (u8, u8),
    tile_data_address: Address,
}

impl SpriteFifo {
    pub closed spec fn view(&self) -> SpriteModel {
        SpriteModel {
            pixels: self.fifo@,
            columns: self.entry_fifo@,
            state: self.state,
            table: self.oam_table@.take(self.oam_table_size as int),
            entry_index: self.oam_entry_index,
            scan_index: self.oam_scan_index,
            column: self.column,
            discard_columns: self.discard_columns,
            tile_data: self.tile_data,
            tile_data_address: self.tile_data_address,
        }
    }

    pub closed spec fn wf(&self) -> bool {
        &&& self.fifo.wf()
        &&& self.entry_fifo.wf()
        &&& self.oam_table_size <= MAX_SPRITES_PER_LINE
        &&& self@.wf()
    }

    /// A well-formed fetcher has a well-formed model.
    pub proof fn lemma_wf(&self)
        requires
            self.wf(),
        ensures
            self@.wf(),
    {
    }

    pub fn new() -> (r: Self)
        ensures
            r.wf(),
            r@ == (SpriteModel {
                pixels: Seq::empty(),
                columns: Seq::empty(),
                state: FifoState::FetchTileNo,
                table: Seq::empty(),
                entry_index: 0,
                scan_index: 0,
                column: 0,
                discard_columns: 0,
                tile_data: (0u8, 0u8),
                tile_data_address: 0,
            }),
    {
        let r = Self {
            fifo: PixelFifo::new(),
            entry_fifo: PixelFifo::new(),
            state: FifoState::FetchTileNo,
            oam_table: [OamEntry::new();10],
            oam_table_size: 0,
            oam_entry_index: 0,
            oam_scan_index: 0,
            column: 0,
            discard_columns: 0,
            tile_data: (0, 0),
            tile_data_address: 0,
        };
        assert(r@.table =~= Seq::empty());
        r
    }

    /// The sprites found on the line so far, by column.
    pub fn table(&self) -> (r: Vec<OamEntry>)
        requires
            self.wf(),
        ensures
            r@ == self@.table,
    {
        let mut r: Vec<OamEntry> = Vec::new();
        let mut i: usize = 0;
        while i < self.oam_table_size
            invariant
                i <= self.oam_table_size,
                self.oam_table_size <= MAX_SPRITES_PER_LINE,
                r.len() == i,
                forall|k: int| 0 <= k < i ==> r[k] == self.oam_table@[k],
            decreases self.oam_table_size - i,
        {
            r.push(self.oam_table[i]);
            i += 1;
        }
        r
    }

    /// Looks at the next sprite of the object attribute memory and takes it
    /// into the table if it crosses the line.
    pub fn scan_next_oam_table_entry(&mut self, oam: &[Byte], registers: &Registers)
        requires
            old(self).wf(),
            oam.len() >= 4 * OAM_ENTRIES,
        ensures
            final(self).wf(),
            final(self)@ == old(self)@.scan(oam@, *registers),
    {
        if self.oam_scan_index >= OAM_ENTRIES {
            return ;
        }
        let index = self.oam_scan_index * 4;
        self.oam_scan_index += 1;
        let entry = OamEntry {
            y: oam[index],
            x: oam[index + 1],
            tile: oam[index + 2],
            attributes: oam[index + 3],
        };
        if entry.y == 0 || entry.x >= 160 {
            return ;
        }
        if entry.x == 0 || entry.y >= 168 {
            return ;
        }
        let line: u16 = registers.LY as u16 + 16;
        let first: u16 = entry.y as u16;
        if line < first {
            return ;
        }
        let height: u16 = if registers.LCDC & LCDC_SPRITE_SIZE != 0 {
            16
        } else {
            8
        };
        if line >= first + height {
            return ;
        }
        if self.oam_table_size >= MAX_SPRITES_PER_LINE {
            return ;
        }
        let ghost before = self@.table;
        let ghost place = rank(before, entry.x, 0);
        let ghost after = before.insert(place, entry);
        proof {
            lemma_rank(before, entry.x, 0);
        }
        let size = self.oam_table_size;
        let mut carried = entry;
        let mut i: usize = 0;
        while i < size
            invariant
                i <= size,
                size == self.oam_table_size,
                size < MAX_SPRITES_PER_LINE,
                size == before.len(),
                sorted(before),
                0 <= place <= size,
                after.len() == size + 1,
                forall|k: int| 0 <= k < place ==> after[k] == before[k],
                after[place] == entry,
                forall|k: int| place < k <= size ==> after[k] == before[k - 1],
                forall|j: int| 0 <= j < place ==> (#[trigger] before[j]).x < entry.x,
                place < size ==> before[place].x >= entry.x,
                forall|k: int| 0 <= k < i ==> self.oam_table@[k] == after[k],
                forall|k: int| i <= k < size ==> self.oam_table@[k] == before[k],
                carried == (if i < place {
                    entry
                } else {
                    after[i as int]
                }),
                self.fifo == old(self).fifo,
                self.entry_fifo == old(self).entry_fifo,
                self.state == old(self).state,
                self.oam_entry_index == old(self).oam_entry_index,
                self.oam_scan_index == old(self).oam_scan_index + 1,
                self.column == old(self).column,
                self.discard_columns == old(self).discard_columns,
                self.tile_data == old(self).tile_data,
                self.tile_data_address == old(self).tile_data_address,
            decreases size - i,
        {
            let current = self.oam_table[i];
            assert(current == before[i as int]);
            if current.x < carried.x {
                i += 1;
                continue ;
            }
            self.oam_table[i] = carried;
            carried = current;
            i += 1;
        }
        self.oam_table[size] = carried;
        self.oam_table_size += 1;
        assert(self@.table =~= after);
    }

    fn fetch_tile_no(&mut self, registers: Registers) -> (r: Result<(), Fault>)
        requires
            old(self).wf(),
            old(self)@.state == FifoState::FetchTileNo,
            old(self)@.entry_index < old(self)@.table.len(),
            old(self)@.column < old(self)@.table[old(self)@.entry_index as int].x,
        ensures
            final(self).wf(),
            match old(self)@.fetch_tile_no(registers) {
                Ok(m) => r is Ok && final(self)@ == m,
                Err(f) => r == Err::<(), Fault>(f) && final(self)@ == old(self)@,
            },
    {
        let entry = self.oam_table[self.oam_entry_index];
        let address: i32 = (entry.tile as i32) * 16 + (registers.LY as i32 + 16 - entry.y as i32) * 2;
        if address < 0 || address + 1 >= 0x2000 {
            return Err(Fault::NotOwned(((0x8000 + address) % 0x10000) as u16));
        }
        self.column += 1;
        if entry.x < 8 {
            self.discard_columns = 8 - entry.x;
        }
        self.tile_data_address = address as u16;
        self.state = FifoState::FetchTileLo;
        Ok(())
    }

    fn push_tile(&mut self)
        requires
            old(self).wf(),
            old(self)@.state == FifoState::PushTile,
            old(self)@.pixels.len() <= 8,
        ensures
            final(self).wf(),
            final(self)@ == old(self)@.push_tile(),
    {
        let lo = self.tile_data.0;
        let hi = self.tile_data.1;
        let entry = self.oam_table[self.oam_entry_index];
        let mut n: u8 = 8;
        proof {
            self.fifo.lemma_bounds();
            self.entry_fifo.lemma_bounds();
        }
        while n > 0
            invariant
                n <= 8,
                0 < entry.x < 160,
                self.fifo.wf(),
                self.entry_fifo.wf(),
                self.fifo@.len() == self.entry_fifo@.len(),
                self.fifo@.len() <= 16 - n,
                self.oam_table == old(self).oam_table,
                self.oam_table_size == old(self).oam_table_size,
                self.oam_entry_index == old(self).oam_entry_index,
                self.oam_scan_index == old(self).oam_scan_index,
                self.tile_data_address == old(self).tile_data_address,
                self.state == old(self).state,
                self.column == old(self).column,
                self.tile_data == old(self).tile_data,
                lo == self.tile_data.0,
                hi == self.tile_data.1,
                push_sprite_row(
                    old(self)@.pixels,
                    old(self)@.columns,
                    old(self)@.discard_columns,
                    lo,
                    hi,
                    entry.x,
                    8,
                ) == push_sprite_row(self.fifo@, self.entry_fifo@, self.discard_columns, lo, hi, entry.x, n as nat),
            decreases n,
        {
            if self.discard_columns != 0 {
                self.discard_columns -= 1;
            } else {
                let pixel = pixel_at(lo, hi, n - 1);
                self.entry_fifo.push(entry.x + (n - 1));
                self.fifo.push(pixel);
            }
            n -= 1;
        }
        self.oam_entry_index += 1;
        self.column = ((self.column as u16 + 256 + 8 - self.discard_columns as u16) % 256) as u8;
        self.state = FifoState::FetchTileNo;
    }

    /// Moves the fetcher on by one phase.
    pub fn step(&mut self, vram: &[Byte], registers: Registers) -> (r: Result<(), Fault>)
        requires
            old(self).wf(),
            vram.len() >= VRAM_SIZE,
        ensures
            final(self).wf(),
            match old(self)@.step(vram@, registers) {
                Ok(m) => r is Ok && final(self)@ == m,
                Err(f) => r == Err::<(), Fault>(f) && final(self)@ == old(self)@,
            },
    {
        if registers.LCDC & LCDC_SPRITE_ENABLE == 0 {
            return Ok(());
        }
        match self.state {
            FifoState::FetchTileNo => {
                if self.oam_table_size <= self.oam_entry_index {
                    return Ok(());
                }
                let entry = self.oam_table[self.oam_entry_index];
                if self.column < entry.x {
                    self.fetch_tile_no(registers)
                } else {
                    Ok(())
                }
            },
            FifoState::FetchTileLo => {
                self.tile_data.0 = vram[self.tile_data_address as usize];
                self.state = FifoState::FetchTileHi;
                Ok(())
            },
            FifoState::FetchTileHi => {
                self.tile_data.1 = vram[(self.tile_data_address + 1) as usize];
                self.state = FifoState::PushTile;
                Ok(())
            },
            FifoState::PushTile => {
                if self.fifo.len() > 8 {
                    return Ok(());
                }
                self.push_tile();
                Ok(())
            },
        }
    }

    /// Takes the oldest pixel out of the queue, if there is one and the
    /// display has reached its column.
    pub fn pop(&mut self, x: u8) -> (r: Option<u8>)
        requires
            old(self).wf(),
        ensures
            final(self).wf(),
            (r, final(self)@) == old(self)@.pop(x),
    {
        proof {
            self.entry_fifo.lemma_bounds();
        }
        let ex = self.entry_fifo.top();
        if x < ex {
            return None;
        }
        self.entry_fifo.pop();
        self.fifo.pop()
    }

    /// Empties the queues and the table and starts over at the first
    /// column.
    pub fn reset(&mut self)
        requires
            old(self).wf(),
        ensures
            final(self).wf(),
            final(self)@ == old(self)@.reset(),
    {
        self.fifo.clear();
        self.entry_fifo.clear();
        self.state = FifoState::FetchTileNo;
        self.column = 0;
        self.oam_entry_index = 0;
        self.oam_scan_index = 0;
        self.oam_table_size = 0;
        assert(self@.table =~= Seq::empty());
    }
}

} // verus!
