//! The queue of pixels that a fetcher fills and the display drains, and the
//! four phases of a fetcher.

use vstd::prelude::*;

verus! {

/// The phases of a fetcher, in the order in which it goes through them.
#[derive(Clone, Copy, Debug, PartialEq, Eq, Structural)]
pub enum FifoState {
    FetchTileNo,
    FetchTileLo,
    FetchTileHi,
    PushTile,
}

impl FifoState {
    /// The position of the phase in the cycle.
    pub open spec fn index(self) -> int {
        match self {
            FifoState::FetchTileNo => 0,
            FifoState::FetchTileLo => 1,
            FifoState::FetchTileHi => 2,
            FifoState::PushTile => 3,
        }
    }

    /// The phase at a position, counted modulo 4.
    pub open spec fn at(value: int) -> FifoState {
        if value % 4 == 0 {
            FifoState::FetchTileNo
        } else if value % 4 == 1 {
            FifoState::FetchTileLo
        } else if value % 4 == 2 {
            FifoState::FetchTileHi
        } else {
            FifoState::PushTile
        }
    }

    /// The phase that follows; after the last comes the first.
    pub open spec fn following(self) -> FifoState {
        FifoState::at(self.index() + 1)
    }

    pub fn next(&mut self)
        ensures
            *final(self) == old(self).following(),
    {
        *self = match *self {
            FifoState::FetchTileNo => FifoState::FetchTileLo,
            FifoState::FetchTileLo => FifoState::FetchTileHi,
            FifoState::FetchTileHi => FifoState::PushTile,
            FifoState::PushTile => FifoState::FetchTileNo,
        };
    }

    pub fn from_u8(value: u8) -> (r: FifoState)
        ensures
            r == FifoState::at(value as int),
    {
        let phase = value % 4;
        if phase == 0 {
            FifoState::FetchTileNo
        } else if phase == 1 {
            FifoState::FetchTileLo
        } else if phase == 2 {
            FifoState::FetchTileHi
        } else {
            FifoState::PushTile
        }
    }
}

/// The number of pixels that a queue can hold.
pub const FIFO_CAPACITY: usize = 16;

/// A queue of at most 16 pixels, kept in a ring.
pub struct PixelFifo {
    pixels: [u8; 16],
    size: usize,
    pos: usize,
}

impl PixelFifo {
    /// The pixels in the queue, the oldest first.
    pub closed spec fn view(&self) -> Seq<u8> {
        Seq::new(self.size as nat, |i: int| self.pixels@[(self.pos + i) % 16])
    }

    /// The pixel in the slot that the next pop reads. While the queue is
    /// empty this is whatever the slot was left with.
    pub closed spec fn front(&self) -> u8 {
        self.pixels@[self.pos as int]
    }

    pub closed spec fn wf(&self) -> bool {
        self.size <= 16 && self.pos < 16
    }

    /// A well-formed queue holds at most 16 pixels, and its front slot holds
    /// the oldest of them.
    pub proof fn lemma_bounds(&self)
        requires
            self.wf(),
        ensures
            self@.len() <= FIFO_CAPACITY,
            self@.len() > 0 ==> self.front() == self@[0],
    {
    }

    /// An empty queue, with zero in every slot.
    pub fn new() -> (r: Self)
        ensures
            r.wf(),
            r@ == Seq::<u8>::empty(),
            r.front() == 0,
    {
        let r = Self { pixels: [0;16], size: 0, pos: 0 };
        r
    }

    pub fn clear(&mut self)
        ensures
            final(self).wf(),
            final(self)@ == Seq::<u8>::empty(),
    {
        self.size = 0;
        self.pos = 0;
    }

    /// The pixel in the front slot.
    pub fn top(&self) -> (r: u8)
        requires
            self.wf(),
        ensures
            r == self.front(),
    {
        self.pixels[self.pos]
    }

    /// Takes the oldest pixel out, if there is one.
    pub fn pop(&mut self) -> (r: Option<u8>)
        requires
            old(self).wf(),
        ensures
            final(self).wf(),
            r == (if old(self)@.len() > 0 {
                Some(old(self)@[0])
            } else {
                None
            }),
            final(self)@ == (if old(self)@.len() > 0 {
                old(self)@.drop_first()
            } else {
                old(self)@
            }),
    {
        if self.size == 0 {
            return None;
        }
        let pixel = self.top();
        self.size -= 1;
        self.pos = (self.pos + 1) % 16;
        Some(pixel)
    }

    /// Adds a pixel at the end, unless the queue is full.
    pub fn push(&mut self, pixel: u8)
        requires
            old(self).wf(),
        ensures
            final(self).wf(),
            final(self)@ == (if old(self)@.len() < FIFO_CAPACITY {
                old(self)@.push(pixel)
            } else {
                old(self)@
            }),
    {
        if self.size >= 16 {
            return ;
        }
        let slot = (self.pos + self.size) % 16;
        self.pixels[slot] = pixel;
        self.size += 1;
    }

    pub fn is_empty(&self) -> (r: bool)
        ensures
            r == (self@.len() == 0),
    {
        self.size == 0
    }

    /// The number of pixels in the queue.
    pub fn len(&self) -> (r: usize)
        ensures
            r == self@.len(),
    {
        self.size
    }
}

} // verus!
