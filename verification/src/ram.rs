//! Plain memories: work RAM with its echo, a configurable stand-in memory, and
//! the holes between the registers.

use vstd::prelude::*;
use crate::bus::{Address, Attach, BusListener, Byte, Fault};

verus! {

pub const RAM_BASE_ADDRESS: Address = 0xC000;

pub const ECHO_RAM_BASE_ADDRESS: Address = 0xE000;

pub const RAM_SIZE: usize = 0x2000;

/// A vector of `len` copies of `value`.
pub fn filled<T: Copy>(value: T, len: usize) -> (r: Vec<T>)
    ensures
        r@ == Seq::new(len as nat, |i: int| value),
{
    let mut data: Vec<T> = Vec::new();
    let mut i: usize = 0;
    while i < len
        invariant
            i <= len,
            data.len() == i,
            forall|j: int| 0 <= j < i ==> data[j] == value,
        decreases len - i,
    {
        data.push(value);
        i += 1;
    }
    data
}

/// The 8 KiB of work RAM at `0xC000..=0xDFFF`, seen a second time at
/// `0xE000..=0xFDFF`.
pub struct RAM {
    data: Vec<Byte>,
}

/// The index into work RAM that an address stands for, if it is one of its
/// addresses.
pub open spec fn ram_index(address: Address) -> Option<int> {
    if 0xC000 <= address <= 0xDFFF {
        Some(address - 0xC000)
    } else if 0xE000 <= address <= 0xFDFF {
        Some(address - 0xE000)
    } else {
        None
    }
}

pub open spec fn ram_read(m: Seq<Byte>, address: Address) -> Result<Byte, Fault> {
    match ram_index(address) {
        Some(i) => Ok(m[i]),
        None => Err(Fault::NotOwned(address)),
    }
}

pub open spec fn ram_write(m: Seq<Byte>, address: Address, value: Byte) -> Result<(Seq<Byte>, bool), Fault> {
    match ram_index(address) {
        Some(i) => Ok((m.update(i, value), false)),
        None => Err(Fault::NotOwned(address)),
    }
}

impl RAM {
    /// The 8192 bytes held, by index.
    pub closed spec fn view(&self) -> Seq<Byte> {
        self.data@
    }

    pub closed spec fn wf(&self) -> bool {
        self.data.len() == RAM_SIZE
    }

    pub fn new() -> (r: Self)
        ensures
            r.wf(),
            r@ == Seq::new(RAM_SIZE as nat, |i: int| 0u8),
    {
        RAM { data: filled(0u8, RAM_SIZE) }
    }

    fn index(address: Address) -> (r: Option<usize>)
        ensures
            match ram_index(address) {
                Some(i) => r == Some(i as usize) && 0 <= i < RAM_SIZE,
                None => r is None,
            },
    {
        if 0xC000 <= address && address <= 0xDFFF {
            Some((address - RAM_BASE_ADDRESS) as usize)
        } else if 0xE000 <= address && address <= 0xFDFF {
            Some((address - ECHO_RAM_BASE_ADDRESS) as usize)
        } else {
            None
        }
    }

    /// Every RAM holds 8192 bytes.
    pub proof fn lemma_len(&self)
        requires
            self.wf(),
        ensures
            self@.len() == RAM_SIZE,
    {
    }
}

impl BusListener for RAM {
    type Model = Seq<Byte>;

    open spec fn model(&self) -> Seq<Byte> {
        self@
    }

    open spec fn valid(&self) -> bool {
        self.wf()
    }

    open spec fn claims_of(m: Seq<Byte>) -> Seq<Attach> {
        seq![Attach::BlockRange(0xC0, 0xFD)]
    }

    open spec fn read_of(m: Seq<Byte>, address: Address) -> Result<Byte, Fault> {
        ram_read(m, address)
    }

    open spec fn write_of(m: Seq<Byte>, address: Address, value: Byte) -> Result<(Seq<Byte>, bool), Fault> {
        ram_write(m, address, value)
    }

    fn bus_attach(&self) -> (r: Vec<Attach>) {
        let r = vec![Attach::BlockRange(0xC0, 0xFD)];
        r
    }

    fn bus_read(&self, address: Address) -> (r: Result<Byte, Fault>) {
        match RAM::index(address) {
            Some(i) => Ok(self.data[i]),
            None => Err(Fault::NotOwned(address)),
        }
    }

    fn bus_write(&mut self, address: Address, value: Byte) -> (r: Result<bool, Fault>) {
        match RAM::index(address) {
            Some(i) => {
                self.data[i] = value;
                Ok(false)
            },
            None => Err(Fault::NotOwned(address)),
        }
    }
}

/// A memory that stands in for a component that is not emulated: a range of
/// blocks or of registers that stores what is written to it.
pub struct DummyRAM {
    data: Vec<u8>,
    locked: bool,
    lock_value: Byte,
    address_range: (u8, u8),
    is_register: bool,
}

/// What a [`DummyRAM`] holds.
pub struct DummyModel {
    pub data: Seq<Byte>,
    pub locked: bool,
    pub lock_value: Byte,
    pub start: u8,
    pub end: u8,
    pub is_register: bool,
}

impl DummyModel {
    /// The number of bytes that a memory over these blocks or registers holds.
    pub open spec fn size(start: u8, end: u8, is_register: bool) -> int {
        if is_register {
            end - start + 1
        } else {
            (end - start + 1) * 0x100
        }
    }

    /// The first address of the memory.
    pub open spec fn base(self) -> int {
        if self.is_register {
            0xFF00 + self.start
        } else {
            self.start * 0x100
        }
    }

    pub open spec fn wf(self) -> bool {
        &&& self.start <= self.end
        &&& self.data.len() == Self::size(self.start, self.end, self.is_register)
    }

    /// The index that an address stands for, if the memory holds it.
    pub open spec fn index(self, address: Address) -> Option<int> {
        if self.base() <= address && address - self.base() < self.data.len() {
            Some(address - self.base())
        } else {
            None
        }
    }

    pub open spec fn claims(self) -> Seq<Attach> {
        if self.is_register {
            seq![Attach::RegisterRange(self.start, self.end)]
        } else {
            seq![Attach::BlockRange(self.start, self.end)]
        }
    }

    /// A locked memory answers every read with its lock value.
    pub open spec fn read(self, address: Address) -> Result<Byte, Fault> {
        if self.locked {
            Ok(self.lock_value)
        } else {
            match self.index(address) {
                Some(i) => Ok(self.data[i]),
                None => Err(Fault::NotOwned(address)),
            }
        }
    }

    pub open spec fn write(self, address: Address, value: Byte) -> Result<(DummyModel, bool), Fault> {
        match self.index(address) {
            Some(i) => Ok((DummyModel { data: self.data.update(i, value), ..self }, false)),
            None => Err(Fault::NotOwned(address)),
        }
    }
}

impl DummyRAM {
    pub closed spec fn view(&self) -> DummyModel {
        DummyModel {
            data: self.data@,
            locked: self.locked,
            lock_value: self.lock_value,
            start: self.address_range.0,
            end: self.address_range.1,
            is_register: self.is_register,
        }
    }

    pub open spec fn wf(&self) -> bool {
        self@.wf()
    }

    /// A zeroed, unlocked memory over the blocks, or the registers,
    /// `start..=end`.
    pub fn new(start: u8, end: u8, is_register: bool) -> (r: Self)
        requires
            start <= end,
        ensures
            r.wf(),
            r@ == (DummyModel {
                data: Seq::new(DummyModel::size(start, end, is_register) as nat, |i: int| 0u8),
                locked: false,
                lock_value: 0,
                start,
                end,
                is_register,
            }),
    {
        let size: usize = ((end - start) as usize) + 1;
        let size: usize = if is_register {
            size
        } else {
            size * 0x100
        };
        Self { data: filled(0u8, size), locked: false, lock_value: 0, address_range: (start, end), is_register }
    }

    /// From now on every read returns `value`, whatever is stored.
    pub fn lock_with_value(&mut self, value: Byte)
        ensures
            final(self)@ == (DummyModel { locked: true, lock_value: value, ..old(self)@ }),
    {
        self.locked = true;
        self.lock_value = value;
    }

    pub fn unlock(&mut self)
        ensures
            final(self)@ == (DummyModel { locked: false, ..old(self)@ }),
    {
        self.locked = false;
    }

    fn index(&self, address: Address) -> (r: Option<usize>)
        requires
            self.wf(),
        ensures
            match self@.index(address) {
                Some(i) => r == Some(i as usize) && 0 <= i < self.data.len(),
                None => r is None,
            },
    {
        let base: u16 = if self.is_register {
            0xFF00u16 + (self.address_range.0 as Address)
        } else {
            (self.address_range.0 as Address) * 0x100
        };
        if base <= address && ((address - base) as usize) < self.data.len() {
            Some((address - base) as usize)
        } else {
            None
        }
    }
}

impl BusListener for DummyRAM {
    type Model = DummyModel;

    open spec fn model(&self) -> DummyModel {
        self@
    }

    open spec fn valid(&self) -> bool {
        self.wf()
    }

    open spec fn claims_of(m: DummyModel) -> Seq<Attach> {
        m.claims()
    }

    open spec fn read_of(m: DummyModel, address: Address) -> Result<Byte, Fault> {
        m.read(address)
    }

    open spec fn write_of(m: DummyModel, address: Address, value: Byte) -> Result<(DummyModel, bool), Fault> {
        m.write(address, value)
    }

    fn bus_attach(&self) -> (r: Vec<Attach>) {
        if self.is_register {
            let r = vec![Attach::RegisterRange(self.address_range.0, self.address_range.1)];
            r
        } else {
            let r = vec![Attach::BlockRange(self.address_range.0, self.address_range.1)];
            r
        }
    }

    fn bus_read(&self, address: Address) -> (r: Result<Byte, Fault>) {
        if self.locked {
            return Ok(self.lock_value);
        }
        match self.index(address) {
            Some(i) => Ok(self.data[i]),
            None => Err(Fault::NotOwned(address)),
        }
    }

    fn bus_write(&mut self, address: Address, value: Byte) -> (r: Result<bool, Fault>) {
        match self.index(address) {
            Some(i) => {
                self.data[i] = value;
                Ok(false)
            },
            None => Err(Fault::NotOwned(address)),
        }
    }
}

/// The registers that nothing is behind: they read as zero and ignore writes.
pub struct RegisterHoles;

impl RegisterHoles {
    pub fn new() -> (r: Self) {
        Self {  }
    }
}

pub open spec fn holes_claims() -> Seq<Attach> {
    seq![Attach::RegisterRange(0x08, 0x0E), Attach::RegisterRange(0x4C, 0x7F)]
}

impl BusListener for RegisterHoles {
    type Model = ();

    open spec fn model(&self) -> () {
        ()
    }

    open spec fn valid(&self) -> bool {
        true
    }

    open spec fn claims_of(m: ()) -> Seq<Attach> {
        holes_claims()
    }

    open spec fn read_of(m: (), address: Address) -> Result<Byte, Fault> {
        Ok(0u8)
    }

    open spec fn write_of(m: (), address: Address, value: Byte) -> Result<((), bool), Fault> {
        Ok(((), false))
    }

    fn bus_attach(&self) -> (r: Vec<Attach>) {
        let r = vec![Attach::RegisterRange(0x08, 0x0E), Attach::RegisterRange(0x4C, 0x7F)];
        r
    }

    fn bus_read(&self, address: Address) -> (r: Result<Byte, Fault>) {
        Ok(0)
    }

    fn bus_write(&mut self, address: Address, value: Byte) -> (r: Result<bool, Fault>) {
        Ok(false)
    }
}

} // verus!
