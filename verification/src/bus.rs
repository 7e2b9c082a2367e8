//! The address bus: a routing table from 16-bit addresses to the components
//! attached to it.

use vstd::prelude::*;
use crate::boot_rom::{boot_rom_claims, boot_rom_read, boot_rom_write, BootRom};
use crate::cartridge::rom_only::{rom_only_claims, rom_only_read, rom_only_write, RomOnlyCartridge};
use crate::cpu::interrupt::{interrupt_claims, interrupt_read, interrupt_write, InterruptRegisters};
use crate::clock::{passed, ClockListener, Ticked};
use crate::joypad::{joypad_claims, joypad_read, joypad_write, Joypad, JoypadButtons};
use crate::ppu::{ppu_claims, PpuModel, PPU};
use crate::ram::{filled, holes_claims, ram_read, ram_write, DummyModel, DummyRAM, RegisterHoles, RAM, RAM_SIZE};
use crate::serial::{serial_claims, serial_read, serial_write, SerialInterface, SerialModel};
use crate::timer::{timer_claims, timer_read, timer_write, Timer};

verus! {

pub type Address = u16;

pub type Byte = u8;

pub type Word = u16;

/// A range of addresses that a component claims when it is attached.
///
/// A block is the 256 addresses that share a high byte; a register is one
/// address in `0xFF00..=0xFFFF`, named by its low byte.
#[derive(Clone, Copy, Debug, PartialEq, Eq, Structural)]
pub enum Attach {
    Block(u8),
    BlockRange(u8, u8),
    Register(u8),
    RegisterRange(u8, u8),
}

/// Why an access or an instruction could not be carried out. Each of these is
/// fatal to the emulated machine.
#[derive(Clone, Copy, Debug, PartialEq, Eq, Structural)]
pub enum Fault {
    /// No component is attached for the address.
    Unmapped(Address),
    /// The component that owns the address is being ticked and cannot be
    /// reached through the bus until the tick is over.
    Busy(Address),
    /// The component was handed an address that it holds nothing for.
    NotOwned(Address),
    /// A write to an address that can only be read.
    ReadOnly(Address),
    /// A read of an address that can only be written.
    WriteOnly(Address),
    /// An opcode without a defined instruction, with the address it was
    /// fetched from.
    IllegalOpcode(Byte, Address),
    /// An operand that cannot be written to was named as a destination.
    InvalidOperand,
    /// A DMA transfer was started from a page that cannot be a source.
    InvalidDma(Byte),
    /// A handle that no attached component has.
    NoSuchDevice(usize),
}

/// Why a component could not be attached.
#[derive(Clone, Copy, Debug, PartialEq, Eq, Structural)]
pub enum BusError {
    /// The component claims no address at all.
    NoRanges,
    /// A claim on a block or register that another component already holds.
    Overlap(Attach),
}

/// The first slot that a claim covers.
pub open spec fn attach_first(a: Attach) -> int {
    match a {
        Attach::Block(b) => b as int,
        Attach::BlockRange(b, _) => b as int,
        Attach::Register(r) => r as int,
        Attach::RegisterRange(r, _) => r as int,
    }
}

/// The last slot that a claim covers.
pub open spec fn attach_last(a: Attach) -> int {
    match a {
        Attach::Block(b) => b as int,
        Attach::BlockRange(_, b) => b as int,
        Attach::Register(r) => r as int,
        Attach::RegisterRange(_, r) => r as int,
    }
}

/// Whether a claim is on registers (`0xFF00..=0xFFFF`) rather than blocks.
pub open spec fn attach_is_register(a: Attach) -> bool {
    a is Register || a is RegisterRange
}

/// Whether a claim covers the given block or register.
pub open spec fn attach_covers(a: Attach, register: bool, slot: int) -> bool {
    attach_is_register(a) == register && attach_first(a) <= slot <= attach_last(a)
}

/// Whether any claim of the list covers the given block or register.
pub open spec fn claims_cover(claims: Seq<Attach>, register: bool, slot: int) -> bool {
    exists|i: int| 0 <= i < claims.len() && attach_covers(#[trigger] claims[i], register, slot)
}

/// A component that can be attached to the bus.
///
/// `Model` is the mathematical value that stands for the component's state;
/// the three `*_of` functions say, over that value, which addresses the
/// component claims and what a read and a write do.
pub trait BusListener {
    type Model;

    spec fn model(&self) -> Self::Model;

    spec fn valid(&self) -> bool;

    spec fn claims_of(m: Self::Model) -> Seq<Attach>;

    spec fn read_of(m: Self::Model, address: Address) -> Result<Byte, Fault>;

    /// The state after a write, and whether the component asks to be
    /// detached from the bus.
    spec fn write_of(m: Self::Model, address: Address, value: Byte) -> Result<(Self::Model, bool), Fault>;

    fn bus_attach(&self) -> (r: Vec<Attach>)
        requires
            self.valid(),
        ensures
            r@ == Self::claims_of(self.model()),
    ;

    fn bus_read(&self, address: Address) -> (r: Result<Byte, Fault>)
        requires
            self.valid(),
        ensures
            r == Self::read_of(self.model(), address),
    ;

    fn bus_write(&mut self, address: Address, value: Byte) -> (r: Result<bool, Fault>)
        requires
            old(self).valid(),
        ensures
            final(self).valid(),
            match Self::write_of(old(self).model(), address, value) {
                Ok((m, detach)) => r == Ok::<bool, Fault>(detach) && final(self).model() == m,
                Err(f) => r == Err::<bool, Fault>(f) && final(self).model() == old(self).model(),
            },
    ;
}


/// A component in the bus's table.
pub enum Device {
    /// The place of a component that is being ticked.
    Vacant,
    BootRom(BootRom),
    Cartridge(RomOnlyCartridge),
    Ram(RAM),
    Dummy(DummyRAM),
    Holes(RegisterHoles),
    Timer(Timer),
    Joypad(Joypad),
    Serial(SerialInterface),
    Ppu(PPU),
}

/// What a [`Device`] holds.
pub enum DeviceModel {
    Vacant,
    BootRom(Seq<Byte>),
    Cartridge(Seq<Byte>),
    Ram(Seq<Byte>),
    Dummy(DummyModel),
    Holes,
    Timer(Timer),
    Joypad(Joypad),
    Serial(SerialModel),
    Ppu(PpuModel),
}

impl DeviceModel {
    pub open spec fn wf(self) -> bool {
        match self {
            DeviceModel::Ram(m) => m.len() == RAM_SIZE,
            DeviceModel::Dummy(m) => m.wf(),
            DeviceModel::Ppu(m) => m.wf(),
            _ => true,
        }
    }

    pub open spec fn claims(self) -> Seq<Attach> {
        match self {
            DeviceModel::Vacant => Seq::empty(),
            DeviceModel::BootRom(_) => boot_rom_claims(),
            DeviceModel::Cartridge(_) => rom_only_claims(),
            DeviceModel::Ram(_) => seq![Attach::BlockRange(0xC0, 0xFD)],
            DeviceModel::Dummy(m) => m.claims(),
            DeviceModel::Holes => holes_claims(),
            DeviceModel::Timer(_) => timer_claims(),
            DeviceModel::Joypad(_) => joypad_claims(),
            DeviceModel::Serial(_) => serial_claims(),
            DeviceModel::Ppu(_) => ppu_claims(),
        }
    }

    pub open spec fn read(self, address: Address) -> Result<Byte, Fault> {
        match self {
            DeviceModel::Vacant => Err(Fault::Busy(address)),
            DeviceModel::BootRom(m) => boot_rom_read(m, address),
            DeviceModel::Cartridge(m) => rom_only_read(m, address),
            DeviceModel::Ram(m) => ram_read(m, address),
            DeviceModel::Dummy(m) => m.read(address),
            DeviceModel::Holes => Ok(0u8),
            DeviceModel::Timer(m) => timer_read(m, address),
            DeviceModel::Joypad(m) => joypad_read(m, address),
            DeviceModel::Serial(m) => serial_read(m, address),
            DeviceModel::Ppu(m) => m.read(address),
        }
    }

    /// The component after a write, and whether it asks to be detached.
    pub open spec fn write(self, address: Address, value: Byte) -> Result<(DeviceModel, bool), Fault> {
        match self {
            DeviceModel::Vacant => Err(Fault::Busy(address)),
            DeviceModel::BootRom(m) => match boot_rom_write(m, address, value) {
                Ok((n, d)) => Ok((DeviceModel::BootRom(n), d)),
                Err(f) => Err(f),
            },
            DeviceModel::Cartridge(m) => match rom_only_write(m, address, value) {
                Ok((n, d)) => Ok((DeviceModel::Cartridge(n), d)),
                Err(f) => Err(f),
            },
            DeviceModel::Ram(m) => match ram_write(m, address, value) {
                Ok((n, d)) => Ok((DeviceModel::Ram(n), d)),
                Err(f) => Err(f),
            },
            DeviceModel::Dummy(m) => match m.write(address, value) {
                Ok((n, d)) => Ok((DeviceModel::Dummy(n), d)),
                Err(f) => Err(f),
            },
            DeviceModel::Holes => Ok((DeviceModel::Holes, false)),
            DeviceModel::Timer(m) => match timer_write(m, address, value) {
                Ok((n, d)) => Ok((DeviceModel::Timer(n), d)),
                Err(f) => Err(f),
            },
            DeviceModel::Joypad(m) => match joypad_write(m, address, value) {
                Ok((n, d)) => Ok((DeviceModel::Joypad(n), d)),
                Err(f) => Err(f),
            },
            DeviceModel::Serial(m) => match serial_write(m, address, value) {
                Ok((n, d)) => Ok((DeviceModel::Serial(n), d)),
                Err(f) => Err(f),
            },
            DeviceModel::Ppu(m) => match m.write(address, value) {
                Ok((n, d)) => Ok((DeviceModel::Ppu(n), d)),
                Err(f) => Err(f),
            },
        }
    }

    /// What the passing of some cycles does to a component and to the bus.
    /// Only the timer and the video controller keep time.
    pub open spec fn tick(self, bus: BusModel, cycles: u8) -> Ticked<DeviceModel> {
        match self {
            DeviceModel::Timer(m) => Ticked {
                component: DeviceModel::Timer(m.tick(bus, cycles as nat).component),
                bus: m.tick(bus, cycles as nat).bus,
                result: m.tick(bus, cycles as nat).result,
            },
            DeviceModel::Ppu(m) => Ticked {
                component: DeviceModel::Ppu(m.tick(bus, cycles).component),
                bus: m.tick(bus, cycles).bus,
                result: m.tick(bus, cycles).result,
            },
            _ => passed(self, bus),
        }
    }

}

impl Device {
    pub open spec fn view(&self) -> DeviceModel {
        match self {
            Device::Vacant => DeviceModel::Vacant,
            Device::BootRom(d) => DeviceModel::BootRom(d@),
            Device::Cartridge(d) => DeviceModel::Cartridge(d@),
            Device::Ram(d) => DeviceModel::Ram(d@),
            Device::Dummy(d) => DeviceModel::Dummy(d@),
            Device::Holes(_) => DeviceModel::Holes,
            Device::Timer(d) => DeviceModel::Timer(*d),
            Device::Joypad(d) => DeviceModel::Joypad(*d),
            Device::Serial(d) => DeviceModel::Serial(d@),
            Device::Ppu(d) => DeviceModel::Ppu(d@),
        }
    }

    pub open spec fn wf(&self) -> bool {
        match self {
            Device::Ram(d) => d.wf(),
            Device::Dummy(d) => d.wf(),
            Device::Ppu(d) => d.wf(),
            _ => true,
        }
    }

    /// A well-formed component has a well-formed model.
    pub proof fn lemma_model_wf(&self)
        requires
            self.wf(),
        ensures
            self@.wf(),
    {
        match self {
            Device::Ram(d) => {
                d.lemma_len();
            },
            Device::Ppu(d) => {
                d.lemma_wf();
            },
            _ => {},
        }
    }
}

impl BusListener for Device {
    type Model = DeviceModel;

    open spec fn model(&self) -> DeviceModel {
        self@
    }

    open spec fn valid(&self) -> bool {
        self.wf()
    }

    open spec fn claims_of(m: DeviceModel) -> Seq<Attach> {
        m.claims()
    }

    open spec fn read_of(m: DeviceModel, address: Address) -> Result<Byte, Fault> {
        m.read(address)
    }

    open spec fn write_of(m: DeviceModel, address: Address, value: Byte) -> Result<(DeviceModel, bool), Fault> {
        m.write(address, value)
    }

    fn bus_attach(&self) -> (r: Vec<Attach>) {
        match self {
            Device::Vacant => Vec::new(),
            Device::BootRom(d) => d.bus_attach(),
            Device::Cartridge(d) => d.bus_attach(),
            Device::Ram(d) => d.bus_attach(),
            Device::Dummy(d) => d.bus_attach(),
            Device::Holes(d) => d.bus_attach(),
            Device::Timer(d) => d.bus_attach(),
            Device::Joypad(d) => d.bus_attach(),
            Device::Serial(d) => d.bus_attach(),
            Device::Ppu(d) => d.bus_attach(),
        }
    }

    fn bus_read(&self, address: Address) -> (r: Result<Byte, Fault>) {
        match self {
            Device::Vacant => Err(Fault::Busy(address)),
            Device::BootRom(d) => d.bus_read(address),
            Device::Cartridge(d) => d.bus_read(address),
            Device::Ram(d) => d.bus_read(address),
            Device::Dummy(d) => d.bus_read(address),
            Device::Holes(d) => d.bus_read(address),
            Device::Timer(d) => d.bus_read(address),
            Device::Joypad(d) => d.bus_read(address),
            Device::Serial(d) => d.bus_read(address),
            Device::Ppu(d) => d.bus_read(address),
        }
    }

    fn bus_write(&mut self, address: Address, value: Byte) -> (r: Result<bool, Fault>) {
        match self {
            Device::Vacant => Err(Fault::Busy(address)),
            Device::BootRom(d) => d.bus_write(address, value),
            Device::Cartridge(d) => d.bus_write(address, value),
            Device::Ram(d) => d.bus_write(address, value),
            Device::Dummy(d) => d.bus_write(address, value),
            Device::Holes(d) => d.bus_write(address, value),
            Device::Timer(d) => d.bus_write(address, value),
            Device::Joypad(d) => d.bus_write(address, value),
            Device::Serial(d) => d.bus_write(address, value),
            Device::Ppu(d) => d.bus_write(address, value),
        }
    }
}


impl ClockListener for Device {
    open spec fn tick_of(m: DeviceModel, bus: BusModel, cycles: u8) -> Ticked<DeviceModel> {
        m.tick(bus, cycles)
    }

    fn callback(&mut self, bus: &mut Bus, cycles: u8) -> (r: Result<(), Fault>) {
        match self {
            Device::Timer(d) => d.callback(bus, cycles),
            Device::Serial(d) => d.callback(bus, cycles),
            Device::Ppu(d) => d.callback(bus, cycles),
            _ => Ok(()),
        }
    }
}

/// What a block or a register leads to.
#[derive(Clone, Copy, Debug, PartialEq, Eq, Structural)]
pub enum Target {
    /// Nothing is attached.
    Free,
    /// The interrupt registers, which the bus holds itself.
    Interrupts,
    /// The component with this handle.
    Device(usize),
}

/// One entry of a routing table: what is attached, and what has been laid
/// over it.
#[derive(Clone, Copy, Debug, PartialEq, Eq, Structural)]
pub struct Slot {
    pub base: Target,
    pub overlay: Target,
}

impl Slot {
    /// What an access is routed to: the overlay where there is one.
    pub open spec fn target(self) -> Target {
        if self.overlay != Target::Free {
            self.overlay
        } else {
            self.base
        }
    }

    pub open spec fn layer(self, overlay: bool) -> Target {
        if overlay {
            self.overlay
        } else {
            self.base
        }
    }

    pub open spec fn with(self, overlay: bool, target: Target) -> Slot {
        if overlay {
            Slot { overlay: target, ..self }
        } else {
            Slot { base: target, ..self }
        }
    }

    /// The slot once the component with this handle has let go of it.
    pub open spec fn without(self, handle: usize) -> Slot {
        Slot {
            base: if self.base == Target::Device(handle) {
                Target::Free
            } else {
                self.base
            },
            overlay: if self.overlay == Target::Device(handle) {
                Target::Free
            } else {
                self.overlay
            },
        }
    }

    fn get(self, overlay: bool) -> (r: Target)
        ensures
            r == self.layer(overlay),
    {
        if overlay {
            self.overlay
        } else {
            self.base
        }
    }

    fn set(self, overlay: bool, target: Target) -> (r: Slot)
        ensures
            r == self.with(overlay, target),
    {
        if overlay {
            Slot { overlay: target, base: self.base }
        } else {
            Slot { base: target, overlay: self.overlay }
        }
    }

    fn clear(self, handle: usize) -> (r: Slot)
        ensures
            r == self.without(handle),
    {
        let base = match self.base {
            Target::Device(h) => if h == handle {
                Target::Free
            } else {
                self.base
            },
            _ => self.base,
        };
        let overlay = match self.overlay {
            Target::Device(h) => if h == handle {
                Target::Free
            } else {
                self.overlay
            },
            _ => self.overlay,
        };
        Slot { base, overlay }
    }
}

/// Whether two claims have a block or a register in common.
pub open spec fn claims_meet(a: Attach, b: Attach) -> bool {
    &&& attach_is_register(a) == attach_is_register(b)
    &&& attach_first(a) <= attach_last(b)
    &&& attach_first(b) <= attach_last(a)
}

/// Whether the claim at `i` meets one that stands before it in the list.
pub open spec fn claim_repeats(claims: Seq<Attach>, i: int) -> bool {
    exists|j: int| 0 <= j < i && claims_meet(#[trigger] claims[j], claims[i])
}

/// The state of a bus: its components, its two routing tables and the
/// interrupt registers.
pub struct BusModel {
    pub devices: Seq<DeviceModel>,
    /// One slot for each high byte of an address below `0xFF00`.
    pub blocks: Seq<Slot>,
    /// One slot for each low byte of an address from `0xFF00` on.
    pub registers: Seq<Slot>,
    pub interrupts: InterruptRegisters,
}

impl BusModel {
    pub open spec fn target_ok(self, t: Target) -> bool {
        t matches Target::Device(h) ==> h < self.devices.len()
    }

    pub open spec fn slot_ok(self, s: Slot) -> bool {
        self.target_ok(s.base) && self.target_ok(s.overlay)
    }

    pub open spec fn wf(self) -> bool {
        &&& self.blocks.len() == 256
        &&& self.registers.len() == 256
        &&& forall|i: int| 0 <= i < 256 ==> self.slot_ok(#[trigger] self.blocks[i])
        &&& forall|i: int| 0 <= i < 256 ==> self.slot_ok(#[trigger] self.registers[i])
        &&& forall|i: int| 0 <= i < self.devices.len() ==> (#[trigger] self.devices[i]).wf()
    }

    pub open spec fn table(self, register: bool) -> Seq<Slot> {
        if register {
            self.registers
        } else {
            self.blocks
        }
    }

    /// The slot that an address is looked up in: by its high byte below
    /// `0xFF00`, by its low byte from there on.
    pub open spec fn slot(self, address: Address) -> Slot {
        if address < 0xFF00 {
            self.blocks[(address / 256) as int]
        } else {
            self.registers[(address % 256) as int]
        }
    }

    pub open spec fn route(self, address: Address) -> Target {
        self.slot(address).target()
    }

    pub open spec fn read_byte(self, address: Address) -> Result<Byte, Fault> {
        match self.route(address) {
            Target::Free => Err(Fault::Unmapped(address)),
            Target::Interrupts => interrupt_read(self.interrupts, address),
            Target::Device(h) => self.devices[h as int].read(address),
        }
    }

    /// The bus once the component with this handle has let go of every slot.
    pub open spec fn detach(self, handle: usize) -> BusModel {
        BusModel {
            blocks: Seq::new(256, |i: int| self.blocks[i].without(handle)),
            registers: Seq::new(256, |i: int| self.registers[i].without(handle)),
            ..self
        }
    }

    pub open spec fn write_byte(self, address: Address, value: Byte) -> Result<BusModel, Fault> {
        match self.route(address) {
            Target::Free => Err(Fault::Unmapped(address)),
            Target::Interrupts => match interrupt_write(self.interrupts, address, value) {
                Ok((regs, _)) => Ok(BusModel { interrupts: regs, ..self }),
                Err(f) => Err(f),
            },
            Target::Device(h) => match self.devices[h as int].write(address, value) {
                Ok((d, detach)) => {
                    let written = BusModel { devices: self.devices.update(h as int, d), ..self };
                    if detach {
                        Ok(written.detach(h))
                    } else {
                        Ok(written)
                    }
                },
                Err(f) => Err(f),
            },
        }
    }

    /// A word is read low byte first, from `address` and the address after
    /// it, which is 0 after `0xFFFF`.
    pub open spec fn read_word(self, address: Address) -> Result<Word, Fault> {
        match self.read_byte(address) {
            Err(f) => Err(f),
            Ok(lo) => match self.read_byte(next_address(address)) {
                Err(f) => Err(f),
                Ok(hi) => Ok((lo + 256 * hi) as Word),
            },
        }
    }

    /// The bus after a word is written, low byte first, with what the write
    /// comes to. If the second byte cannot be written the first has been.
    pub open spec fn write_word(self, address: Address, value: Word) -> (BusModel, Result<(), Fault>) {
        match self.write_byte(address, (value % 256) as Byte) {
            Err(f) => (self, Err(f)),
            Ok(low) => match low.write_byte(next_address(address), (value / 256) as Byte) {
                Err(f) => (low, Err(f)),
                Ok(both) => (both, Ok(())),
            },
        }
    }

    /// The bus with a component put in the place of another.
    pub open spec fn with_device(self, handle: usize, device: DeviceModel) -> BusModel {
        BusModel { devices: self.devices.update(handle as int, device), ..self }
    }

    /// The bus after some cycles have passed for the component with a
    /// handle, and whether a fault ended them. While they pass the
    /// component's place is vacant; afterwards, and after a fault too, the
    /// component is back in its place.
    pub open spec fn tick(self, handle: usize, cycles: u8) -> (BusModel, Result<(), Fault>) {
        if handle >= self.devices.len() {
            (self, Err(Fault::NoSuchDevice(handle)))
        } else {
            let ticked = self.devices[handle as int].tick(self.with_device(handle, DeviceModel::Vacant), cycles);
            (ticked.bus.with_device(handle, ticked.component), ticked.result)
        }
    }

    /// Whether a block or register of the claim is already taken in the
    /// given layer.
    pub open spec fn claim_taken(self, c: Attach, overlay: bool) -> bool {
        exists|s: int|
            attach_first(c) <= s <= attach_last(c) && (#[trigger] self.table(attach_is_register(c))[s]).layer(
                overlay,
            ) != Target::Free
    }

    /// Whether the claim at `i` cannot be granted: it meets what is
    /// attached, or it meets an earlier claim of the same list.
    pub open spec fn claim_bad(self, claims: Seq<Attach>, i: int, overlay: bool) -> bool {
        self.claim_taken(claims[i], overlay) || claim_repeats(claims, i)
    }

    /// The first claim from `from` on that cannot be granted.
    pub open spec fn first_bad(self, claims: Seq<Attach>, from: int, overlay: bool) -> Option<int>
        decreases claims.len() - from,
    {
        if from >= claims.len() {
            None
        } else if self.claim_bad(claims, from, overlay) {
            Some(from)
        } else {
            self.first_bad(claims, from + 1, overlay)
        }
    }

    /// A routing table once the claims on it are granted to `target`.
    pub open spec fn granted(self, claims: Seq<Attach>, register: bool, overlay: bool, target: Target) -> Seq<
        Slot,
    > {
        Seq::new(
            256,
            |s: int|
                if claims_cover(claims, register, s) {
                    self.table(register)[s].with(overlay, target)
                } else {
                    self.table(register)[s]
                },
        )
    }

    /// Grants the claims to `target`, or says why not: there is none, or
    /// which is the first that cannot be granted.
    pub open spec fn claim(self, claims: Seq<Attach>, overlay: bool, target: Target) -> Result<
        BusModel,
        BusError,
    > {
        if claims.len() == 0 {
            Err(BusError::NoRanges)
        } else {
            match self.first_bad(claims, 0, overlay) {
                Some(i) => Err(BusError::Overlap(claims[i])),
                None => Ok(
                    BusModel {
                        blocks: self.granted(claims, false, overlay, target),
                        registers: self.granted(claims, true, overlay, target),
                        ..self
                    },
                ),
            }
        }
    }

    /// Adds a component under the next handle and routes its claims to it.
    pub open spec fn attach(self, device: DeviceModel, overlay: bool) -> Result<BusModel, BusError> {
        match self.claim(device.claims(), overlay, Target::Device(self.devices.len() as usize)) {
            Ok(b) => Ok(BusModel { devices: self.devices.push(device), ..b }),
            Err(e) => Err(e),
        }
    }

    /// Routes the two interrupt registers' addresses to the registers that
    /// the bus holds.
    pub open spec fn attach_interrupts(self) -> Result<BusModel, BusError> {
        self.claim(interrupt_claims(), false, Target::Interrupts)
    }
}

/// Whether an operation without a value ended as was to be expected: in
/// success, or in the same fault.
pub open spec fn ended(r: Result<(), Fault>, expected: Result<(), Fault>) -> bool {
    match expected {
        Ok(_) => r is Ok,
        Err(f) => r == Err::<(), Fault>(f),
    }
}

/// The address after `address`, which is 0 after `0xFFFF`.
pub open spec fn next_address(address: Address) -> Address {
    if address == 0xFFFF {
        0
    } else {
        (address + 1) as Address
    }
}

pub fn address_after(address: Address) -> (r: Address)
    ensures
        r == next_address(address),
{
    if address == 0xFFFF {
        0
    } else {
        address + 1
    }
}


/// Whether a claim is on registers, and the first and last slot it covers.
fn attach_bounds(c: Attach) -> (r: (bool, u8, u8))
    ensures
        r.0 == attach_is_register(c),
        r.1 == attach_first(c),
        r.2 == attach_last(c),
{
    match c {
        Attach::Block(b) => (false, b, b),
        Attach::BlockRange(a, b) => (false, a, b),
        Attach::Register(r) => (true, r, r),
        Attach::RegisterRange(a, b) => (true, a, b),
    }
}

fn covers(claims: &Vec<Attach>, register: bool, slot: usize) -> (r: bool)
    requires
        slot < 256,
    ensures
        r == claims_cover(claims@, register, slot as int),
{
    let mut i: usize = 0;
    while i < claims.len()
        invariant
            i <= claims.len(),
            forall|j: int| 0 <= j < i ==> !attach_covers(#[trigger] claims@[j], register, slot as int),
        decreases claims.len() - i,
    {
        let (is_register, first, last) = attach_bounds(claims[i]);
        if is_register == register && (first as usize) <= slot && slot <= (last as usize) {
            return true;
        }
        i += 1;
    }
    false
}

fn repeats(claims: &Vec<Attach>, i: usize) -> (r: bool)
    requires
        i < claims.len(),
    ensures
        r == claim_repeats(claims@, i as int),
{
    let (is_register, first, last) = attach_bounds(claims[i]);
    let mut j: usize = 0;
    while j < i
        invariant
            j <= i,
            i < claims.len(),
            is_register == attach_is_register(claims@[i as int]),
            first == attach_first(claims@[i as int]),
            last == attach_last(claims@[i as int]),
            forall|k: int| 0 <= k < j ==> !claims_meet(#[trigger] claims@[k], claims@[i as int]),
        decreases i - j,
    {
        let (r, f, l) = attach_bounds(claims[j]);
        if r == is_register && f <= last && first <= l {
            return true;
        }
        j += 1;
    }
    false
}

fn grant_table(table: &mut Vec<Slot>, claims: &Vec<Attach>, register: bool, overlay: bool, target: Target)
    requires
        old(table).len() == 256,
    ensures
        final(table)@ == Seq::new(
            256,
            |s: int|
                if claims_cover(claims@, register, s) {
                    old(table)@[s].with(overlay, target)
                } else {
                    old(table)@[s]
                },
        ),
{
    let ghost before = table@;
    let mut k: usize = 0;
    while k < 256
        invariant
            k <= 256,
            table.len() == 256,
            before.len() == 256,
            forall|s: int|
                0 <= s < k ==> table@[s] == (if claims_cover(claims@, register, s) {
                    before[s].with(overlay, target)
                } else {
                    before[s]
                }),
            forall|s: int| k <= s < 256 ==> table@[s] == before[s],
        decreases 256 - k,
    {
        if covers(claims, register, k) {
            let slot = table[k];
            table[k] = slot.set(overlay, target);
        }
        k += 1;
    }
}

fn clear_table(table: &mut Vec<Slot>, handle: usize)
    requires
        old(table).len() == 256,
    ensures
        final(table)@ == Seq::new(256, |i: int| old(table)@[i].without(handle)),
{
    let ghost before = table@;
    let mut k: usize = 0;
    while k < 256
        invariant
            k <= 256,
            table.len() == 256,
            before.len() == 256,
            forall|s: int| 0 <= s < k ==> table@[s] == before[s].without(handle),
            forall|s: int| k <= s < 256 ==> table@[s] == before[s],
        decreases 256 - k,
    {
        let slot = table[k];
        table[k] = slot.clear(handle);
        k += 1;
    }
}

/// The address bus. It owns the components attached to it and hands each
/// access to the one that claimed the address.
pub struct Bus {
    devices: Vec<Device>,
    blocks: Vec<Slot>,
    registers: Vec<Slot>,
    interrupts: InterruptRegisters,
}

impl Bus {
    pub closed spec fn view(&self) -> BusModel {
        BusModel {
            devices: Seq::new(self.devices.len() as nat, |i: int| self.devices[i]@),
            blocks: self.blocks@,
            registers: self.registers@,
            interrupts: self.interrupts,
        }
    }

    pub closed spec fn wf(&self) -> bool {
        &&& self@.wf()
        &&& forall|i: int| 0 <= i < self.devices.len() ==> (#[trigger] self.devices[i]).wf()
    }

    /// A well-formed bus has a well-formed model.
    pub proof fn lemma_wf(&self)
        requires
            self.wf(),
        ensures
            self@.wf(),
    {
    }

    /// A bus with nothing attached. Interrupts are off, with the three unused
    /// bits of the enable mask set and nothing pending.
    pub fn new() -> (r: Self)
        ensures
            r.wf(),
            r@ == (BusModel {
                devices: Seq::empty(),
                blocks: Seq::new(256, |i: int| Slot { base: Target::Free, overlay: Target::Free }),
                registers: Seq::new(256, |i: int| Slot { base: Target::Free, overlay: Target::Free }),
                interrupts: InterruptRegisters { master_enable: false, enable: 0xE0, flags: 0x00 },
            }),
    {
        let free = Slot { base: Target::Free, overlay: Target::Free };
        let r = Bus {
            devices: Vec::new(),
            blocks: filled(free, 256),
            registers: filled(free, 256),
            interrupts: InterruptRegisters { master_enable: false, enable: 0xE0, flags: 0x00 },
        };
        assert(r@.devices =~= Seq::empty());
        r
    }

    /// The number of components attached so far.
    pub fn len(&self) -> (r: usize)
        ensures
            r == self@.devices.len(),
    {
        self.devices.len()
    }

    /// The interrupt registers.
    pub fn interrupts(&self) -> (r: InterruptRegisters)
        ensures
            r == self@.interrupts,
    {
        self.interrupts
    }

    pub fn set_interrupts(&mut self, registers: InterruptRegisters)
        requires
            old(self).wf(),
        ensures
            final(self).wf(),
            final(self)@ == (BusModel { interrupts: registers, ..old(self)@ }),
    {
        self.interrupts = registers;
    }

    fn route(&self, address: Address) -> (t: Target)
        requires
            self.wf(),
        ensures
            t == self@.route(address),
            self@.target_ok(t),
    {
        let slot = if address < 0xFF00 {
            self.blocks[(address / 256) as usize]
        } else {
            self.registers[(address % 256) as usize]
        };
        match slot.overlay {
            Target::Free => slot.base,
            t => t,
        }
    }

    /// Reads the byte at an address from the component that claimed it.
    pub fn read_byte(&self, address: Address) -> (r: Result<Byte, Fault>)
        requires
            self.wf(),
        ensures
            r == self@.read_byte(address),
    {
        match self.route(address) {
            Target::Free => Err(Fault::Unmapped(address)),
            Target::Interrupts => self.interrupts.bus_read(address),
            Target::Device(h) => self.devices[h].bus_read(address),
        }
    }

    fn detach(&mut self, handle: usize)
        requires
            old(self).wf(),
        ensures
            final(self).wf(),
            final(self)@ == old(self)@.detach(handle),
    {
        clear_table(&mut self.blocks, handle);
        clear_table(&mut self.registers, handle);
        assert(self@.devices =~= old(self)@.devices);
    }

    /// Writes a byte to the component that claimed the address, and
    /// detaches the component if the write made it ask for that. A write
    /// that fails changes nothing.
    pub fn write_byte(&mut self, address: Address, value: Byte) -> (r: Result<(), Fault>)
        requires
            old(self).wf(),
        ensures
            final(self).wf(),
            final(self)@.devices.len() == old(self)@.devices.len(),
            match old(self)@.write_byte(address, value) {
                Ok(b) => r is Ok && final(self)@ == b,
                Err(f) => r == Err::<(), Fault>(f) && final(self)@ == old(self)@,
            },
    {
        match self.route(address) {
            Target::Free => Err(Fault::Unmapped(address)),
            Target::Interrupts => {
                let r = self.interrupts.bus_write(address, value);
                match r {
                    Ok(_) => Ok(()),
                    Err(f) => Err(f),
                }
            },
            Target::Device(h) => {
                let device = &mut self.devices[h];
                let r = device.bus_write(address, value);
                match r {
                    Ok(detach) => {
                        assert(self@.devices =~= old(self)@.devices.update(h as int, self.devices@[h as int]@));
                        if detach {
                            self.detach(h);
                        }
                        Ok(())
                    },
                    Err(f) => {
                        assert(self@.devices =~= old(self)@.devices);
                        Err(f)
                    },
                }
            },
        }
    }

    /// Reads a word, low byte first.
    pub fn read_word(&self, address: Address) -> (r: Result<Word, Fault>)
        requires
            self.wf(),
        ensures
            r == self@.read_word(address),
    {
        let lo = self.read_byte(address)?;
        let hi = self.read_byte(address_after(address))?;
        Ok((lo as Word) + 256 * (hi as Word))
    }

    /// Writes a word, low byte first. If the second write fails the first
    /// has been made; if the first fails nothing has.
    pub fn write_word(&mut self, address: Address, value: Word) -> (r: Result<(), Fault>)
        requires
            old(self).wf(),
        ensures
            final(self).wf(),
            final(self)@.devices.len() == old(self)@.devices.len(),
            final(self)@ == old(self)@.write_word(address, value).0,
            ended(r, old(self)@.write_word(address, value).1),
    {
        self.write_byte(address, (value % 256) as Byte)?;
        self.write_byte(address_after(address), (value / 256) as Byte)
    }

    /// Lets some cycles pass for the component with a handle. The
    /// component is taken out of the table for as long as that takes, so
    /// that it can use the bus itself.
    pub fn tick(&mut self, handle: usize, cycles: u8) -> (r: Result<(), Fault>)
        requires
            old(self).wf(),
        ensures
            final(self).wf(),
            final(self)@.devices.len() == old(self)@.devices.len(),
            final(self)@ == old(self)@.tick(handle, cycles).0,
            ended(r, old(self)@.tick(handle, cycles).1),
    {
        if handle >= self.devices.len() {
            return Err(Fault::NoSuchDevice(handle));
        }
        let mut device = Device::Vacant;
        core::mem::swap(&mut device, &mut self.devices[handle]);
        assert(self@.devices =~= old(self)@.devices.update(handle as int, DeviceModel::Vacant));
        let r = device.callback(self, cycles);
        let ghost after = self@;
        proof {
            device.lemma_model_wf();
        }
        core::mem::swap(&mut device, &mut self.devices[handle]);
        assert(self@.devices =~= after.devices.update(handle as int, self.devices@[handle as int]@));
        r
    }

    /// The component with a handle.
    pub fn device(&self, handle: usize) -> (r: Option<&Device>)
        requires
            self.wf(),
        ensures
            match r {
                Some(d) => handle < self@.devices.len() && d@ == self@.devices[handle as int] && d.wf(),
                None => handle >= self@.devices.len(),
            },
    {
        if handle < self.devices.len() {
            Some(&self.devices[handle])
        } else {
            None
        }
    }

    /// Hands out the frame that the video controller with a handle has
    /// ready, if the component is one and a frame is ready.
    pub fn take_frame(&mut self, handle: usize) -> (r: Option<Vec<u32>>)
        requires
            old(self).wf(),
        ensures
            final(self).wf(),
            old(self)@.frame(handle) matches Some((pixels, b)) ==> r matches Some(v) && v@ == pixels
                && final(self)@ == b,
            old(self)@.frame(handle) is None ==> r is None && final(self)@ == old(self)@,
    {
        if handle >= self.devices.len() {
            return None;
        }
        let r = match &mut self.devices[handle] {
            Device::Ppu(ppu) => ppu.take_frame(),
            _ => None,
        };
        proof {
            self.devices@[handle as int].lemma_model_wf();
            assert(self@.devices =~= old(self)@.devices.update(handle as int, self.devices@[handle as int]@));
            if old(self)@.frame(handle) is None {
                assert(self@.devices =~= old(self)@.devices);
            }
        }
        r
    }

    /// Tells the joypad with a handle which inputs are held down. The result
    /// says whether the pause key is among them.
    pub fn press(&mut self, handle: usize, inputs: &Vec<JoypadButtons>) -> (pause: bool)
        requires
            old(self).wf(),
        ensures
            final(self).wf(),
            final(self)@ == old(self)@.pressed(handle, inputs@),
            pause == crate::joypad::held(inputs@, inputs@.len()).2,
    {
        if handle >= self.devices.len() {
            return crate::joypad::paused(inputs);
        }
        let pause = match &mut self.devices[handle] {
            Device::Joypad(joypad) => joypad.press(inputs),
            _ => crate::joypad::paused(inputs),
        };
        assert(self@.devices =~= old(self)@.pressed(handle, inputs@).devices);
        pause
    }

    /// Hands out the bytes that the serial port with a handle has sent.
    pub fn take_sent(&mut self, handle: usize) -> (r: Vec<u8>)
        requires
            old(self).wf(),
        ensures
            final(self).wf(),
            r@ == old(self)@.sent(handle),
            final(self)@ == old(self)@.unsent(handle),
    {
        if handle >= self.devices.len() {
            return Vec::new();
        }
        let r = match &mut self.devices[handle] {
            Device::Serial(serial) => serial.take_sent(),
            _ => Vec::new(),
        };
        assert(self@.devices =~= old(self)@.unsent(handle).devices);
        r
    }

    fn taken(&self, c: Attach, overlay: bool) -> (r: bool)
        requires
            self.wf(),
        ensures
            r == self@.claim_taken(c, overlay),
    {
        let (is_register, first, last) = attach_bounds(c);
        let mut s: usize = first as usize;
        while s <= last as usize
            invariant
                self.wf(),
                first <= s,
                s <= 256,
                is_register == attach_is_register(c),
                first == attach_first(c),
                last == attach_last(c),
                forall|k: int| first <= k < s ==> (#[trigger] self@.table(is_register)[k]).layer(overlay) == Target::Free,
            decreases 256 - s,
        {
            let slot = if is_register {
                self.registers[s]
            } else {
                self.blocks[s]
            };
            match slot.get(overlay) {
                Target::Free => {},
                _ => {
                    return true;
                },
            }
            s += 1;
        }
        false
    }

    fn find_bad(&self, claims: &Vec<Attach>, overlay: bool) -> (r: Option<usize>)
        requires
            self.wf(),
        ensures
            match self@.first_bad(claims@, 0, overlay) {
                Some(i) => r == Some(i as usize) && 0 <= i < claims.len(),
                None => r is None,
            },
    {
        let mut i: usize = 0;
        while i < claims.len()
            invariant
                self.wf(),
                i <= claims.len(),
                self@.first_bad(claims@, 0, overlay) == self@.first_bad(claims@, i as int, overlay),
            decreases claims.len() - i,
        {
            if self.taken(claims[i], overlay) || repeats(claims, i) {
                return Some(i);
            }
            i += 1;
        }
        None
    }

    fn claim(&mut self, claims: &Vec<Attach>, overlay: bool, target: Target) -> (r: Result<(), BusError>)
        requires
            old(self).wf(),
            old(self)@.target_ok(target),
        ensures
            final(self).wf(),
            final(self).devices == old(self).devices,
            match old(self)@.claim(claims@, overlay, target) {
                Ok(b) => r is Ok && final(self)@ == b,
                Err(e) => r == Err::<(), BusError>(e) && final(self)@ == old(self)@,
            },
    {
        if claims.len() == 0 {
            return Err(BusError::NoRanges);
        }
        match self.find_bad(claims, overlay) {
            Some(i) => Err(BusError::Overlap(claims[i])),
            None => {
                grant_table(&mut self.blocks, claims, false, overlay, target);
                grant_table(&mut self.registers, claims, true, overlay, target);
                Ok(())
            },
        }
    }

    fn add(&mut self, device: Device, overlay: bool) -> (r: Result<usize, BusError>)
        requires
            old(self).wf(),
            device.wf(),
        ensures
            final(self).wf(),
            match old(self)@.attach(device@, overlay) {
                Ok(b) => r == Ok::<usize, BusError>(old(self)@.devices.len() as usize) && final(self)@ == b,
                Err(e) => r == Err::<usize, BusError>(e) && final(self)@ == old(self)@,
            },
    {
        let claims = device.bus_attach();
        let handle = self.devices.len();
        proof {
            device.lemma_model_wf();
        }
        self.devices.push(device);
        assert(self@.devices =~= old(self)@.devices.push(device@));
        let ghost pushed = self@;
        assert(forall|i: int| pushed.first_bad(claims@, i, overlay) == old(self)@.first_bad(claims@, i, overlay)) by {
            assert forall|i: int| pushed.first_bad(claims@, i, overlay) == old(self)@.first_bad(claims@, i, overlay) by {
                old(self)@.lemma_first_bad_tables(pushed, claims@, i, overlay);
            }
        }
        match self.claim(&claims, overlay, Target::Device(handle)) {
            Ok(()) => {
                assert(self@ == old(self)@.attach(device@, overlay)->Ok_0) by {
                    let b = old(self)@.attach(device@, overlay)->Ok_0;
                }
                Ok(handle)
            },
            Err(e) => {
                self.devices.pop();
                assert(self@.devices =~= old(self)@.devices);
                Err(e)
            },
        }
    }

    /// Attaches a component. It fails, and leaves the bus as it was, if the
    /// component claims nothing, or if one of its claims meets a block or
    /// register that is taken, or meets another of its own claims. The
    /// result is the component's handle.
    pub fn attach(&mut self, device: Device) -> (r: Result<usize, BusError>)
        requires
            old(self).wf(),
            device.wf(),
        ensures
            final(self).wf(),
            match old(self)@.attach(device@, false) {
                Ok(b) => r == Ok::<usize, BusError>(old(self)@.devices.len() as usize) && final(self)@ == b,
                Err(e) => r == Err::<usize, BusError>(e) && final(self)@ == old(self)@,
            },
    {
        self.add(device, false)
    }

    /// Lays a component over what is attached: accesses to its claims go to
    /// it until it is detached. Only another overlay can be in its way.
    pub fn attach_overlay(&mut self, device: Device) -> (r: Result<usize, BusError>)
        requires
            old(self).wf(),
            device.wf(),
        ensures
            final(self).wf(),
            match old(self)@.attach(device@, true) {
                Ok(b) => r == Ok::<usize, BusError>(old(self)@.devices.len() as usize) && final(self)@ == b,
                Err(e) => r == Err::<usize, BusError>(e) && final(self)@ == old(self)@,
            },
    {
        self.add(device, true)
    }

    /// Routes `0xFF0F` and `0xFFFF` to the interrupt registers.
    pub fn attach_interrupts(&mut self) -> (r: Result<(), BusError>)
        requires
            old(self).wf(),
        ensures
            final(self).wf(),
            match old(self)@.attach_interrupts() {
                Ok(b) => r is Ok && final(self)@ == b,
                Err(e) => r == Err::<(), BusError>(e) && final(self)@ == old(self)@,
            },
    {
        let claims = self.interrupts.bus_attach();
        self.claim(&claims, false, Target::Interrupts)
    }
}

impl BusModel {
    /// Which claims can be granted depends on the routing tables alone.
    pub proof fn lemma_first_bad_tables(self, other: BusModel, claims: Seq<Attach>, from: int, overlay: bool)
        requires
            self.blocks == other.blocks,
            self.registers == other.registers,
        ensures
            self.first_bad(claims, from, overlay) == other.first_bad(claims, from, overlay),
        decreases claims.len() - from,
    {
        if from < claims.len() {
            let c = claims[from];
            self.lemma_first_bad_tables(other, claims, from + 1, overlay);
        }
    }
}


impl BusModel {
    /// Where a claim from `from` on cannot be granted, a first such claim is
    /// found.
    pub proof fn lemma_first_bad_found(self, claims: Seq<Attach>, from: int, i: int, overlay: bool)
        requires
            0 <= from <= i < claims.len(),
            self.claim_bad(claims, i, overlay),
        ensures
            self.first_bad(claims, from, overlay) is Some,
        decreases i - from,
    {
        if from < i && !self.claim_bad(claims, from, overlay) {
            self.lemma_first_bad_found(claims, from + 1, i, overlay);
        }
    }

    /// Where no claim from `from` on is in the way, none is found.
    pub proof fn lemma_first_bad_none(self, claims: Seq<Attach>, from: int, overlay: bool)
        requires
            0 <= from,
            forall|i: int| from <= i < claims.len() ==> !self.claim_bad(claims, i, overlay),
        ensures
            self.first_bad(claims, from, overlay) is None,
        decreases claims.len() - from,
    {
        if from < claims.len() {
            self.lemma_first_bad_none(claims, from + 1, overlay);
        }
    }

    /// A component can be attached if it claims something and none of its
    /// claims meets what is attached or another of its claims.
    pub proof fn law_free_claims_granted(self, device: DeviceModel, overlay: bool)
        requires
            device.claims().len() > 0,
            forall|i: int| 0 <= i < device.claims().len() ==> !self.claim_bad(device.claims(), i, overlay),
        ensures
            self.attach(device, overlay) is Ok,
    {
        self.lemma_first_bad_none(device.claims(), 0, overlay);
    }

    /// No component can be attached that claims a block or a register that
    /// is taken.
    pub proof fn law_taken_slot_refused(self, device: DeviceModel, register: bool, slot: u8, overlay: bool)
        requires
            self.table(register)[slot as int].layer(overlay) != Target::Free,
            claims_cover(device.claims(), register, slot as int),
        ensures
            self.attach(device, overlay) is Err,
    {
        let claims = device.claims();
        let i = choose|i: int| 0 <= i < claims.len() && attach_covers(#[trigger] claims[i], register, slot as int);
        self.lemma_first_bad_found(claims, 0, i, overlay);
    }

    /// Of two components that claim the same block or register, the second
    /// cannot be attached once the first is.
    pub proof fn law_second_claim_refused(self, first: DeviceModel, second: DeviceModel, register: bool, slot: u8)
        requires
            self.blocks.len() == 256,
            self.registers.len() == 256,
            claims_cover(first.claims(), register, slot as int),
            claims_cover(second.claims(), register, slot as int),
            self.attach(first, false) is Ok,
        ensures
            self.attach(first, false)->Ok_0.attach(second, false) is Err,
    {
        let attached = self.attach(first, false)->Ok_0;
        attached.law_taken_slot_refused(second, register, slot, false);
    }

    /// What is written to work RAM below `0xDE00` is read back `0x2000`
    /// above, in the echo.
    pub proof fn law_echo_ram(self, address: Address, value: Byte, handle: usize)
        requires
            self.wf(),
            0xC000 <= address < 0xDE00,
            self.route(address) == Target::Device(handle),
            self.route((address + 0x2000) as Address) == Target::Device(handle),
            self.devices[handle as int] is Ram,
        ensures
            self.write_byte(address, value) matches Ok(written) && written.read_byte((address + 0x2000) as Address)
                == Ok::<Byte, Fault>(value),
    {
    }

    /// What is written to an address of work RAM is read back from it.
    pub proof fn law_ram_keeps(self, address: Address, value: Byte, handle: usize)
        requires
            self.wf(),
            0xC000 <= address <= 0xFDFF,
            self.route(address) == Target::Device(handle),
            self.devices[handle as int] is Ram,
        ensures
            self.write_byte(address, value) matches Ok(written) && written.read_byte(address) == Ok::<Byte, Fault>(
                value,
            ) && written.interrupts == self.interrupts,
    {
    }
}


impl BusModel {
    /// The frame that the video controller with a handle has ready, and the
    /// bus once it has been handed out.
    pub open spec fn frame(self, handle: usize) -> Option<(Seq<u32>, BusModel)> {
        if handle < self.devices.len() {
            match self.devices[handle as int] {
                DeviceModel::Ppu(m) => match m.frame() {
                    Some(pixels) => Some(
                        (pixels, self.with_device(handle, DeviceModel::Ppu(PpuModel { render_flag: false, ..m }))),
                    ),
                    None => None,
                },
                _ => None,
            }
        } else {
            None
        }
    }

    /// The bus once the joypad with a handle knows which inputs are held
    /// down.
    pub open spec fn pressed(self, handle: usize, inputs: Seq<JoypadButtons>) -> BusModel {
        if handle < self.devices.len() {
            match self.devices[handle as int] {
                DeviceModel::Joypad(m) => self.with_device(handle, DeviceModel::Joypad(m.with_inputs(inputs))),
                _ => self,
            }
        } else {
            self
        }
    }

    /// The bytes that the serial port with a handle has sent.
    pub open spec fn sent(self, handle: usize) -> Seq<u8> {
        if handle < self.devices.len() {
            match self.devices[handle as int] {
                DeviceModel::Serial(m) => m.sent,
                _ => Seq::empty(),
            }
        } else {
            Seq::empty()
        }
    }

    /// The bus once the bytes sent have been handed out.
    pub open spec fn unsent(self, handle: usize) -> BusModel {
        if handle < self.devices.len() {
            match self.devices[handle as int] {
                DeviceModel::Serial(m) => self.with_device(
                    handle,
                    DeviceModel::Serial(SerialModel { sent: Seq::empty(), ..m }),
                ),
                _ => self,
            }
        } else {
            self
        }
    }
}

} // verus!
