//! The core of an emulator for a Game Boy class 8-bit console: a memory-mapped
//! bus, the CPU's instruction engine, the interrupt registers, the timer and
//! the video controller, each with a mathematical model of its state and
//! contracts that relate the executable code to that model.

pub mod boot_rom;
pub mod bus;
pub mod cartridge;
pub mod clock;
pub mod cpu;
pub mod debug;
pub mod graphics;
pub mod joypad;
pub mod ppu;
pub mod ram;
pub mod serial;
pub mod text;
pub mod timer;
