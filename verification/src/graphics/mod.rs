//! What the presentation layer and the emulator agree on.

pub mod graphics_driver;
