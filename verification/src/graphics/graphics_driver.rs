//! The interface of a display.

use vstd::prelude::*;

verus! {

pub struct Point {
    pub x: u16,
    pub y: u16,
}

/// A colour as one number: red above green above blue, eight bits each.
pub open spec fn rgb(r: u8, g: u8, b: u8) -> u32 {
    (r * 0x10000 + g * 0x100 + b) as u32
}

pub fn encode_rgb(r: u8, g: u8, b: u8) -> (c: u32)
    ensures
        c == rgb(r, g, b),
{
    let red: u32 = r as u32;
    let green: u32 = g as u32;
    let blue: u32 = b as u32;
    assert((red << 16 | green << 8 | blue) == red * 0x10000 + green * 0x100 + blue) by (bit_vector)
        requires
            red < 256,
            green < 256,
            blue < 256,
    ;
    red << 16 | green << 8 | blue
}

/// A display that frames are shown on. The emulator makes no assumption
/// about what an implementation does with them.
pub trait GraphicsDriver {
    /// Colours one pixel.
    fn draw(&mut self, y: u16, x: u16, colour: u32);

    /// Shows a frame of 160 by 144 pixels, line after line.
    fn render(&mut self, pixel_buffer: &[u32]);

    /// Whether the user has closed the display.
    fn is_closed(&self) -> bool;
}

} // verus!
