use vstd::prelude::*;

verus! {

/// Largest value of one displayable channel.
pub const CHANNEL_MAX: u8 = 255;

/// A color with three 8-bit channels.
#[derive(Clone, Copy, Debug, PartialEq, Eq, Structural)]
pub struct Color {
    pub r: u8,
    pub g: u8,
    pub b: u8,
}

/// Sum of two channels, held at the largest displayable value.
pub open spec fn channel_sum(a: u8, b: u8) -> u8 {
    if a + b > 255 {
        255
    } else {
        (a + b) as u8
    }
}

/// The color packed as `0xRRGGBB`.
pub open spec fn hex_of(c: Color) -> u32 {
    (c.r * 65536 + c.g * 256 + c.b) as u32
}

impl Color {
    pub fn new(r: u8, g: u8, b: u8) -> (c: Color)
        ensures
            c == (Color { r, g, b }),
    {
        Color { r, g, b }
    }

    pub fn black() -> (c: Color)
        ensures
            c == (Color { r: 0, g: 0, b: 0 }),
    {
        Color { r: 0, g: 0, b: 0 }
    }

    /// The color of a ray that meets no object.
    pub fn background() -> (c: Color)
        ensures
            c == (Color { r: 4, g: 12, b: 36 }),
    {
        Color { r: 4, g: 12, b: 36 }
    }

    /// Channel-wise sum of two displayable colors, each channel clamped at
    /// the displayable maximum. A helper for combining finished colors; it
    /// is not the shading sum, which may exceed that range until the color
    /// is written out.
    pub fn add(self, other: Color) -> (c: Color)
        ensures
            c.r == channel_sum(self.r, other.r),
            c.g == channel_sum(self.g, other.g),
            c.b == channel_sum(self.b, other.b),
    {
        Color {
            r: self.r.saturating_add(other.r),
            g: self.g.saturating_add(other.g),
            b: self.b.saturating_add(other.b),
        }
    }

    /// The color packed as `0xRRGGBB`, the layout of a framebuffer cell.
    pub fn to_hex(&self) -> (h: u32)
        ensures
            h == hex_of(*self),
            h < 0x0100_0000,
    {
        (self.r as u32) * 65536 + (self.g as u32) * 256 + (self.b as u32)
    }
}

} // verus!
