//! Packed 32-bit ARGB colors.

use vstd::prelude::*;

verus! {

/// A color packed as `0xAARRGGBB`: alpha in the most significant byte, then
/// red, green and blue.
#[derive(Debug, Clone, Copy, PartialEq, Eq, Structural, PartialOrd, Ord, Hash)]
pub struct Color(pub u32);

/// Fully transparent black, as a packed value.
pub const TRANSPARENT: u32 = 0x00_00_00_00;

/// Opaque white, as a packed value.
pub const WHITE: u32 = 0xFF_FF_FF_FF;

/// Opaque red, as a packed value.
pub const RED: u32 = 0xFF_FF_00_00;

/// Opaque dark gray, as a packed value.
pub const GRAY: u32 = 0xFF_33_33_33;

/// Opaque black, as a packed value.
pub const BLACK: u32 = 0xFF_00_00_00;

impl Color {
    /// The alpha channel as a number: the most significant byte.
    pub open spec fn alpha(self) -> int {
        self.0 as int / 0x100_0000
    }

    /// The red channel as a number.
    pub open spec fn red(self) -> int {
        (self.0 as int / 0x1_0000) % 0x100
    }

    /// The green channel as a number.
    pub open spec fn green(self) -> int {
        (self.0 as int / 0x100) % 0x100
    }

    /// The blue channel as a number.
    pub open spec fn blue(self) -> int {
        self.0 as int % 0x100
    }

    /// The color whose packed value is `value`.
    pub fn from_u32(value: u32) -> (c: Color)
        ensures
            c == Color(value),
            c.0 == value,
    {
        Color(value)
    }

    /// The color with the given channels.
    pub fn from_argb(a: u8, r: u8, g: u8, b: u8) -> (c: Color)
        ensures
            c.alpha() == a,
            c.red() == r,
            c.green() == g,
            c.blue() == b,
    {
        let packed: u32 = ((a as u32) << 24) | ((r as u32) << 16) | ((g as u32) << 8) | (b as u32);
        assert(packed / 0x100_0000 == a as u32 && (packed / 0x1_0000) % 0x100 == r as u32 && (packed
            / 0x100) % 0x100 == g as u32 && packed % 0x100 == b as u32) by (bit_vector)
            requires
                packed == ((a as u32) << 24) | ((r as u32) << 16) | ((g as u32) << 8) | (b as u32),
        ;
        Color(packed)
    }

    /// The packed value.
    pub fn as_u32(&self) -> (v: u32)
        ensures
            v == self.0,
            Color(v) == *self,
    {
        self.0
    }

    /// The red channel: bits 16 to 23.
    pub fn r(&self) -> (v: u8)
        ensures
            v as int == self.red(),
    {
        let packed: u32 = self.0;
        let byte: u32 = (packed >> 16) & 0xFF;
        assert(byte == (packed / 0x1_0000) % 0x100) by (bit_vector)
            requires
                byte == (packed >> 16) & 0xFF,
        ;
        byte as u8
    }

    /// The green channel: bits 8 to 15.
    pub fn g(&self) -> (v: u8)
        ensures
            v as int == self.green(),
    {
        let packed: u32 = self.0;
        let byte: u32 = (packed >> 8) & 0xFF;
        assert(byte == (packed / 0x100) % 0x100) by (bit_vector)
            requires
                byte == (packed >> 8) & 0xFF,
        ;
        byte as u8
    }

    /// The blue channel: bits 0 to 7.
    pub fn b(&self) -> (v: u8)
        ensures
            v as int == self.blue(),
    {
        let packed: u32 = self.0;
        let byte: u32 = packed & 0xFF;
        assert(byte == packed % 0x100) by (bit_vector)
            requires
                byte == packed & 0xFF,
        ;
        byte as u8
    }

    /// Whether the alpha channel is zero. The image blit skips such pixels.
    pub fn is_transparent(&self) -> (t: bool)
        ensures
            t == (self.alpha() == 0),
    {
        let packed: u32 = self.0;
        assert((packed & 0xFF00_0000 == 0) == (packed / 0x100_0000 == 0)) by (bit_vector);
        packed & 0xFF00_0000 == 0
    }
}

/// The four channels of a color determine it.
pub proof fn lemma_channels_determine_color(c: Color, d: Color)
    requires
        c.alpha() == d.alpha(),
        c.red() == d.red(),
        c.green() == d.green(),
        c.blue() == d.blue(),
    ensures
        c == d,
{
    let x: u32 = c.0;
    let y: u32 = d.0;
    assert(x == y) by (bit_vector)
        requires
            x / 0x100_0000 == y / 0x100_0000,
            (x / 0x1_0000) % 0x100 == (y / 0x1_0000) % 0x100,
            (x / 0x100) % 0x100 == (y / 0x100) % 0x100,
            x % 0x100 == y % 0x100,
    ;
}

impl From<u32> for Color {
    fn from(color: u32) -> (c: Color) {
        Color(color)
    }
}

impl vstd::std_specs::convert::FromSpecImpl<u32> for Color {
    open spec fn obeys_from_spec() -> bool {
        true
    }

    open spec fn from_spec(color: u32) -> Color {
        Color(color)
    }
}

} // verus!
