//! An RGB color and its packed decimal form.
//!
//! A color is three 8-bit channels; its decimal form packs them into the low
//! 24 bits of a `u32` (red highest). Packing and unpacking are exact inverses
//! on the 24-bit range.

use vstd::prelude::*;

verus! {

#[derive(Debug, Clone, Copy, PartialEq, Eq, PartialOrd, Ord, Hash)]
pub struct Color(pub u8, pub u8, pub u8);

impl Color {
    /// The packed decimal value of a color, as a mathematical integer.
    pub open spec fn spec_decimal(self) -> int {
        self.0 * 0x1_0000 + self.1 * 0x100 + self.2
    }

    pub fn new(r: u8, g: u8, b: u8) -> (c: Self)
        ensures
            c == Color(r, g, b),
    {
        Color(r, g, b)
    }

    pub fn r(self) -> (r: u8)
        ensures
            r == self.0,
    {
        self.0
    }

    pub fn g(self) -> (g: u8)
        ensures
            g == self.1,
    {
        self.1
    }

    pub fn b(self) -> (b: u8)
        ensures
            b == self.2,
    {
        self.2
    }

    /// Packs the three channels into one decimal value.
    pub fn to_decimal(self) -> (d: u32)
        ensures
            d == self.spec_decimal(),
            d < 0x100_0000,
    {
        (self.0 as u32) * 0x1_0000 + (self.1 as u32) * 0x100 + (self.2 as u32)
    }

    /// Recovers the three channels from a decimal value; bits above the low
    /// 24 are ignored.
    pub fn from_decimal(decimal: u32) -> (c: Self)
        ensures
            c == Color(
                ((decimal as int / 0x1_0000) % 0x100) as u8,
                ((decimal as int / 0x100) % 0x100) as u8,
                (decimal as int % 0x100) as u8,
            ),
    {
        let r: u32 = (decimal / 0x1_0000) % 0x100;
        let g: u32 = (decimal / 0x100) % 0x100;
        let b: u32 = decimal % 0x100;
        Color(r as u8, g as u8, b as u8)
    }
}

impl Default for Color {
    /// The default color is white.
    fn default() -> (c: Self)
        ensures
            c == Color(255u8, 255u8, 255u8),
    {
        Color(255, 255, 255)
    }
}

/// Unpacking a packed color returns the color itself.
pub proof fn lemma_decimal_round_trip(c: Color)
    ensures
        (c.spec_decimal() / 0x1_0000) % 0x100 == c.0,
        (c.spec_decimal() / 0x100) % 0x100 == c.1,
        c.spec_decimal() % 0x100 == c.2,
{
}

/// Packing an unpacked decimal returns the decimal's low 24 bits.
pub proof fn lemma_decimal_round_trip_back(d: u32)
    ensures
        Color(
            ((d as int / 0x1_0000) % 0x100) as u8,
            ((d as int / 0x100) % 0x100) as u8,
            (d as int % 0x100) as u8,
        ).spec_decimal() == d as int % 0x100_0000,
{
}

} // verus!
