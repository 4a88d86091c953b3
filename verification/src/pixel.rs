use vstd::prelude::*;

verus! {

/// One RGBA sample of a pixel buffer.
#[derive(Clone, Copy, Debug, PartialEq, Eq, Structural)]
pub struct Pixel {
    pub r: u8,
    pub g: u8,
    pub b: u8,
    pub a: u8,
}

impl Pixel {
    /// A pixel prints as a dark dot when it is not fully transparent and the
    /// average of its three colour channels lies below the luminance
    /// threshold.
    pub open spec fn dark(self) -> bool {
        self.a > 0 && (self.r + self.g + self.b) / 3 < 230
    }

    pub fn new(r: u8, g: u8, b: u8, a: u8) -> (p: Pixel)
        ensures
            p == (Pixel { r, g, b, a }),
    {
        Pixel { r, g, b, a }
    }

    pub fn is_gray(&self) -> (dark: bool)
        ensures
            dark == self.dark(),
    {
        self.a > 0 && (self.r as u16 + self.g as u16 + self.b as u16) / 3 < 230
    }

    pub fn red(&self) -> (v: u8)
        ensures
            v == self.r,
    {
        self.r
    }

    pub fn green(&self) -> (v: u8)
        ensures
            v == self.g,
    {
        self.g
    }

    pub fn blue(&self) -> (v: u8)
        ensures
            v == self.b,
    {
        self.b
    }

    pub fn alpha(&self) -> (v: u8)
        ensures
            v == self.a,
    {
        self.a
    }
}

impl Default for Pixel {
    /// The default pixel is fully transparent black, which never prints.
    fn default() -> (p: Self)
        ensures
            p == (Pixel { r: 0, g: 0, b: 0, a: 0 }),
    {
        Pixel { r: 0, g: 0, b: 0, a: 0 }
    }
}

} // verus!
