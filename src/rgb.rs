use vstd::prelude::*;

verus! {

/// A pixel quantised to 8 bits per channel, 0 to 255.
#[derive(Clone, Copy, Debug, PartialEq, Eq, Structural)]
pub struct Rgb {
    pub r: u8,
    pub g: u8,
    pub b: u8,
}

/// The 24-bit packing `(r << 16) | (g << 8) | b` used by display buffers.
pub open spec fn packed(p: Rgb) -> nat {
    p.r as nat * 65536 + p.g as nat * 256 + p.b as nat
}

impl Rgb {
    pub fn new(r: u8, g: u8, b: u8) -> (p: Self)
        ensures
            p == (Rgb { r, g, b }),
    {
        Rgb { r, g, b }
    }

    pub fn black() -> (p: Self)
        ensures
            p == (Rgb { r: 0, g: 0, b: 0 }),
    {
        Rgb { r: 0, g: 0, b: 0 }
    }

    /// The channels packed into one integer, red in bits 16 to 23, green in
    /// bits 8 to 15, blue in bits 0 to 7.
    pub fn to_u32(&self) -> (v: u32)
        ensures
            v == packed(*self),
            v < 0x1000000,
    {
        (self.r as u32) * 65536 + (self.g as u32) * 256 + (self.b as u32)
    }
}

} // verus!
