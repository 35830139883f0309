//! Colours as plain bytes.

use vstd::prelude::*;

verus! {

/// An opaque colour: one byte for each of red, green and blue.
#[derive(Clone, Copy, PartialEq, Eq, Structural, Debug)]
pub struct Rgb {
    pub r: u8,
    pub g: u8,
    pub b: u8,
}

/// A colour with an alpha channel, as one texel of an RGBA texture.
#[derive(Clone, Copy, PartialEq, Eq, Structural, Debug)]
pub struct Rgba {
    pub r: u8,
    pub g: u8,
    pub b: u8,
    pub a: u8,
}

impl Rgb {
    /// Builds a colour from its three channels.
    pub fn new(r: u8, g: u8, b: u8) -> (c: Rgb)
        ensures
            c == (Rgb { r, g, b }),
    {
        Rgb { r, g, b }
    }

    /// The colour's three channels, red first.
    pub open spec fn channels(self) -> Seq<u8> {
        seq![self.r, self.g, self.b]
    }

    /// The colour's three channels, red first.
    pub fn to_bytes(self) -> (bytes: [u8; 3])
        ensures
            bytes@ == self.channels(),
    {
        let bytes: [u8; 3] = [self.r, self.g, self.b];
        bytes
    }
}

impl Rgba {
    /// The texel's four channels in upload order: red, green, blue, alpha.
    pub open spec fn channels(self) -> Seq<u8> {
        seq![self.r, self.g, self.b, self.a]
    }

    /// The texel's four channels in upload order: red, green, blue, alpha.
    pub fn to_bytes(self) -> (bytes: [u8; 4])
        ensures
            bytes@ == self.channels(),
    {
        let bytes: [u8; 4] = [self.r, self.g, self.b, self.a];
        bytes
    }
}

} // verus!
