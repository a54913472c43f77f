//! An RGBA color with one byte per channel, the form colors take both in
//! mesh files and in the flattened attribute buffers. The renderer
//! normalizes each channel to the 0..=1 range at upload time.

use vstd::prelude::*;

verus! {

#[derive(Clone, Copy, Debug, PartialEq, Eq, Structural)]
pub struct Color4 {
    pub r: u8,
    pub g: u8,
    pub b: u8,
    pub a: u8,
}

impl Color4 {
    pub fn new(r: u8, g: u8, b: u8, a: u8) -> (c: Color4)
        ensures
            c == (Color4 { r, g, b, a }),
    {
        Color4 { r, g, b, a }
    }

    /// Opaque black.
    pub fn black() -> (c: Color4)
        ensures
            c == (Color4 { r: 0, g: 0, b: 0, a: 255 }),
    {
        Color4 { r: 0, g: 0, b: 0, a: 255 }
    }

    /// Opaque white.
    pub fn white() -> (c: Color4)
        ensures
            c == (Color4 { r: 255, g: 255, b: 255, a: 255 }),
    {
        Color4 { r: 255, g: 255, b: 255, a: 255 }
    }

    /// Opaque red.
    pub fn red() -> (c: Color4)
        ensures
            c == (Color4 { r: 255, g: 0, b: 0, a: 255 }),
    {
        Color4 { r: 255, g: 0, b: 0, a: 255 }
    }

    /// Opaque green.
    pub fn green() -> (c: Color4)
        ensures
            c == (Color4 { r: 0, g: 255, b: 0, a: 255 }),
    {
        Color4 { r: 0, g: 255, b: 0, a: 255 }
    }

    /// Opaque blue.
    pub fn blue() -> (c: Color4)
        ensures
            c == (Color4 { r: 0, g: 0, b: 255, a: 255 }),
    {
        Color4 { r: 0, g: 0, b: 255, a: 255 }
    }

    /// The four channels in r, g, b, a order.
    pub fn as_array(&self) -> (arr: [u8; 4])
        ensures
            arr@ == seq![self.r, self.g, self.b, self.a],
    {
        let arr = [self.r, self.g, self.b, self.a];
        proof {
            assert(arr@ == seq![self.r, self.g, self.b, self.a]);
        }
        arr
    }
}

} // verus!
