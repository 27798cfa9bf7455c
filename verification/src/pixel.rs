//! RGBA pixels and the flat byte layout the image encoder consumes.

use vstd::prelude::*;

verus! {

/// The mathematical value of a pixel: its four channels.
pub struct MathPixel {
    pub r: u8,
    pub g: u8,
    pub b: u8,
    pub a: u8,
}

/// Pixel defines an RGBA pixel with 8-bits per channel.
#[derive(Debug, Copy, Clone)]
pub struct Pixel {
    r: u8,
    g: u8,
    b: u8,
    a: u8,
}

impl View for Pixel {
    type V = MathPixel;

    closed spec fn view(&self) -> MathPixel {
        MathPixel { r: self.r, g: self.g, b: self.b, a: self.a }
    }
}

impl Pixel {
    /// Creates a new pixel with given color data.
    pub fn new(r: u8, g: u8, b: u8, a: u8) -> (p: Pixel)
        ensures
            p@ == (MathPixel { r, g, b, a }),
    {
        Pixel { r, g, b, a }
    }
}

/// The flat byte image of a pixel sequence: four bytes per pixel, R then G
/// then B then A, in pixel order.
pub open spec fn pixel_bytes(pixels: Seq<MathPixel>) -> Seq<u8> {
    Seq::new(
        pixels.len() * 4,
        |i: int|
            {
                let p = pixels[i / 4];
                if i % 4 == 0 {
                    p.r
                } else if i % 4 == 1 {
                    p.g
                } else if i % 4 == 2 {
                    p.b
                } else {
                    p.a
                }
            },
    )
}

/// Converts a pixel array into the flat channel bytes the encoder writes.
pub fn pixel_data(pixels: &Vec<Pixel>) -> (out: Vec<u8>)
    ensures
        out@ == pixel_bytes(pixels@.map_values(|p: Pixel| p@)),
{
    let mut out: Vec<u8> = Vec::new();
    let mut idx: usize = 0;
    while idx < pixels.len()
        invariant
            idx <= pixels@.len(),
            out@.len() == idx * 4,
            forall|j: int|
                0 <= j < out@.len() ==> out@[j] == pixel_bytes(
                    pixels@.map_values(|p: Pixel| p@),
                )[j],
        decreases pixels@.len() - idx,
    {
        let p = pixels[idx];
        out.push(p.r);
        out.push(p.g);
        out.push(p.b);
        out.push(p.a);
        idx = idx + 1;
    }
    proof {
        assert(out@ =~= pixel_bytes(pixels@.map_values(|p: Pixel| p@)));
    }
    out
}

/// Defines a trait for converting some object into a Pixel Data array
/// (`Vec<u8>`).
pub trait IntoPixelData {
    fn into_pixel_data(self) -> Vec<u8>;
}

impl IntoPixelData for Vec<Pixel> {
    /// Converts a Pixel array into an array of writable pixel data.
    fn into_pixel_data(self) -> Vec<u8> {
        pixel_data(&self)
    }
}

} // verus!
