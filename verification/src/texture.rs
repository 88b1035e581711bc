//! Texture sampling: UV coordinates to texels of a decoded image.
//!
//! Decoding an image file is I/O and happens outside the library; a texture
//! is built here from the decoded dimensions and pixel rows.
use vstd::prelude::*;

verus! {

use crate::color::Color;
use crate::fixed::FX_ONE;
use crate::fixed::emod_fx;

/// A decoded image: row-major pixels, row 0 at the top.
#[derive(Debug)]
pub struct Texture {
    pub width: u32,
    pub height: u32,
    pub pixels: Vec<Color>,
}

/// A texture is usable when both dimensions are positive and the pixel
/// buffer holds exactly one color per texel.
pub open spec fn tex_wf(t: Texture) -> bool {
    t.width >= 1 && t.height >= 1 && t.pixels@.len() == t.width * t.height
}

/// The texel sampled at the fixed-point UV pair `(u, v)`: both coordinates
/// wrap to their fractional part, and `v` is flipped so that `v == 0` reads
/// the top row.
pub open spec fn spec_sample(t: Texture, u: int, v: int) -> Color {
    let uf = u % (FX_ONE as int);
    let vf = v % (FX_ONE as int);
    let x = (uf * t.width) / (FX_ONE as int) % (t.width as int);
    let y = ((FX_ONE - vf) * t.height) / (FX_ONE as int) % (t.height as int);
    t.pixels@[y * t.width + x]
}

impl Texture {
    /// Build a texture from decoded dimensions and pixels; `None` when the
    /// buffer does not hold exactly `width * height` entries or a dimension
    /// is zero.
    pub fn new(width: u32, height: u32, pixels: Vec<Color>) -> (r: Option<Texture>)
        ensures
            r is Some <==> (width >= 1 && height >= 1 && pixels@.len() == width * height),
            r is Some ==> r->0 == (Texture { width, height, pixels }) && tex_wf(r->0),
    {
        proof {
            assert((width as u64) * (height as u64) == (width as int) * (height as int) && (
            width as int) * (height as int) <= 0xffff_ffff_ffff_ffffu64) by (nonlinear_arith)
                requires
                    width <= u32::MAX,
                    height <= u32::MAX,
            ;
        }
        if width >= 1 && height >= 1 && pixels.len() as u64 == (width as u64) * (height as u64) {
            Some(Texture { width, height, pixels })
        } else {
            None
        }
    }

    /// Sample the texel under the fixed-point UV pair `(u, v)`.
    pub fn get_color(&self, u: i64, v: i64) -> (c: Color)
        requires
            tex_wf(*self),
        ensures
            c == spec_sample(*self, u as int, v as int),
    {
        let uf: i64 = emod_fx(u, FX_ONE);
        let vf: i64 = emod_fx(v, FX_ONE);
        proof {
            assert((uf as u64) * (self.width as u64) == (uf as int) * (self.width as int) && (
            uf as u64) * (self.width as u64) < 0x1000_0000_0000_0000u64) by (nonlinear_arith)
                requires
                    0 <= uf < FX_ONE,
                    FX_ONE == 65536,
                    self.width <= u32::MAX,
            ;
            assert(((FX_ONE - vf) as u64) * (self.height as u64) == (FX_ONE - vf) * (
            self.height as int) && ((FX_ONE - vf) as u64) * (self.height as u64)
                <= 0x2000_0000_0000_0000u64) by (nonlinear_arith)
                requires
                    0 <= vf < FX_ONE,
                    FX_ONE == 65536,
                    self.height <= u32::MAX,
            ;
        }
        let xw: u64 = (uf as u64) * (self.width as u64);
        let yw: u64 = ((FX_ONE - vf) as u64) * (self.height as u64);
        let x: u64 = (xw / (FX_ONE as u64)) % (self.width as u64);
        let y: u64 = (yw / (FX_ONE as u64)) % (self.height as u64);
        proof {
            assert((y as int) * (self.width as int) + x < (self.width as int) * (
            self.height as int) && (self.width as int) * (self.height as int)
                <= 0xffff_ffff_ffff_ffffu64 && (y as u64) * (self.width as u64) + (x as u64) == (
            y as int) * (self.width as int) + x) by (nonlinear_arith)
                requires
                    0 <= x < self.width as u64,
                    0 <= y < self.height as u64,
                    self.width >= 1,
                    self.height >= 1,
                    self.width <= u32::MAX,
                    self.height <= u32::MAX,
            ;
        }
        let idx: u64 = y * (self.width as u64) + x;
        let n: usize = self.pixels.len();
        proof {
            assert(idx < n);
        }
        self.pixels[idx as usize]
    }
}

} // verus!
