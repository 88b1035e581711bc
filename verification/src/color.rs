//! RGB colors with the clamping arithmetic the shading model needs.
use vstd::prelude::*;

verus! {

use crate::fixed::FX_ONE;
use crate::fixed::fx_clamp;
use crate::fixed::quot;

/// An 8-bit RGB color.  Channel arithmetic clamps into `[0, 255]`, so a
/// blended color always holds displayable channel values.
#[derive(Clone, Copy, Debug, PartialEq, Eq, Structural)]
pub struct Color {
    pub r: u8,
    pub g: u8,
    pub b: u8,
}

/// One channel scaled by the fixed-point factor `k`, clamped into `[0, 255]`.
pub open spec fn chan_scale(c: int, k: int) -> int {
    fx_clamp(quot(c * k, FX_ONE as int), 0, 255)
}

/// A color scaled by the fixed-point factor `k`, channel-wise.
pub open spec fn col_scale(c: Color, k: int) -> Color {
    Color {
        r: chan_scale(c.r as int, k) as u8,
        g: chan_scale(c.g as int, k) as u8,
        b: chan_scale(c.b as int, k) as u8,
    }
}

/// One channel of a component-wise sum, saturated at 255.
pub open spec fn chan_add(a: int, b: int) -> int {
    if a + b > 255 {
        255
    } else {
        a + b
    }
}

/// Component-wise color addition, saturated at 255 per channel.
pub open spec fn col_add(a: Color, b: Color) -> Color {
    Color {
        r: chan_add(a.r as int, b.r as int) as u8,
        g: chan_add(a.g as int, b.g as int) as u8,
        b: chan_add(a.b as int, b.b as int) as u8,
    }
}

/// The packed `0x00RRGGBB` value of a color.
pub open spec fn col_hex(c: Color) -> int {
    c.r * 65536 + c.g * 256 + c.b
}

fn chan_scale_fx(c: u8, k: i64) -> (r: u8)
    ensures
        r == chan_scale(c as int, k as int),
{
    proof {
        assert((c as i128) * (k as i128) == (c as int) * (k as int) && i128::MIN < (c as i128) * (
        k as i128) <= i128::MAX) by (nonlinear_arith)
            requires
                0 <= c <= 255,
                i64::MIN <= k <= i64::MAX,
        ;
    }
    let wide: i128 = (c as i128) * (k as i128);
    let q: i128 = if wide >= 0 {
        wide / (FX_ONE as i128)
    } else {
        -((-wide) / (FX_ONE as i128))
    };
    if q < 0 {
        0
    } else if q > 255 {
        255
    } else {
        q as u8
    }
}

impl Color {
    pub fn new(r: u8, g: u8, b: u8) -> (c: Color)
        ensures
            c == (Color { r, g, b }),
    {
        Color { r, g, b }
    }

    pub fn black() -> (c: Color)
        ensures
            c == (Color { r: 0u8, g: 0u8, b: 0u8 }),
    {
        Color { r: 0, g: 0, b: 0 }
    }

    /// Scale every channel by the fixed-point factor `k`.
    pub fn scale(&self, k: i64) -> (c: Color)
        ensures
            c == col_scale(*self, k as int),
    {
        Color {
            r: chan_scale_fx(self.r, k),
            g: chan_scale_fx(self.g, k),
            b: chan_scale_fx(self.b, k),
        }
    }

    /// Component-wise sum, saturated at 255 per channel.
    pub fn blend(&self, other: &Color) -> (c: Color)
        ensures
            c == col_add(*self, *other),
    {
        let r16: u16 = self.r as u16 + other.r as u16;
        let g16: u16 = self.g as u16 + other.g as u16;
        let b16: u16 = self.b as u16 + other.b as u16;
        Color {
            r: if r16 > 255 {
                255
            } else {
                r16 as u8
            },
            g: if g16 > 255 {
                255
            } else {
                g16 as u8
            },
            b: if b16 > 255 {
                255
            } else {
                b16 as u8
            },
        }
    }

    /// Pack the color as `0x00RRGGBB`.
    pub fn to_hex(&self) -> (h: u32)
        ensures
            h == col_hex(*self),
    {
        (self.r as u32) * 65536 + (self.g as u32) * 256 + (self.b as u32)
    }
}

} // verus!
