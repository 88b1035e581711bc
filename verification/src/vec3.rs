//! 3D vectors over fixed-point scalars: points, directions and normals.
use vstd::prelude::*;

verus! {

use crate::fixed::FX_SAT;
use crate::fixed::SQRT_LIMIT;
use crate::fixed::abs_fx;
use crate::fixed::add_fx;
use crate::fixed::clamp_fx;
use crate::fixed::div_fx;
use crate::fixed::fx_abs;
use crate::fixed::fx_add;
use crate::fixed::fx_clamp;
use crate::fixed::fx_div;
use crate::fixed::fx_mul;
use crate::fixed::fx_neg;
use crate::fixed::fx_sub;
use crate::fixed::int_sqrt;
use crate::fixed::mul_fx;
use crate::fixed::neg_fx;
use crate::fixed::sat_fx;
use crate::fixed::sqrt_u128;
use crate::fixed::sub_fx;

/// A fixed-point 3D vector.
#[derive(Clone, Copy, Debug, PartialEq, Eq, Structural)]
pub struct Vec3 {
    pub x: i64,
    pub y: i64,
    pub z: i64,
}

/// The mathematical value of a `Vec3`: three unbounded integers.
pub struct V3 {
    pub x: int,
    pub y: int,
    pub z: int,
}

impl View for Vec3 {
    type V = V3;

    open spec fn view(&self) -> V3 {
        V3 { x: self.x as int, y: self.y as int, z: self.z as int }
    }
}

pub open spec fn v3_add(a: V3, b: V3) -> V3 {
    V3 { x: fx_add(a.x, b.x), y: fx_add(a.y, b.y), z: fx_add(a.z, b.z) }
}

pub open spec fn v3_sub(a: V3, b: V3) -> V3 {
    V3 { x: fx_sub(a.x, b.x), y: fx_sub(a.y, b.y), z: fx_sub(a.z, b.z) }
}

pub open spec fn v3_neg(a: V3) -> V3 {
    V3 { x: fx_neg(a.x), y: fx_neg(a.y), z: fx_neg(a.z) }
}

/// Scale every component by the fixed-point factor `k`.
pub open spec fn v3_scale(a: V3, k: int) -> V3 {
    V3 { x: fx_mul(a.x, k), y: fx_mul(a.y, k), z: fx_mul(a.z, k) }
}

/// Fixed-point dot product, folded left to right.
pub open spec fn v3_dot(a: V3, b: V3) -> int {
    fx_add(fx_add(fx_mul(a.x, b.x), fx_mul(a.y, b.y)), fx_mul(a.z, b.z))
}

/// Fixed-point cross product.
pub open spec fn v3_cross(a: V3, b: V3) -> V3 {
    V3 {
        x: fx_sub(fx_mul(a.y, b.z), fx_mul(a.z, b.y)),
        y: fx_sub(fx_mul(a.z, b.x), fx_mul(a.x, b.z)),
        z: fx_sub(fx_mul(a.x, b.y), fx_mul(a.y, b.x)),
    }
}

/// Components clamped into the saturation range, as done before squaring.
pub open spec fn v3_clip(a: V3) -> V3 {
    V3 {
        x: fx_clamp(a.x, -FX_SAT as int, FX_SAT as int),
        y: fx_clamp(a.y, -FX_SAT as int, FX_SAT as int),
        z: fx_clamp(a.z, -FX_SAT as int, FX_SAT as int),
    }
}

/// Euclidean magnitude: the integer square root of the sum of squares.
pub open spec fn v3_mag(a: V3) -> int {
    let c = v3_clip(a);
    sat_fx(int_sqrt(c.x * c.x + c.y * c.y + c.z * c.z))
}

/// Unit vector in the direction of `a`, or zero when the magnitude is zero.
pub open spec fn v3_normalize(a: V3) -> V3 {
    let m = v3_mag(a);
    if m == 0 {
        V3 { x: 0, y: 0, z: 0 }
    } else {
        V3 { x: fx_div(a.x, m), y: fx_div(a.y, m), z: fx_div(a.z, m) }
    }
}

/// Mirror reflection of `incident` about the surface normal `n`:
/// `incident - 2 * dot(incident, n) * n`.
pub open spec fn v3_reflect(incident: V3, n: V3) -> V3 {
    let d = v3_dot(incident, n);
    v3_sub(incident, v3_scale(n, fx_add(d, d)))
}

impl Vec3 {
    pub fn new(x: i64, y: i64, z: i64) -> (r: Vec3)
        ensures
            r@ == (V3 { x: x as int, y: y as int, z: z as int }),
    {
        Vec3 { x, y, z }
    }

    pub fn zeros() -> (r: Vec3)
        ensures
            r@ == (V3 { x: 0int, y: 0int, z: 0int }),
    {
        Vec3 { x: 0, y: 0, z: 0 }
    }

    pub fn add(&self, other: &Vec3) -> (r: Vec3)
        ensures
            r@ == v3_add(self@, other@),
    {
        Vec3 {
            x: add_fx(self.x, other.x),
            y: add_fx(self.y, other.y),
            z: add_fx(self.z, other.z),
        }
    }

    pub fn sub(&self, other: &Vec3) -> (r: Vec3)
        ensures
            r@ == v3_sub(self@, other@),
    {
        Vec3 {
            x: sub_fx(self.x, other.x),
            y: sub_fx(self.y, other.y),
            z: sub_fx(self.z, other.z),
        }
    }

    pub fn neg(&self) -> (r: Vec3)
        ensures
            r@ == v3_neg(self@),
    {
        Vec3 { x: neg_fx(self.x), y: neg_fx(self.y), z: neg_fx(self.z) }
    }

    pub fn scale(&self, k: i64) -> (r: Vec3)
        ensures
            r@ == v3_scale(self@, k as int),
    {
        Vec3 { x: mul_fx(self.x, k), y: mul_fx(self.y, k), z: mul_fx(self.z, k) }
    }

    pub fn dot(&self, other: &Vec3) -> (r: i64)
        ensures
            r == v3_dot(self@, other@),
    {
        add_fx(
            add_fx(mul_fx(self.x, other.x), mul_fx(self.y, other.y)),
            mul_fx(self.z, other.z),
        )
    }

    pub fn cross(&self, other: &Vec3) -> (r: Vec3)
        ensures
            r@ == v3_cross(self@, other@),
    {
        Vec3 {
            x: sub_fx(mul_fx(self.y, other.z), mul_fx(self.z, other.y)),
            y: sub_fx(mul_fx(self.z, other.x), mul_fx(self.x, other.z)),
            z: sub_fx(mul_fx(self.x, other.y), mul_fx(self.y, other.x)),
        }
    }

    /// Euclidean length of the vector in fixed-point units.
    pub fn magnitude(&self) -> (r: i64)
        ensures
            r == v3_mag(self@),
            r >= 0,
    {
        let cx: i64 = clamp_fx(self.x, -FX_SAT, FX_SAT);
        let cy: i64 = clamp_fx(self.y, -FX_SAT, FX_SAT);
        let cz: i64 = clamp_fx(self.z, -FX_SAT, FX_SAT);
        let ax: i64 = abs_fx(cx);
        let ay: i64 = abs_fx(cy);
        let az: i64 = abs_fx(cz);
        proof {
            assert((ax as u128) * (ax as u128) == (cx as int) * (cx as int) && (ax as u128) * (
            ax as u128) <= (FX_SAT as u128) * (FX_SAT as u128)) by (nonlinear_arith)
                requires
                    0 <= ax <= FX_SAT,
                    ax == fx_abs(cx as int),
            ;
            assert((ay as u128) * (ay as u128) == (cy as int) * (cy as int) && (ay as u128) * (
            ay as u128) <= (FX_SAT as u128) * (FX_SAT as u128)) by (nonlinear_arith)
                requires
                    0 <= ay <= FX_SAT,
                    ay == fx_abs(cy as int),
            ;
            assert((az as u128) * (az as u128) == (cz as int) * (cz as int) && (az as u128) * (
            az as u128) <= (FX_SAT as u128) * (FX_SAT as u128)) by (nonlinear_arith)
                requires
                    0 <= az <= FX_SAT,
                    az == fx_abs(cz as int),
            ;
            assert(3 * ((FX_SAT as u128) * (FX_SAT as u128)) < SQRT_LIMIT) by (nonlinear_arith);
        }
        let sum: u128 = (ax as u128) * (ax as u128) + (ay as u128) * (ay as u128) + (az as u128)
            * (az as u128);
        let root: u128 = sqrt_u128(sum);
        if root > FX_SAT as u128 {
            FX_SAT
        } else {
            root as i64
        }
    }

    /// The vector scaled to unit length, or zero for a zero vector.
    pub fn normalize(&self) -> (r: Vec3)
        ensures
            r@ == v3_normalize(self@),
    {
        let m: i64 = self.magnitude();
        if m == 0 {
            Vec3 { x: 0, y: 0, z: 0 }
        } else {
            Vec3 { x: div_fx(self.x, m), y: div_fx(self.y, m), z: div_fx(self.z, m) }
        }
    }

    /// Mirror reflection of `self` about the normal `n`.
    pub fn reflect(&self, n: &Vec3) -> (r: Vec3)
        ensures
            r@ == v3_reflect(self@, n@),
    {
        let d: i64 = self.dot(n);
        self.sub(&n.scale(add_fx(d, d)))
    }
}

} // verus!
