//! Axis-aligned cubes and their ray intersection by the slab method.
use vstd::prelude::*;

verus! {

use crate::fixed::FX_ONE;
use crate::fixed::abs_fx;
use crate::fixed::fract_div;
use crate::fixed::fx_abs;
use crate::fixed::fx_div;
use crate::fixed::fx_fract;
use crate::fixed::fx_max;
use crate::fixed::fx_min;
use crate::fixed::fx_sub;
use crate::fixed::max_fx;
use crate::fixed::min_fx;
use crate::fixed::sat_fx;
use crate::fixed::sub_fx;
use crate::material::Material;
use crate::ray_intersect::HitRec;
use crate::ray_intersect::Intersect;
use crate::ray_intersect::RayIntersect;
use crate::ray_intersect::empty_hit;
use crate::vec3::V3;
use crate::vec3::Vec3;
use crate::vec3::v3_add;
use crate::vec3::v3_scale;
use crate::vec3::v3_sub;

/// Parametric distance standing in for "no bound from this axis": larger
/// than any saturated fixed-point value, so it never wins a fold.
pub const T_INF: i64 = 9223372036854775807;

/// Proximity threshold for deciding which face a hit point lies on.
pub const EPS_FX: i64 = 7;

/// Threshold above which a normal component counts as dominant (0.9).
pub const DOM_FX: i64 = 58982;

/// A voxel: an axis-aligned cube given by its center and edge length.
#[derive(Clone, Copy, Debug)]
pub struct Cube {
    pub center: Vec3,
    pub size: i64,
    pub material: Material,
}

/// Half the edge length, rounded down.
pub open spec fn cube_half(c: Cube) -> int {
    (c.size as int) / 2
}

/// The minimum corner of the cube.
pub open spec fn cube_min_v(c: Cube) -> V3 {
    V3 {
        x: fx_sub(c.center@.x, cube_half(c)),
        y: fx_sub(c.center@.y, cube_half(c)),
        z: fx_sub(c.center@.z, cube_half(c)),
    }
}

/// The maximum corner of the cube.
pub open spec fn cube_max_v(c: Cube) -> V3 {
    V3 {
        x: crate::fixed::fx_add(c.center@.x, cube_half(c)),
        y: crate::fixed::fx_add(c.center@.y, cube_half(c)),
        z: crate::fixed::fx_add(c.center@.z, cube_half(c)),
    }
}

/// Entry distance of the ray into one slab (the smaller of the two plane
/// distances).  Meaningful only when `d != 0`.
pub open spec fn axis_lo(o: int, d: int, lo: int, hi: int) -> int {
    fx_min(fx_div(fx_sub(lo, o), d), fx_div(fx_sub(hi, o), d))
}

/// Exit distance of the ray out of one slab.
pub open spec fn axis_hi(o: int, d: int, lo: int, hi: int) -> int {
    fx_max(fx_div(fx_sub(lo, o), d), fx_div(fx_sub(hi, o), d))
}

/// Entry distance of the ray into the box: the slab entries folded by max,
/// with `-T_INF` for an axis the ray is parallel to.
pub open spec fn entry_t(c: Cube, o: V3, d: V3) -> int {
    let mn = cube_min_v(c);
    let mx = cube_max_v(c);
    fx_max(
        fx_max(
            fx_max(
                -T_INF as int,
                if d.x == 0 {
                    -T_INF as int
                } else {
                    axis_lo(o.x, d.x, mn.x, mx.x)
                },
            ),
            if d.y == 0 {
                -T_INF as int
            } else {
                axis_lo(o.y, d.y, mn.y, mx.y)
            },
        ),
        if d.z == 0 {
            -T_INF as int
        } else {
            axis_lo(o.z, d.z, mn.z, mx.z)
        },
    )
}

/// Exit distance of the ray out of the box: the slab exits folded by min,
/// with `T_INF` for an axis the ray is parallel to.
pub open spec fn exit_t(c: Cube, o: V3, d: V3) -> int {
    let mn = cube_min_v(c);
    let mx = cube_max_v(c);
    fx_min(
        fx_min(
            fx_min(
                T_INF as int,
                if d.x == 0 {
                    T_INF as int
                } else {
                    axis_hi(o.x, d.x, mn.x, mx.x)
                },
            ),
            if d.y == 0 {
                T_INF as int
            } else {
                axis_hi(o.y, d.y, mn.y, mx.y)
            },
        ),
        if d.z == 0 {
            T_INF as int
        } else {
            axis_hi(o.z, d.z, mn.z, mx.z)
        },
    )
}

/// Along an axis the ray is parallel to, the origin must already lie inside
/// the slab.
pub open spec fn zero_axes_ok(c: Cube, o: V3, d: V3) -> bool {
    let mn = cube_min_v(c);
    let mx = cube_max_v(c);
    &&& (d.x == 0 ==> mn.x <= o.x <= mx.x)
    &&& (d.y == 0 ==> mn.y <= o.y <= mx.y)
    &&& (d.z == 0 ==> mn.z <= o.z <= mx.z)
}

/// The ray hits the box: every parallel axis contains the origin, the entry
/// distance does not exceed the exit distance, and the entry lies on or in
/// front of the origin.
pub open spec fn cube_hits(c: Cube, o: V3, d: V3) -> bool {
    zero_axes_ok(c, o, d) && entry_t(c, o, d) <= exit_t(c, o, d) && entry_t(c, o, d) >= 0
}

/// Whether `a` lies within the face-proximity threshold of `b`.
pub open spec fn near_face(a: int, b: int) -> bool {
    sat_fx(fx_abs(fx_sub(a, b))) < EPS_FX
}

/// The outward normal of the first face (in the fixed order -x, +x, -y, +y,
/// -z, +z) the hit point lies near, or zero when it lies near none.
pub open spec fn face_normal(p: V3, mn: V3, mx: V3) -> V3 {
    if near_face(p.x, mn.x) {
        V3 { x: -FX_ONE as int, y: 0, z: 0 }
    } else if near_face(p.x, mx.x) {
        V3 { x: FX_ONE as int, y: 0, z: 0 }
    } else if near_face(p.y, mn.y) {
        V3 { x: 0, y: -FX_ONE as int, z: 0 }
    } else if near_face(p.y, mx.y) {
        V3 { x: 0, y: FX_ONE as int, z: 0 }
    } else if near_face(p.z, mn.z) {
        V3 { x: 0, y: 0, z: -FX_ONE as int }
    } else if near_face(p.z, mx.z) {
        V3 { x: 0, y: 0, z: FX_ONE as int }
    } else {
        V3 { x: 0, y: 0, z: 0 }
    }
}

/// Face UV of a hit point: the two axes orthogonal to the dominant normal
/// component, as fractions of the edge length.  Both lie in `[0, FX_ONE)`.
pub open spec fn cube_uv(c: Cube, p: V3, n: V3) -> (int, int) {
    let local = v3_sub(p, cube_min_v(c));
    let s = c.size as int;
    if sat_fx(fx_abs(n.x)) > DOM_FX {
        (fx_fract(local.z, s), fx_fract(local.y, s))
    } else if sat_fx(fx_abs(n.y)) > DOM_FX {
        (fx_fract(local.x, s), fx_fract(local.z, s))
    } else {
        (fx_fract(local.x, s), fx_fract(local.y, s))
    }
}

/// The full intersection record of a ray against a cube: the nearest entry
/// hit with its face normal and UV, or the no-hit record.
pub open spec fn cube_hit_rec(c: Cube, o: V3, d: V3) -> HitRec {
    if cube_hits(c, o, d) {
        let t = entry_t(c, o, d);
        let p = v3_add(o, v3_scale(d, t));
        let n = face_normal(p, cube_min_v(c), cube_max_v(c));
        HitRec {
            point: p,
            normal: n,
            distance: t,
            is_intersecting: true,
            material: c.material,
            uv: Some(cube_uv(c, p, n)),
        }
    } else {
        empty_hit()
    }
}

proof fn lemma_fx_div_stays_negative(a: int, d: int)
    requires
        a <= -1,
        1 <= d <= FX_ONE,
    ensures
        fx_div(a, d) <= -1,
{
    vstd::arithmetic::div_mod::lemma_div_by_self(d);
    vstd::arithmetic::div_mod::lemma_div_is_ordered(d, -(a * FX_ONE), d);
}

proof fn lemma_fx_div_crosses_negative(a: int, d: int)
    requires
        a >= 1,
        -FX_ONE <= d <= -1,
    ensures
        fx_div(a, d) <= -1,
{
    vstd::arithmetic::div_mod::lemma_div_by_self(-d);
    vstd::arithmetic::div_mod::lemma_div_is_ordered(-d, a * FX_ONE, -d);
}

/// The ray starts strictly beyond some slab of the cube and its direction
/// does not move it back toward that slab.
pub open spec fn points_away(c: Cube, o: V3, d: V3) -> bool {
    let mn = cube_min_v(c);
    let mx = cube_max_v(c);
    ||| (o.x > mx.x && d.x >= 0)
    ||| (o.x < mn.x && d.x <= 0)
    ||| (o.y > mx.y && d.y >= 0)
    ||| (o.y < mn.y && d.y <= 0)
    ||| (o.z > mx.z && d.z >= 0)
    ||| (o.z < mn.z && d.z <= 0)
}

/// A ray whose origin lies strictly beyond some slab of the cube, with a
/// direction component that does not move it back toward that slab, never
/// intersects the cube.  The direction components must lie within the unit
/// range, as normalized directions do.
pub proof fn lemma_ray_points_away_misses(c: Cube, o: V3, d: V3)
    requires
        c.wf(),
        -FX_ONE <= d.x <= FX_ONE,
        -FX_ONE <= d.y <= FX_ONE,
        -FX_ONE <= d.z <= FX_ONE,
        points_away(c, o, d),
    ensures
        !cube_hits(c, o, d),
        cube_hit_rec(c, o, d) == empty_hit(),
        !cube_hit_rec(c, o, d).is_intersecting,
{
    let mn = cube_min_v(c);
    let mx = cube_max_v(c);
    if o.x > mx.x && d.x >= 0 {
        if d.x != 0 {
            lemma_fx_div_stays_negative(fx_sub(mn.x, o.x), d.x);
            lemma_fx_div_stays_negative(fx_sub(mx.x, o.x), d.x);
        }
    } else if o.x < mn.x && d.x <= 0 {
        if d.x != 0 {
            lemma_fx_div_crosses_negative(fx_sub(mn.x, o.x), d.x);
            lemma_fx_div_crosses_negative(fx_sub(mx.x, o.x), d.x);
        }
    } else if o.y > mx.y && d.y >= 0 {
        if d.y != 0 {
            lemma_fx_div_stays_negative(fx_sub(mn.y, o.y), d.y);
            lemma_fx_div_stays_negative(fx_sub(mx.y, o.y), d.y);
        }
    } else if o.y < mn.y && d.y <= 0 {
        if d.y != 0 {
            lemma_fx_div_crosses_negative(fx_sub(mn.y, o.y), d.y);
            lemma_fx_div_crosses_negative(fx_sub(mx.y, o.y), d.y);
        }
    } else if o.z > mx.z && d.z >= 0 {
        if d.z != 0 {
            lemma_fx_div_stays_negative(fx_sub(mn.z, o.z), d.z);
            lemma_fx_div_stays_negative(fx_sub(mx.z, o.z), d.z);
        }
    } else {
        if d.z != 0 {
            lemma_fx_div_crosses_negative(fx_sub(mn.z, o.z), d.z);
            lemma_fx_div_crosses_negative(fx_sub(mx.z, o.z), d.z);
        }
    }
}

/// Every hit carries a UV pair, and both of its coordinates lie in
/// `[0, FX_ONE)`, whatever the ray and wherever the cube stands.
pub proof fn lemma_hit_uv_in_range(c: Cube, o: V3, d: V3)
    requires
        cube_hit_rec(c, o, d).is_intersecting,
    ensures
        cube_hit_rec(c, o, d).uv is Some,
        0 <= (cube_hit_rec(c, o, d).uv->0).0 < FX_ONE,
        0 <= (cube_hit_rec(c, o, d).uv->0).1 < FX_ONE,
{
    let p = v3_add(o, v3_scale(d, entry_t(c, o, d)));
    let local = v3_sub(p, cube_min_v(c));
    let s = c.size as int;
    vstd::arithmetic::div_mod::lemma_mod_division_less_than_divisor(
        crate::fixed::quot(local.x * FX_ONE, s),
        FX_ONE as int,
    );
    vstd::arithmetic::div_mod::lemma_mod_division_less_than_divisor(
        crate::fixed::quot(local.y * FX_ONE, s),
        FX_ONE as int,
    );
    vstd::arithmetic::div_mod::lemma_mod_division_less_than_divisor(
        crate::fixed::quot(local.z * FX_ONE, s),
        FX_ONE as int,
    );
}

impl Cube {
    /// Face UV of `point` given the face `normal`, each in `[0, FX_ONE)`.
    pub fn get_uv(&self, point: &Vec3, normal: &Vec3) -> (r: (i64, i64))
        requires
            0 < self.size,
        ensures
            (r.0 as int, r.1 as int) == cube_uv(*self, point@, normal@),
            0 <= r.0 < FX_ONE,
            0 <= r.1 < FX_ONE,
    {
        let half: i64 = self.size / 2;
        let corner = Vec3::new(half, half, half);
        let local = point.sub(&self.center.sub(&corner));
        let u: i64;
        let v: i64;
        if abs_fx(normal.x) > DOM_FX {
            u = fract_div(local.z, self.size);
            v = fract_div(local.y, self.size);
        } else if abs_fx(normal.y) > DOM_FX {
            u = fract_div(local.x, self.size);
            v = fract_div(local.z, self.size);
        } else {
            u = fract_div(local.x, self.size);
            v = fract_div(local.y, self.size);
        }
        (u, v)
    }
}

impl RayIntersect for Cube {
    /// A cube is usable when its edge length is positive.
    open spec fn wf(&self) -> bool {
        0 < self.size
    }

    open spec fn spec_hit(&self, origin: V3, dir: V3) -> HitRec {
        cube_hit_rec(*self, origin, dir)
    }

    fn ray_intersect(&self, ray_origin: &Vec3, ray_direction: &Vec3) -> (r: Intersect) {
        let half: i64 = self.size / 2;
        let corner = Vec3::new(half, half, half);
        let mn = self.center.sub(&corner);
        let mx = self.center.add(&corner);

        if ray_direction.x == 0 && (ray_origin.x < mn.x || ray_origin.x > mx.x) {
            return Intersect::empty();
        }
        if ray_direction.y == 0 && (ray_origin.y < mn.y || ray_origin.y > mx.y) {
            return Intersect::empty();
        }
        if ray_direction.z == 0 && (ray_origin.z < mn.z || ray_origin.z > mx.z) {
            return Intersect::empty();
        }

        let mut t_lo: i64 = -T_INF;
        let mut t_hi: i64 = T_INF;
        if ray_direction.x != 0 {
            let t0: i64 = crate::fixed::div_fx(sub_fx(mn.x, ray_origin.x), ray_direction.x);
            let t1: i64 = crate::fixed::div_fx(sub_fx(mx.x, ray_origin.x), ray_direction.x);
            t_lo = max_fx(t_lo, min_fx(t0, t1));
            t_hi = min_fx(t_hi, max_fx(t0, t1));
        }
        if ray_direction.y != 0 {
            let t0: i64 = crate::fixed::div_fx(sub_fx(mn.y, ray_origin.y), ray_direction.y);
            let t1: i64 = crate::fixed::div_fx(sub_fx(mx.y, ray_origin.y), ray_direction.y);
            t_lo = max_fx(t_lo, min_fx(t0, t1));
            t_hi = min_fx(t_hi, max_fx(t0, t1));
        }
        if ray_direction.z != 0 {
            let t0: i64 = crate::fixed::div_fx(sub_fx(mn.z, ray_origin.z), ray_direction.z);
            let t1: i64 = crate::fixed::div_fx(sub_fx(mx.z, ray_origin.z), ray_direction.z);
            t_lo = max_fx(t_lo, min_fx(t0, t1));
            t_hi = min_fx(t_hi, max_fx(t0, t1));
        }

        if t_lo > t_hi {
            return Intersect::empty();
        }
        if t_lo < 0 {
            return Intersect::empty();
        }

        let point = ray_origin.add(&ray_direction.scale(t_lo));

        let normal: Vec3;
        if abs_fx(sub_fx(point.x, mn.x)) < EPS_FX {
            normal = Vec3::new(-FX_ONE, 0, 0);
        } else if abs_fx(sub_fx(point.x, mx.x)) < EPS_FX {
            normal = Vec3::new(FX_ONE, 0, 0);
        } else if abs_fx(sub_fx(point.y, mn.y)) < EPS_FX {
            normal = Vec3::new(0, -FX_ONE, 0);
        } else if abs_fx(sub_fx(point.y, mx.y)) < EPS_FX {
            normal = Vec3::new(0, FX_ONE, 0);
        } else if abs_fx(sub_fx(point.z, mn.z)) < EPS_FX {
            normal = Vec3::new(0, 0, -FX_ONE);
        } else if abs_fx(sub_fx(point.z, mx.z)) < EPS_FX {
            normal = Vec3::new(0, 0, FX_ONE);
        } else {
            normal = Vec3::zeros();
        }

        let uv = self.get_uv(&point, &normal);
        Intersect::new(point, normal, t_lo, self.material, Some(uv))
    }
}

} // verus!
