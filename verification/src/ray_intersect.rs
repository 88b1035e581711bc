//! The intersection record and the geometry capability.
use vstd::prelude::*;

verus! {

use crate::material::Material;
use crate::material::black_material;
use crate::vec3::V3;
use crate::vec3::Vec3;

/// Result of one ray-geometry test.  `is_intersecting == false` is the
/// explicit no-hit value, with zero distance and a black material.
#[derive(Clone, Copy, Debug)]
pub struct Intersect {
    pub point: Vec3,
    pub normal: Vec3,
    pub distance: i64,
    pub is_intersecting: bool,
    pub material: Material,
    pub uv: Option<(i64, i64)>,
}

/// The mathematical value of an `Intersect`.
pub struct HitRec {
    pub point: V3,
    pub normal: V3,
    pub distance: int,
    pub is_intersecting: bool,
    pub material: Material,
    pub uv: Option<(int, int)>,
}

impl View for Intersect {
    type V = HitRec;

    open spec fn view(&self) -> HitRec {
        HitRec {
            point: self.point@,
            normal: self.normal@,
            distance: self.distance as int,
            is_intersecting: self.is_intersecting,
            material: self.material,
            uv: match self.uv {
                Some((u, v)) => Some((u as int, v as int)),
                None => None,
            },
        }
    }
}

/// The no-hit record.
pub open spec fn empty_hit() -> HitRec {
    HitRec {
        point: V3 { x: 0, y: 0, z: 0 },
        normal: V3 { x: 0, y: 0, z: 0 },
        distance: 0,
        is_intersecting: false,
        material: black_material(),
        uv: None,
    }
}

impl Intersect {
    pub fn new(
        point: Vec3,
        normal: Vec3,
        distance: i64,
        material: Material,
        uv: Option<(i64, i64)>,
    ) -> (r: Intersect)
        ensures
            r@ == (HitRec {
                point: point@,
                normal: normal@,
                distance: distance as int,
                is_intersecting: true,
                material,
                uv: match uv {
                    Some((u, v)) => Some((u as int, v as int)),
                    None => None,
                },
            }),
    {
        Intersect { point, normal, distance, is_intersecting: true, material, uv }
    }

    pub fn empty() -> (r: Intersect)
        ensures
            r@ == empty_hit(),
    {
        Intersect {
            point: Vec3::zeros(),
            normal: Vec3::zeros(),
            distance: 0,
            is_intersecting: false,
            material: Material::black(),
            uv: None,
        }
    }
}

/// Geometry that a ray can be tested against.  An implementor supplies the
/// mathematical model of its own intersection test and an executable test
/// proved equal to it.
pub trait RayIntersect {
    /// Well-formedness the intersection test relies on.
    spec fn wf(&self) -> bool;

    /// The mathematical value of the intersection test.
    spec fn spec_hit(&self, origin: V3, dir: V3) -> HitRec;

    /// Nearest entry intersection of the ray with this geometry, or the
    /// no-hit record.
    fn ray_intersect(&self, ray_origin: &Vec3, ray_direction: &Vec3) -> (r: Intersect)
        requires
            self.wf(),
        ensures
            r@ == self.spec_hit(ray_origin@, ray_direction@),
    ;
}

} // verus!
