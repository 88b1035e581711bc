//! Per-surface shading parameters.
use vstd::prelude::*;

verus! {

use crate::color::Color;

/// Shading parameters of a surface.
///
/// `albedo` holds the fixed-point weights of the diffuse, specular,
/// reflective and refractive contributions; only the first two are consumed
/// by the shading model.  `specular` is the integer specular exponent.
/// `texture`, when present, is the index of a texture in the scene's texture
/// table; many cubes may share one entry.
#[derive(Clone, Copy, Debug)]
pub struct Material {
    pub diffuse: Color,
    pub specular: u32,
    pub albedo: [i64; 4],
    pub refractive_index: i64,
    pub texture: Option<usize>,
}

/// The material of the no-hit record: all black, no weights, no texture.
pub open spec fn black_material() -> Material {
    Material {
        diffuse: Color { r: 0u8, g: 0u8, b: 0u8 },
        specular: 0u32,
        albedo: [0i64, 0i64, 0i64, 0i64],
        refractive_index: 0i64,
        texture: None,
    }
}

impl Material {
    pub fn new(
        diffuse: Color,
        specular: u32,
        albedo: [i64; 4],
        refractive_index: i64,
        texture: Option<usize>,
    ) -> (m: Material)
        ensures
            m == (Material { diffuse, specular, albedo, refractive_index, texture }),
    {
        Material { diffuse, specular, albedo, refractive_index, texture }
    }

    pub fn black() -> (m: Material)
        ensures
            m == black_material(),
    {
        Material {
            diffuse: Color::black(),
            specular: 0,
            albedo: [0, 0, 0, 0],
            refractive_index: 0,
            texture: None,
        }
    }
}

} // verus!
