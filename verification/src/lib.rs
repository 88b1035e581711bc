//! A software ray tracer over axis-aligned cubes, verified end to end.
//!
//! The pipeline casts one ray per pixel through a camera basis, intersects it
//! with every cube of the scene by the slab method, and shades the nearest hit
//! with a diffuse, specular and ambient model attenuated by a single shadow
//! ray, under a day/night sky driven by the height of the light body.  All
//! arithmetic is Q47.16 fixed point (see `fixed`), so every function's result
//! is pinned down exactly by its contract.
pub mod camera;
pub mod color;
pub mod cube;
pub mod fixed;
pub mod material;
pub mod ray_intersect;
pub mod render;
pub mod shading;
pub mod texture;
pub mod vec3;
