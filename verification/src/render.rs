//! The per-pixel render loop: camera rays through every pixel of a
//! framebuffer, shaded by the pipeline.
use vstd::prelude::*;

verus! {

use crate::camera::Camera;
use crate::camera::spec_base_change;
use crate::color::col_hex;
use crate::fixed::FX_ONE;
use crate::fixed::div_fx;
use crate::fixed::fx_div;
use crate::fixed::fx_mul;
use crate::fixed::mul_fx;
use crate::fixed::quot;
use crate::shading::Object;
use crate::shading::cast_ray;
use crate::shading::scene_wf;
use crate::shading::spec_cast_ray;
use crate::texture::Texture;
use crate::vec3::V3;
use crate::vec3::Vec3;
use crate::vec3::v3_normalize;

/// Tangent of half the vertical field of view (60 degrees: tan 30).
pub const PERSP_FX: i64 = 37837;

/// Largest framebuffer dimension the renderer accepts.
pub const MAX_DIM: usize = 4096;

/// Horizontal normalized device coordinate of pixel column `px`, in
/// `[-FX_ONE, FX_ONE)`.
pub open spec fn ndc_x(px: int, w: int) -> int {
    quot(2 * px * FX_ONE, w) - FX_ONE
}

/// Vertical normalized device coordinate of pixel row `py`, in
/// `(-FX_ONE, FX_ONE]`, positive at the top.
pub open spec fn ndc_y(py: int, h: int) -> int {
    FX_ONE - quot(2 * py * FX_ONE, h)
}

/// The world-space ray direction of a pixel: screen coordinates scaled by
/// the aspect ratio and the field of view, normalized, and taken through
/// the camera basis.
pub open spec fn pixel_dir(px: int, py: int, w: int, h: int, cam: Camera) -> V3 {
    let aspect = fx_div(w * FX_ONE, h * FX_ONE);
    let sx = fx_mul(fx_mul(ndc_x(px, w), aspect), PERSP_FX as int);
    let sy = fx_mul(ndc_y(py, h), PERSP_FX as int);
    spec_base_change(cam, v3_normalize(V3 { x: sx, y: sy, z: -FX_ONE as int }))
}

/// The packed color of one pixel.
pub open spec fn spec_pixel(
    px: int,
    py: int,
    w: int,
    h: int,
    objects: Seq<Object>,
    textures: Seq<Texture>,
    cam: Camera,
    sun: V3,
    sun_intensity: int,
) -> int {
    col_hex(
        spec_cast_ray(
            cam.eye@,
            pixel_dir(px, py, w, h, cam),
            objects,
            textures,
            sun,
            sun_intensity,
            0,
        ),
    )
}

/// Fill the caller-owned framebuffer with one ray-traced color per pixel,
/// row-major with row 0 at the top.
pub fn render(
    framebuffer: &mut Vec<u32>,
    width: usize,
    height: usize,
    objects: &[Object],
    textures: &[Texture],
    camera: &Camera,
    sun_position: &Vec3,
    sun_intensity: i64,
)
    requires
        scene_wf(objects@, textures@),
        1 <= width <= MAX_DIM,
        1 <= height <= MAX_DIM,
    ensures
        final (framebuffer)@.len() == width * height,
        forall|px: int, py: int|
            0 <= px < width && 0 <= py < height ==> #[trigger] final (framebuffer)@[py * width
                + px] == spec_pixel(
                px,
                py,
                width as int,
                height as int,
                objects@,
                textures@,
                *camera,
                sun_position@,
                sun_intensity as int,
            ),
{
    framebuffer.clear();
    let aspect: i64 = div_fx((width as i64) * (FX_ONE as i64), (height as i64) * (FX_ONE as i64));

    let mut y: usize = 0;
    while y < height
        invariant
            scene_wf(objects@, textures@),
            1 <= width <= MAX_DIM,
            1 <= height <= MAX_DIM,
            0 <= y <= height,
            aspect == fx_div(width * FX_ONE, height * FX_ONE),
            framebuffer@.len() == y * width,
            forall|px: int, py: int|
                0 <= px < width && 0 <= py < y ==> #[trigger] framebuffer@[py * width + px]
                    == spec_pixel(
                    px,
                    py,
                    width as int,
                    height as int,
                    objects@,
                    textures@,
                    *camera,
                    sun_position@,
                    sun_intensity as int,
                ),
        decreases height - y,
    {
        let mut x: usize = 0;
        while x < width
            invariant
                scene_wf(objects@, textures@),
                1 <= width <= MAX_DIM,
                1 <= height <= MAX_DIM,
                0 <= y < height,
                0 <= x <= width,
                aspect == fx_div(width * FX_ONE, height * FX_ONE),
                framebuffer@.len() == y * width + x,
                forall|px: int, py: int|
                    0 <= px < width && 0 <= py < y ==> #[trigger] framebuffer@[py * width + px]
                        == spec_pixel(
                        px,
                        py,
                        width as int,
                        height as int,
                        objects@,
                        textures@,
                        *camera,
                        sun_position@,
                        sun_intensity as int,
                    ),
                forall|px: int|
                    0 <= px < x ==> #[trigger] framebuffer@[y * width + px] == spec_pixel(
                        px,
                        y as int,
                        width as int,
                        height as int,
                        objects@,
                        textures@,
                        *camera,
                        sun_position@,
                        sun_intensity as int,
                    ),
            decreases width - x,
        {
            let sx_raw: i64 = (2 * (x as i64) * FX_ONE) / (width as i64) - FX_ONE;
            let sy_raw: i64 = FX_ONE - (2 * (y as i64) * FX_ONE) / (height as i64);
            let sx: i64 = mul_fx(mul_fx(sx_raw, aspect), PERSP_FX);
            let sy: i64 = mul_fx(sy_raw, PERSP_FX);
            let ray_direction = Vec3::new(sx, sy, -FX_ONE).normalize();
            let rotated_direction = camera.base_change(&ray_direction);
            let pixel_color = cast_ray(
                &camera.eye,
                &rotated_direction,
                objects,
                textures,
                sun_position,
                sun_intensity,
                0,
            );
            framebuffer.push(pixel_color.to_hex());
            proof {
                assert(sx_raw == ndc_x(x as int, width as int));
                assert(sy_raw == ndc_y(y as int, height as int));
                assert(rotated_direction@ == pixel_dir(
                    x as int,
                    y as int,
                    width as int,
                    height as int,
                    *camera,
                ));
                assert forall|px: int, py: int|
                    0 <= px < width && 0 <= py < y implies #[trigger] framebuffer@[py * width + px]
                    == spec_pixel(
                    px,
                    py,
                    width as int,
                    height as int,
                    objects@,
                    textures@,
                    *camera,
                    sun_position@,
                    sun_intensity as int,
                ) by {
                    lemma_row_index(py, px, width as int, y as int);
                }
                assert forall|px: int|
                    0 <= px < x + 1 implies #[trigger] framebuffer@[y * width + px] == spec_pixel(
                    px,
                    y as int,
                    width as int,
                    height as int,
                    objects@,
                    textures@,
                    *camera,
                    sun_position@,
                    sun_intensity as int,
                ) by {
                    if px == x {
                        assert(framebuffer@[y * width + px] == col_hex(
                            spec_cast_ray(
                                camera.eye@,
                                pixel_dir(px, y as int, width as int, height as int, *camera),
                                objects@,
                                textures@,
                                sun_position@,
                                sun_intensity as int,
                                0,
                            ),
                        ));
                    }
                }
            }
            x = x + 1;
        }
        proof {
            assert((y + 1) * width == y * width + width) by (nonlinear_arith);
            assert forall|px: int, py: int|
                0 <= px < width && 0 <= py < y + 1 implies #[trigger] framebuffer@[py * width + px]
                == spec_pixel(
                px,
                py,
                width as int,
                height as int,
                objects@,
                textures@,
                *camera,
                sun_position@,
                sun_intensity as int,
            ) by {
                if py < y {
                    lemma_row_index(py, px, width as int, y as int);
                }
            }
        }
        y = y + 1;
    }
    proof {
        assert(height * width == width * height) by (nonlinear_arith);
    }
}

proof fn lemma_row_index(py: int, px: int, w: int, y: int)
    requires
        0 <= px < w,
        0 <= py < y,
    ensures
        0 <= py * w + px < y * w,
{
    assert(py * w + px < y * w) by (nonlinear_arith)
        requires
            0 <= px < w,
            0 <= py < y,
    ;
    assert(py * w >= 0) by (nonlinear_arith)
        requires
            0 <= py,
            0 < w,
    ;
}

} // verus!
