//! Sky model, shadow casting, depth ceiling and the full shading model.
use voxeltrace::color::Color;
use voxeltrace::cube::Cube;
use voxeltrace::fixed::FX_ONE;
use voxeltrace::fixed::add_fx;
use voxeltrace::fixed::div_fx;
use voxeltrace::fixed::max_fx;
use voxeltrace::fixed::mul_fx;
use voxeltrace::fixed::pow_fx;
use voxeltrace::fixed::sub_fx;
use voxeltrace::material::Material;
use voxeltrace::ray_intersect::RayIntersect;
use voxeltrace::shading::HEIGHT_SCALE_FX;
use voxeltrace::shading::Object;
use voxeltrace::shading::adjust_sky_color;
use voxeltrace::shading::cast_ray;
use voxeltrace::shading::cast_shadow;
use voxeltrace::vec3::Vec3;

fn plain_material() -> Material {
    Material::new(Color::new(120, 80, 40), 1, [58982, 6553, 0, 0], 0, None)
}

fn cube_at(x: i64, y: i64, z: i64) -> Cube {
    Cube { center: Vec3::new(x, y, z), size: FX_ONE, material: plain_material() }
}

#[test]
fn sky_is_day_constant_above_horizon() {
    let c = adjust_sky_color(&Vec3::new(0, 1, 0));
    assert_eq!((c.r, c.g, c.b), (68, 142, 228));
    let high = adjust_sky_color(&Vec3::new(5 * FX_ONE, 12 * FX_ONE, 0));
    assert_eq!((high.r, high.g, high.b), (68, 142, 228));
}

#[test]
fn sky_is_night_constant_at_and_below_horizon() {
    let at_zero = adjust_sky_color(&Vec3::new(3 * FX_ONE, 0, 0));
    assert_eq!((at_zero.r, at_zero.g, at_zero.b), (10, 10, 30));
    let below = adjust_sky_color(&Vec3::new(0, -FX_ONE, 0));
    assert_eq!((below.r, below.g, below.b), (10, 10, 30));
}

#[test]
fn shadow_is_zero_without_occluder() {
    let base = cube_at(0, 0, 0);
    let hit = base.ray_intersect(&Vec3::new(0, 0, 5 * FX_ONE), &Vec3::new(0, 0, -FX_ONE));
    assert!(hit.is_intersecting);
    let light = Vec3::new(0, 10 * FX_ONE, 0);
    let objects = [Object::Cube(base, false)];
    assert_eq!(cast_shadow(&hit, &light, &objects), 0);
}

#[test]
fn occluder_between_hit_and_light_casts_shadow() {
    let base = cube_at(0, 0, 0);
    let hit = base.ray_intersect(&Vec3::new(0, 0, 5 * FX_ONE), &Vec3::new(0, 0, -FX_ONE));
    assert!(hit.is_intersecting);
    let light = Vec3::new(0, 10 * FX_ONE, 32768);
    let blocker = cube_at(0, 5 * FX_ONE, 32768);
    let objects = [Object::Cube(base, false), Object::Cube(blocker, false)];
    let s = cast_shadow(&hit, &light, &objects);
    assert!(s > 0, "expected a shadow, got {}", s);
    assert!(s <= FX_ONE);
}

#[test]
fn nearer_occluder_darkens_more() {
    let base = cube_at(0, 0, 0);
    let hit = base.ray_intersect(&Vec3::new(0, 0, 5 * FX_ONE), &Vec3::new(0, 0, -FX_ONE));
    let light = Vec3::new(0, 10 * FX_ONE, 32768);
    let far = [
        Object::Cube(base, false),
        Object::Cube(cube_at(0, 8 * FX_ONE, 32768), false),
    ];
    let near = [
        Object::Cube(base, false),
        Object::Cube(cube_at(0, 2 * FX_ONE, 32768), false),
    ];
    let s_far = cast_shadow(&hit, &light, &far);
    let s_near = cast_shadow(&hit, &light, &near);
    assert!(s_near > s_far, "near {} vs far {}", s_near, s_far);
}

#[test]
fn depth_beyond_ceiling_returns_sky() {
    // The ray would hit the cube, but the depth guard answers first.
    let objects = [Object::Cube(cube_at(0, 0, 0), false)];
    let day = Vec3::new(0, 10 * FX_ONE, 0);
    let c = cast_ray(&Vec3::new(0, 0, 5 * FX_ONE), &Vec3::new(0, 0, -FX_ONE), &objects, &[], &day, 2 * FX_ONE, 4);
    assert_eq!((c.r, c.g, c.b), (68, 142, 228));
    let night = Vec3::new(0, -10 * FX_ONE, 0);
    let c2 = cast_ray(&Vec3::new(0, 0, 5 * FX_ONE), &Vec3::new(0, 0, -FX_ONE), &objects, &[], &night, 2 * FX_ONE, 4);
    assert_eq!((c2.r, c2.g, c2.b), (10, 10, 30));
}

#[test]
fn miss_returns_sky() {
    let objects = [Object::Cube(cube_at(0, 0, 0), false)];
    let day = Vec3::new(0, 10 * FX_ONE, 0);
    let c = cast_ray(&Vec3::new(0, 0, 5 * FX_ONE), &Vec3::new(0, 0, FX_ONE), &objects, &[], &day, 2 * FX_ONE, 0);
    assert_eq!((c.r, c.g, c.b), (68, 142, 228));
}

#[test]
fn straight_on_hit_is_lit_diffuse_plus_specular() {
    // A single unlit-by-shadow cube: the result must equal the documented
    // diffuse + specular + ambient combination, computed step by step.
    let base = cube_at(0, 0, 0);
    let objects = [Object::Cube(base, false)];
    let eye = Vec3::new(0, 0, 5 * FX_ONE);
    let dir = Vec3::new(0, 0, -FX_ONE);
    let sun = Vec3::new(0, 10 * FX_ONE, 0);
    let sun_intensity = 2 * FX_ONE;

    let got = cast_ray(&eye, &dir, &objects, &[], &sun, sun_intensity, 0);

    let hit = base.ray_intersect(&eye, &dir);
    assert!(hit.is_intersecting);
    assert_eq!(hit.distance, 4 * FX_ONE + FX_ONE / 2);
    assert_eq!(cast_shadow(&hit, &sun, &objects), 0);

    let lvec = sun.sub(&hit.point);
    let light_dir = lvec.normalize();
    let view_dir = eye.sub(&hit.point).normalize();
    let reflect_dir = light_dir.neg().reflect(&hit.normal).normalize();

    let sun_height = max_fx(sun.y, 0);
    let light_intensity = add_fx(mul_fx(sun_intensity, div_fx(sun_height, HEIGHT_SCALE_FX)), FX_ONE);
    let diffuse_intensity = max_fx(hit.normal.dot(&light_dir).abs(), FX_ONE / 2);
    let specular_intensity = pow_fx(max_fx(view_dir.dot(&reflect_dir), 0), 1);

    let lit = sub_fx(FX_ONE, 0);
    let diffuse = Color::new(120, 80, 40)
        .scale(58982)
        .scale(diffuse_intensity)
        .scale(light_intensity)
        .scale(lit);
    let specular = Color::new(255, 255, 255)
        .scale(6553)
        .scale(specular_intensity)
        .scale(light_intensity)
        .scale(lit);
    let ambient = Color::new(120, 80, 40).scale(13107);
    let expected = diffuse.blend(&specular).blend(&ambient);

    assert_eq!((got.r, got.g, got.b), (expected.r, expected.g, expected.b));
    // Not the sky: the hit was shaded.
    assert_ne!((got.r, got.g, got.b), (68, 142, 228));
}

#[test]
fn textured_hit_samples_the_texture() {
    let pixels = vec![
        Color::new(200, 0, 0),
        Color::new(0, 200, 0),
        Color::new(0, 0, 200),
        Color::new(200, 200, 0),
    ];
    let tex = voxeltrace::texture::Texture::new(2, 2, pixels).unwrap();
    let mat = Material::new(Color::new(1, 2, 3), 1, [FX_ONE, 0, 0, 0], 0, Some(0));
    let base = Cube { center: Vec3::new(0, 0, 0), size: FX_ONE, material: mat };
    let objects = [Object::Cube(base, false)];
    let textures = [tex];
    let eye = Vec3::new(0, 0, 5 * FX_ONE);
    let dir = Vec3::new(0, 0, -FX_ONE);
    let sun = Vec3::new(0, -10 * FX_ONE, 0);

    // Night: no direct light, so only the ambient term remains, and it must
    // be the sampled texel (bottom-right quadrant), not the diffuse color.
    let got = cast_ray(&eye, &dir, &objects, &textures, &sun, 2 * FX_ONE, 0);
    let hit = base.ray_intersect(&eye, &dir);
    let (u, v) = hit.uv.unwrap();
    let texel = textures[0].get_color(u, v);
    let expected = texel.scale(19660);
    assert_eq!((got.r, got.g, got.b), (expected.r, expected.g, expected.b));
}
