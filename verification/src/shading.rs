//! The shading pipeline: nearest-hit search, shadow rays, the day/night sky
//! model and the diffuse/specular/ambient light model.
use vstd::prelude::*;

verus! {

use crate::color::Color;
use crate::color::col_add;
use crate::color::col_scale;
use crate::cube::Cube;
use crate::cube::T_INF;
use crate::cube::cube_hit_rec;
use crate::fixed::FX_ONE;
use crate::fixed::abs_fx;
use crate::fixed::add_fx;
use crate::fixed::div_fx;
use crate::fixed::fx_abs;
use crate::fixed::fx_add;
use crate::fixed::fx_div;
use crate::fixed::fx_max;
use crate::fixed::fx_min;
use crate::fixed::fx_mul;
use crate::fixed::fx_pow;
use crate::fixed::fx_sub;
use crate::fixed::max_fx;
use crate::fixed::min_fx;
use crate::fixed::mul_fx;
use crate::fixed::pow_fx;
use crate::fixed::sat_fx;
use crate::fixed::sub_fx;
use crate::material::Material;
use crate::ray_intersect::HitRec;
use crate::ray_intersect::Intersect;
use crate::ray_intersect::RayIntersect;
use crate::texture::Texture;
use crate::texture::spec_sample;
use crate::texture::tex_wf;
use crate::vec3::V3;
use crate::vec3::Vec3;
use crate::vec3::v3_add;
use crate::vec3::v3_dot;
use crate::vec3::v3_mag;
use crate::vec3::v3_neg;
use crate::vec3::v3_normalize;
use crate::vec3::v3_reflect;
use crate::vec3::v3_scale;
use crate::vec3::v3_sub;

/// Shadow and reflection rays start this far from the surface along the
/// normal, so they do not immediately intersect their own surface.
pub const ORIGIN_BIAS_FX: i64 = 7;

/// Diffuse intensity never falls below this floor (0.5), so backlit faces
/// stay visible.
pub const DIFFUSE_FLOOR_FX: i64 = 32768;

/// Ambient factor while the light body is up (0.2).
pub const AMBIENT_DAY_FX: i64 = 13107;

/// Ambient factor while the light body is down (0.3).
pub const AMBIENT_NIGHT_FX: i64 = 19660;

/// Divisor of the light height in the intensity model (15.0).
pub const HEIGHT_SCALE_FX: i64 = 983040;

/// Shading recursion ceiling: deeper calls return the sky color.
pub const MAX_DEPTH: u32 = 3;

/// A scene entry: a cube and whether it is the animated light body.
pub enum Object {
    Cube(Cube, bool),
}

/// The cube of a scene entry.
pub open spec fn obj_cube(o: Object) -> Cube {
    match o {
        Object::Cube(c, _) => c,
    }
}

/// Every scene cube is well formed and its texture reference, if any, names
/// a well-formed entry of the texture table.
pub open spec fn scene_wf(objects: Seq<Object>, textures: Seq<Texture>) -> bool {
    forall|i: int|
        0 <= i < objects.len() ==> obj_cube(#[trigger] objects[i]).wf() && tex_ok(
            obj_cube(objects[i]).material,
            textures,
        )
}

/// The texture reference of a material, if any, names a well-formed entry
/// of the texture table.
pub open spec fn tex_ok(m: Material, textures: Seq<Texture>) -> bool {
    match m.texture {
        Some(ti) => ti < textures.len() && tex_wf(textures[ti as int]),
        None => true,
    }
}

/// The sky color while the light body is up.
pub open spec fn day_sky() -> Color {
    Color { r: 68u8, g: 142u8, b: 228u8 }
}

/// The sky color while the light body is down.
pub open spec fn night_sky() -> Color {
    Color { r: 10u8, g: 10u8, b: 30u8 }
}

/// The sky is the day constant exactly when the light body's height is
/// positive, and the night constant otherwise, with no blending.
pub open spec fn spec_sky(sun: V3) -> Color {
    if sun.y > 0 {
        day_sky()
    } else {
        night_sky()
    }
}

/// Color of a ray that hits nothing, keyed only on the light body's height.
pub fn adjust_sky_color(sun_position: &Vec3) -> (c: Color)
    ensures
        c == spec_sky(sun_position@),
        sun_position.y > 0 ==> c == day_sky(),
        sun_position.y <= 0 ==> c == night_sky(),
{
    if sun_position.y > 0 {
        Color::new(68, 142, 228)
    } else {
        Color::new(10, 10, 30)
    }
}

/// The hit point nudged along the normal, away from the side the given ray
/// direction approaches from.
pub open spec fn spec_offset_origin(it: HitRec, dir: V3) -> V3 {
    let off = v3_scale(it.normal, ORIGIN_BIAS_FX as int);
    if v3_dot(dir, it.normal) < 0 {
        v3_sub(it.point, off)
    } else {
        v3_add(it.point, off)
    }
}

/// Bias the hit point along the normal so a secondary ray in `direction`
/// does not intersect the surface it starts on.
pub fn offset_origin(intersect: &Intersect, direction: &Vec3) -> (r: Vec3)
    ensures
        r@ == spec_offset_origin(intersect@, direction@),
{
    let off = intersect.normal.scale(ORIGIN_BIAS_FX);
    if direction.dot(&intersect.normal) < 0 {
        intersect.point.sub(&off)
    } else {
        intersect.point.add(&off)
    }
}

/// Shadow attenuation from one occluder at parametric distance `d` of a
/// light at distance `ld`: one minus the squared distance ratio, capped.
pub open spec fn occluder_shadow(d: int, ld: int) -> int {
    let ratio = fx_div(d, ld);
    fx_sub(FX_ONE as int, fx_min(fx_mul(ratio, ratio), FX_ONE as int))
}

/// Shadow intensity from the first entry at or after `i` that occludes the
/// light, or zero when none does.
pub open spec fn shadow_scan(
    objects: Seq<Object>,
    sorigin: V3,
    ldir: V3,
    ldist: int,
    i: int,
) -> int
    decreases objects.len() - i,
{
    if i < 0 || i >= objects.len() {
        0
    } else {
        let h = cube_hit_rec(obj_cube(objects[i]), sorigin, ldir);
        if h.is_intersecting && h.distance < ldist {
            occluder_shadow(h.distance, ldist)
        } else {
            shadow_scan(objects, sorigin, ldir, ldist, i + 1)
        }
    }
}

/// The shadow intensity a hit receives from the scene.
pub open spec fn spec_cast_shadow(it: HitRec, sun: V3, objects: Seq<Object>) -> int {
    let lvec = v3_sub(sun, it.point);
    let ldir = v3_normalize(lvec);
    let ldist = v3_mag(lvec);
    let sorigin = spec_offset_origin(it, ldir);
    shadow_scan(objects, sorigin, ldir, ldist, 0)
}

/// The shadow cast by a single occluder is a valid attenuation factor.
pub proof fn lemma_occluder_shadow_range(d: int, ld: int)
    requires
        0 <= d < ld,
    ensures
        0 <= occluder_shadow(d, ld) <= FX_ONE,
{
    let ratio = fx_div(d, ld);
    assert(ratio >= 0);
    assert(fx_mul(ratio, ratio) >= 0) by (nonlinear_arith);
}

/// An occluder standing on the shadow ray's origin blocks the light fully.
pub proof fn lemma_occluder_shadow_at_zero(ld: int)
    requires
        ld > 0,
    ensures
        occluder_shadow(0, ld) == FX_ONE,
{
    vstd::arithmetic::div_mod::lemma_div_of0(ld);
    vstd::arithmetic::div_mod::lemma_div_of0(FX_ONE as int);
    assert(fx_div(0, ld) == 0);
    assert(fx_mul(0, 0) == 0);
    assert(fx_min(0, FX_ONE as int) == 0);
    assert(fx_sub(FX_ONE as int, 0) == FX_ONE);
}

/// The nearer the occluder stands to the shadow ray's origin, relative to
/// the light's distance, the stronger the shadow.
pub proof fn lemma_occluder_shadow_monotone(d1: int, d2: int, ld: int)
    requires
        0 <= d1 <= d2 < ld,
    ensures
        occluder_shadow(d2, ld) <= occluder_shadow(d1, ld),
{
    let r1 = fx_div(d1, ld);
    let r2 = fx_div(d2, ld);
    vstd::arithmetic::div_mod::lemma_div_is_ordered(d1 * FX_ONE, d2 * FX_ONE, ld);
    assert(0 <= r1 <= r2);
    assert(r1 * r1 <= r2 * r2) by (nonlinear_arith)
        requires
            0 <= r1 <= r2,
    ;
    vstd::arithmetic::div_mod::lemma_div_is_ordered(r1 * r1, r2 * r2, FX_ONE as int);
    assert(fx_mul(r1, r1) <= fx_mul(r2, r2));
}

proof fn lemma_shadow_scan_range(objects: Seq<Object>, sorigin: V3, ldir: V3, ldist: int, i: int)
    ensures
        0 <= shadow_scan(objects, sorigin, ldir, ldist, i) <= FX_ONE,
    decreases objects.len() - i,
{
    if 0 <= i < objects.len() {
        let h = cube_hit_rec(obj_cube(objects[i]), sorigin, ldir);
        if h.is_intersecting && h.distance < ldist {
            lemma_occluder_shadow_range(h.distance, ldist);
        } else {
            lemma_shadow_scan_range(objects, sorigin, ldir, ldist, i + 1);
        }
    }
}

/// Cast a shadow ray from the hit toward the light.  The result is the
/// attenuation from the first occluding scene entry, zero when no entry
/// blocks the light within its distance, and always lies in
/// `[0, FX_ONE]`.
#[verifier::rlimit(60)]
pub fn cast_shadow(intersect: &Intersect, light_position: &Vec3, objects: &[Object]) -> (r: i64)
    requires
        forall|i: int| 0 <= i < objects@.len() ==> obj_cube(#[trigger] objects@[i]).wf(),
    ensures
        r == spec_cast_shadow(intersect@, light_position@, objects@),
        0 <= r <= FX_ONE,
        (forall|i: int|
            0 <= i < objects@.len() ==> {
                let h = cube_hit_rec(
                    obj_cube(#[trigger] objects@[i]),
                    spec_offset_origin(
                        intersect@,
                        v3_normalize(v3_sub(light_position@, intersect@.point)),
                    ),
                    v3_normalize(v3_sub(light_position@, intersect@.point)),
                );
                !(h.is_intersecting && h.distance < v3_mag(
                    v3_sub(light_position@, intersect@.point),
                ))
            }) ==> r == 0,
{
    let lvec = light_position.sub(&intersect.point);
    let light_dir = lvec.normalize();
    let light_distance = lvec.magnitude();
    let shadow_ray_origin = offset_origin(intersect, &light_dir);

    let ghost gso = shadow_ray_origin@;
    let ghost gld = light_dir@;
    let ghost gdist = light_distance as int;

    let mut i: usize = 0;
    while i < objects.len()
        invariant
            0 <= i <= objects@.len(),
            forall|j: int| 0 <= j < objects@.len() ==> obj_cube(#[trigger] objects@[j]).wf(),
            gso == shadow_ray_origin@,
            gld == light_dir@,
            gdist == light_distance as int,
            gld == v3_normalize(v3_sub(light_position@, intersect@.point)),
            gdist == v3_mag(v3_sub(light_position@, intersect@.point)),
            gso == spec_offset_origin(intersect@, gld),
            shadow_scan(objects@, gso, gld, gdist, 0) == shadow_scan(
                objects@,
                gso,
                gld,
                gdist,
                i as int,
            ),
        decreases objects@.len() - i,
    {
        let shadow_intersect = match &objects[i] {
            Object::Cube(cube, _) => cube.ray_intersect(&shadow_ray_origin, &light_dir),
        };
        if shadow_intersect.is_intersecting && shadow_intersect.distance < light_distance {
            let ratio: i64 = div_fx(shadow_intersect.distance, light_distance);
            let r: i64 = sub_fx(FX_ONE, min_fx(mul_fx(ratio, ratio), FX_ONE));
            proof {
                assert(shadow_intersect@ == cube_hit_rec(
                    obj_cube(objects@[i as int]),
                    gso,
                    gld,
                ));
                assert(shadow_scan(objects@, gso, gld, gdist, i as int) == occluder_shadow(
                    shadow_intersect@.distance,
                    gdist,
                ));
                assert(r == occluder_shadow(shadow_intersect@.distance, gdist));
                lemma_shadow_scan_range(objects@, gso, gld, gdist, i as int);
                assert(r == shadow_scan(objects@, gso, gld, gdist, 0));
                assert(gld == v3_normalize(v3_sub(light_position@, intersect@.point)));
                assert(gdist == v3_mag(v3_sub(light_position@, intersect@.point)));
                assert(gso == spec_offset_origin(
                    intersect@,
                    v3_normalize(v3_sub(light_position@, intersect@.point)),
                ));
                assert(spec_cast_shadow(intersect@, light_position@, objects@) == shadow_scan(
                    objects@,
                    gso,
                    gld,
                    gdist,
                    0,
                ));
            }
            return r;
        }
        i = i + 1;
    }
    0
}

/// Light intensity from the light body's height: scaled height plus one
/// while the body is up, zero while it is down.
pub open spec fn spec_light_intensity(sun: V3, sun_intensity: int) -> int {
    let h = fx_max(sun.y, 0);
    if h > 0 {
        fx_add(fx_mul(sun_intensity, fx_div(h, HEIGHT_SCALE_FX as int)), FX_ONE as int)
    } else {
        0
    }
}

/// The base surface color of a hit: the sampled texel when the material has
/// a texture and the hit carries a UV pair, the material's constant diffuse
/// color otherwise.
pub open spec fn spec_diffuse_color(
    m: Material,
    uv: Option<(int, int)>,
    textures: Seq<Texture>,
) -> Color {
    match m.texture {
        Some(ti) => match uv {
            Some((u, v)) => spec_sample(textures[ti as int], u, v),
            None => m.diffuse,
        },
        None => m.diffuse,
    }
}

/// The nearest hit among the first `n` scene entries, with the running
/// nearest distance (`T_INF` while nothing hit).
pub open spec fn scan_hits(objects: Seq<Object>, o: V3, d: V3, n: int) -> (HitRec, int)
    decreases n,
{
    if n <= 0 {
        (crate::ray_intersect::empty_hit(), T_INF as int)
    } else {
        let prev = scan_hits(objects, o, d, n - 1);
        let h = cube_hit_rec(obj_cube(objects[n - 1]), o, d);
        if h.is_intersecting && h.distance < prev.1 {
            (h, h.distance)
        } else {
            prev
        }
    }
}

/// The nearest hit of the ray in the scene, or the no-hit record.
pub open spec fn nearest_hit(objects: Seq<Object>, o: V3, d: V3) -> HitRec {
    scan_hits(objects, o, d, objects.len() as int).0
}

#[verifier::rlimit(60)]
proof fn lemma_scan_nearest(objects: Seq<Object>, o: V3, d: V3, n: int)
    requires
        0 <= n <= objects.len(),
    ensures
        ({
            let (h, z) = scan_hits(objects, o, d, n);
            &&& (h.is_intersecting ==> h.distance == z && 0 <= z <= crate::fixed::FX_SAT)
            &&& (!h.is_intersecting ==> z == T_INF as int)
            &&& (h.is_intersecting ==> exists|j: int|
                0 <= j < n && cube_hit_rec(obj_cube(#[trigger] objects[j]), o, d) == h)
            &&& forall|j: int|
                0 <= j < n && cube_hit_rec(obj_cube(#[trigger] objects[j]), o, d).is_intersecting
                    ==> h.is_intersecting && h.distance <= cube_hit_rec(
                    obj_cube(objects[j]),
                    o,
                    d,
                ).distance
        }),
    decreases n,
{
    if n > 0 {
        lemma_scan_nearest(objects, o, d, n - 1);
        let h = cube_hit_rec(obj_cube(objects[n - 1]), o, d);
        if h.is_intersecting {
            lemma_hit_distance_bounded(obj_cube(objects[n - 1]), o, d);
        }
    }
}

/// A hit's parametric distance lies between zero and the saturation bound.
proof fn lemma_hit_distance_bounded(c: Cube, o: V3, d: V3)
    requires
        crate::cube::cube_hits(c, o, d),
    ensures
        0 <= crate::cube::entry_t(c, o, d) <= crate::fixed::FX_SAT,
{
}

/// The hit the scan keeps is a real hit of some scene entry, and no entry's
/// hit is nearer; when no entry hits, the scan keeps the no-hit record.
pub proof fn lemma_nearest_hit_is_nearest(objects: Seq<Object>, o: V3, d: V3)
    ensures
        nearest_hit(objects, o, d).is_intersecting ==> exists|j: int|
            0 <= j < objects.len() && cube_hit_rec(obj_cube(#[trigger] objects[j]), o, d)
                == nearest_hit(objects, o, d),
        forall|j: int|
            0 <= j < objects.len() && cube_hit_rec(
                obj_cube(#[trigger] objects[j]),
                o,
                d,
            ).is_intersecting ==> nearest_hit(objects, o, d).is_intersecting && nearest_hit(
                objects,
                o,
                d,
            ).distance <= cube_hit_rec(obj_cube(objects[j]), o, d).distance,
{
    lemma_scan_nearest(objects, o, d, objects.len() as int);
}

proof fn lemma_scan_props(objects: Seq<Object>, textures: Seq<Texture>, o: V3, d: V3, n: int)
    requires
        scene_wf(objects, textures),
        0 <= n <= objects.len(),
    ensures
        ({
            let (h, z) = scan_hits(objects, o, d, n);
            &&& (h.is_intersecting ==> h.uv is Some && tex_ok(h.material, textures) && h.distance
                >= 0 && h.distance == z)
            &&& (!h.is_intersecting ==> h == crate::ray_intersect::empty_hit() && z
                == T_INF as int)
        }),
    decreases n,
{
    if n > 0 {
        lemma_scan_props(objects, textures, o, d, n - 1);
    }
}

/// Shade one ray against the scene.
///
/// Beyond the recursion ceiling, and when the ray hits nothing, the result
/// is exactly the sky color for the light body's current height.  On a hit
/// the result is the diffuse, specular and ambient sum of the canonical
/// shading model, with the light attenuated by the shadow intensity.
/// Textures are looked up in the scene's texture table `textures`.
pub fn cast_ray(
    ray_origin: &Vec3,
    ray_direction: &Vec3,
    objects: &[Object],
    textures: &[Texture],
    sun_position: &Vec3,
    sun_intensity: i64,
    depth: u32,
) -> (c: Color)
    requires
        scene_wf(objects@, textures@),
    ensures
        c == spec_cast_ray(
            ray_origin@,
            ray_direction@,
            objects@,
            textures@,
            sun_position@,
            sun_intensity as int,
            depth as int,
        ),
        depth > MAX_DEPTH ==> c == spec_sky(sun_position@),
        !nearest_hit(objects@, ray_origin@, ray_direction@).is_intersecting ==> c == spec_sky(
            sun_position@,
        ),
{
    if depth > MAX_DEPTH {
        return adjust_sky_color(sun_position);
    }
    let mut intersect = Intersect::empty();
    let mut zbuffer: i64 = T_INF;

    let mut i: usize = 0;
    while i < objects.len()
        invariant
            0 <= i <= objects@.len(),
            scene_wf(objects@, textures@),
            (intersect@, zbuffer as int) == scan_hits(
                objects@,
                ray_origin@,
                ray_direction@,
                i as int,
            ),
        decreases objects@.len() - i,
    {
        let h = match &objects[i] {
            Object::Cube(cube, _) => cube.ray_intersect(ray_origin, ray_direction),
        };
        if h.is_intersecting && h.distance < zbuffer {
            zbuffer = h.distance;
            intersect = h;
        }
        i = i + 1;
    }

    proof {
        lemma_scan_props(
            objects@,
            textures@,
            ray_origin@,
            ray_direction@,
            objects@.len() as int,
        );
    }

    if !intersect.is_intersecting {
        return adjust_sky_color(sun_position);
    }

    let lvec = sun_position.sub(&intersect.point);
    let light_dir = lvec.normalize();
    let view_dir = ray_origin.sub(&intersect.point).normalize();
    let reflect_dir = light_dir.neg().reflect(&intersect.normal).normalize();

    let shadow_intensity = cast_shadow(&intersect, sun_position, objects);

    let sun_height: i64 = max_fx(sun_position.y, 0);
    let light_intensity: i64 = if sun_height > 0 {
        add_fx(mul_fx(sun_intensity, div_fx(sun_height, HEIGHT_SCALE_FX)), FX_ONE)
    } else {
        0
    };

    let diffuse_intensity: i64 = max_fx(abs_fx(intersect.normal.dot(&light_dir)), DIFFUSE_FLOOR_FX);
    let specular_intensity: i64 = pow_fx(
        max_fx(view_dir.dot(&reflect_dir), 0),
        intersect.material.specular,
    );

    let diffuse_color: Color = match intersect.material.texture {
        Some(ti) => match intersect.uv {
            Some((u, v)) => textures[ti].get_color(u, v),
            None => intersect.material.diffuse,
        },
        None => intersect.material.diffuse,
    };

    let ambient_light: i64 = if sun_position.y > 0 {
        AMBIENT_DAY_FX
    } else {
        AMBIENT_NIGHT_FX
    };
    let lit: i64 = sub_fx(FX_ONE, shadow_intensity);

    let diffuse = diffuse_color.scale(intersect.material.albedo[0]).scale(diffuse_intensity).scale(
        light_intensity,
    ).scale(lit);
    let specular = Color::new(255, 255, 255).scale(intersect.material.albedo[1]).scale(
        specular_intensity,
    ).scale(light_intensity).scale(lit);
    let ambient = diffuse_color.scale(ambient_light);

    diffuse.blend(&specular).blend(&ambient)
}

/// The mathematical value of `cast_ray`.
pub open spec fn spec_cast_ray(
    o: V3,
    d: V3,
    objects: Seq<Object>,
    textures: Seq<Texture>,
    sun: V3,
    sun_intensity: int,
    depth: int,
) -> Color {
    if depth > MAX_DEPTH {
        spec_sky(sun)
    } else {
        let it = nearest_hit(objects, o, d);
        if !it.is_intersecting {
            spec_sky(sun)
        } else {
            let lvec = v3_sub(sun, it.point);
            let light_dir = v3_normalize(lvec);
            let view_dir = v3_normalize(v3_sub(o, it.point));
            let reflect_dir = v3_normalize(v3_reflect(v3_neg(light_dir), it.normal));
            let shadow = spec_cast_shadow(it, sun, objects);
            let li = spec_light_intensity(sun, sun_intensity);
            let diffuse_i = fx_max(sat_fx(fx_abs(v3_dot(it.normal, light_dir))),
                DIFFUSE_FLOOR_FX as int);
            let spec_i = fx_pow(fx_max(v3_dot(view_dir, reflect_dir), 0),
                it.material.specular as nat);
            let dcol = spec_diffuse_color(it.material, it.uv, textures);
            let amb = if sun.y > 0 {
                AMBIENT_DAY_FX as int
            } else {
                AMBIENT_NIGHT_FX as int
            };
            let lit = fx_sub(FX_ONE as int, shadow);
            let diffuse = col_scale(
                col_scale(col_scale(col_scale(dcol, it.material.albedo[0] as int), diffuse_i), li),
                lit,
            );
            let specular = col_scale(
                col_scale(
                    col_scale(
                        col_scale(Color { r: 255u8, g: 255u8, b: 255u8 }, it.material.albedo[1] as int),
                        spec_i,
                    ),
                    li,
                ),
                lit,
            );
            let ambient = col_scale(dcol, amb);
            col_add(col_add(diffuse, specular), ambient)
        }
    }
}

} // verus!
