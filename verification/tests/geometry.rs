//! Vector arithmetic and ray-cube intersection scenarios.
use voxeltrace::cube::Cube;
use voxeltrace::fixed::FX_ONE;
use voxeltrace::material::Material;
use voxeltrace::ray_intersect::RayIntersect;
use voxeltrace::vec3::Vec3;

fn plain_material() -> Material {
    Material::new(
        voxeltrace::color::Color::new(120, 80, 40),
        1,
        [58982, 6553, 0, 0],
        0,
        None,
    )
}

fn unit_cube_at_origin() -> Cube {
    Cube { center: Vec3::new(0, 0, 0), size: FX_ONE, material: plain_material() }
}

#[test]
fn magnitude_of_three_four_triangle() {
    let v = Vec3::new(3 * FX_ONE, 4 * FX_ONE, 0);
    assert_eq!(v.magnitude(), 5 * FX_ONE);
}

#[test]
fn normalize_axis_vector_is_exact() {
    let v = Vec3::new(0, 0, -5 * FX_ONE).normalize();
    assert_eq!((v.x, v.y, v.z), (0, 0, -FX_ONE));
}

#[test]
fn reflect_head_on_inverts() {
    // Reflecting straight-down incident light about the up normal.
    let incident = Vec3::new(0, -FX_ONE, 0);
    let n = Vec3::new(0, FX_ONE, 0);
    let r = incident.reflect(&n);
    assert_eq!((r.x, r.y, r.z), (0, FX_ONE, 0));
}

#[test]
fn straight_ray_hits_front_face() {
    // A ray from (0,0,5) toward (0,0,-1) against the unit cube at origin.
    let cube = unit_cube_at_origin();
    let hit = cube.ray_intersect(&Vec3::new(0, 0, 5 * FX_ONE), &Vec3::new(0, 0, -FX_ONE));
    assert!(hit.is_intersecting);
    assert_eq!(hit.distance, 4 * FX_ONE + FX_ONE / 2);
    assert_eq!((hit.point.x, hit.point.y, hit.point.z), (0, 0, FX_ONE / 2));
    assert_eq!((hit.normal.x, hit.normal.y, hit.normal.z), (0, 0, FX_ONE));
    assert_eq!(hit.uv, Some((FX_ONE / 2, FX_ONE / 2)));
}

#[test]
fn ray_pointing_away_misses() {
    let cube = unit_cube_at_origin();
    let away = cube.ray_intersect(&Vec3::new(0, 0, 5 * FX_ONE), &Vec3::new(0, 0, FX_ONE));
    assert!(!away.is_intersecting);
    let side = cube.ray_intersect(&Vec3::new(10 * FX_ONE, 0, 0), &Vec3::new(FX_ONE, 0, 0));
    assert!(!side.is_intersecting);
}

#[test]
fn parallel_ray_outside_slab_misses() {
    let cube = unit_cube_at_origin();
    let hit = cube.ray_intersect(&Vec3::new(2 * FX_ONE, 0, 5 * FX_ONE), &Vec3::new(0, 0, -FX_ONE));
    assert!(!hit.is_intersecting);
}

#[test]
fn origin_inside_cube_misses() {
    // The entry distance is behind the origin, so the hit is rejected.
    let cube = unit_cube_at_origin();
    let hit = cube.ray_intersect(&Vec3::new(0, 0, 0), &Vec3::new(0, 0, -FX_ONE));
    assert!(!hit.is_intersecting);
}

#[test]
fn diagonal_ray_hits_offset_cube() {
    let cube = Cube {
        center: Vec3::new(3 * FX_ONE, 3 * FX_ONE, 0),
        size: 2 * FX_ONE,
        material: plain_material(),
    };
    let dir = Vec3::new(FX_ONE, FX_ONE, 0).normalize();
    let hit = cube.ray_intersect(&Vec3::new(0, 0, 0), &dir);
    assert!(hit.is_intersecting);
    assert!(hit.distance > 0);
}

#[test]
fn uv_of_any_hit_is_in_unit_range() {
    let cube = unit_cube_at_origin();
    let dirs = [
        Vec3::new(0, 0, -FX_ONE),
        Vec3::new(0, -FX_ONE, 0),
        Vec3::new(-FX_ONE, 0, 0),
        Vec3::new(-FX_ONE, -FX_ONE, -FX_ONE).normalize(),
        Vec3::new(-30000, -20000, -52000).normalize(),
    ];
    let origins = [
        Vec3::new(0, 0, 5 * FX_ONE),
        Vec3::new(13000, 9000, 5 * FX_ONE),
        Vec3::new(3 * FX_ONE, 2 * FX_ONE, 4 * FX_ONE),
    ];
    for o in origins.iter() {
        for d in dirs.iter() {
            let hit = cube.ray_intersect(o, d);
            if hit.is_intersecting {
                let (u, v) = hit.uv.unwrap();
                assert!(u >= 0 && u < FX_ONE, "u out of range: {}", u);
                assert!(v >= 0 && v < FX_ONE, "v out of range: {}", v);
            }
        }
    }
}

#[test]
fn get_uv_tiles_across_world_positions() {
    let cube = Cube {
        center: Vec3::new(7 * FX_ONE, -2 * FX_ONE, 3 * FX_ONE),
        size: FX_ONE,
        material: plain_material(),
    };
    let n = Vec3::new(0, 0, FX_ONE);
    let p = Vec3::new(7 * FX_ONE + 1000, -2 * FX_ONE - 2000, 3 * FX_ONE + FX_ONE / 2);
    let (u, v) = cube.get_uv(&p, &n);
    assert!(u >= 0 && u < FX_ONE);
    assert!(v >= 0 && v < FX_ONE);
    // The local offset from the minimum corner decides the UV directly.
    assert_eq!(u, 1000 + FX_ONE / 2);
    assert_eq!(v, FX_ONE / 2 - 2000);
}
