//! Camera basis, movement, orbit, texture construction and the render loop.
use voxeltrace::camera::Camera;
use voxeltrace::camera::CameraMove;
use voxeltrace::color::Color;
use voxeltrace::cube::Cube;
use voxeltrace::fixed::FX_ONE;
use voxeltrace::material::Material;
use voxeltrace::render::render;
use voxeltrace::shading::Object;
use voxeltrace::texture::Texture;
use voxeltrace::vec3::Vec3;

fn looking_down_z() -> Camera {
    Camera::new(Vec3::new(0, 0, 5 * FX_ONE), Vec3::new(0, 0, 0), Vec3::new(0, FX_ONE, 0))
}

#[test]
fn look_at_basis_is_axis_aligned() {
    let cam = looking_down_z();
    assert_eq!((cam.forward.x, cam.forward.y, cam.forward.z), (0, 0, FX_ONE));
    assert_eq!((cam.right.x, cam.right.y, cam.right.z), (FX_ONE, 0, 0));
    assert_eq!((cam.upv.x, cam.upv.y, cam.upv.z), (0, FX_ONE, 0));
}

#[test]
fn base_change_maps_camera_axes_to_world() {
    let cam = looking_down_z();
    let ahead = cam.base_change(&Vec3::new(0, 0, -FX_ONE));
    assert_eq!((ahead.x, ahead.y, ahead.z), (0, 0, -FX_ONE));
    let up = cam.base_change(&Vec3::new(0, FX_ONE, 0));
    assert_eq!((up.x, up.y, up.z), (0, FX_ONE, 0));
}

#[test]
fn move_forward_steps_toward_target() {
    let mut cam = looking_down_z();
    cam.move_camera(CameraMove::Forward);
    assert_eq!((cam.eye.x, cam.eye.y, cam.eye.z), (0, 0, 4 * FX_ONE));
    assert_eq!((cam.center.x, cam.center.y, cam.center.z), (0, 0, -FX_ONE));
    // The basis is unchanged: eye and target moved together.
    assert_eq!((cam.forward.x, cam.forward.y, cam.forward.z), (0, 0, FX_ONE));
}

#[test]
fn strafe_right_steps_along_right_axis() {
    let mut cam = looking_down_z();
    cam.move_camera(CameraMove::Right);
    assert_eq!((cam.eye.x, cam.eye.y, cam.eye.z), (FX_ONE, 0, 5 * FX_ONE));
}

#[test]
fn orbit_by_zero_is_a_noop() {
    let mut cam = Camera::new(
        Vec3::new(0, 5 * FX_ONE, 7 * FX_ONE),
        Vec3::new(0, 5 * FX_ONE, 0),
        Vec3::new(0, 3 * FX_ONE, 0),
    );
    let before = cam;
    cam.orbit(0, 0);
    assert_eq!(cam.eye, before.eye);
    assert_eq!(cam.center, before.center);
    assert_eq!(cam.up, before.up);
    assert_eq!(cam.right, before.right);
    assert_eq!(cam.upv, before.upv);
    assert_eq!(cam.forward, before.forward);
}

#[test]
fn orbit_keeps_the_target() {
    let mut cam = looking_down_z();
    cam.orbit(3277, 0);
    assert_eq!((cam.center.x, cam.center.y, cam.center.z), (0, 0, 0));
    assert_ne!((cam.eye.x, cam.eye.z), (0, 5 * FX_ONE));
}

#[test]
fn texture_rejects_mismatched_pixel_count() {
    let three = vec![Color::black(), Color::black(), Color::black()];
    assert!(Texture::new(2, 2, three).is_none());
    assert!(Texture::new(0, 2, vec![]).is_none());
    let four = vec![Color::black(), Color::black(), Color::black(), Color::black()];
    assert!(Texture::new(2, 2, four).is_some());
}

#[test]
fn texture_sampling_wraps_and_flips() {
    let pixels = vec![
        Color::new(10, 0, 0),
        Color::new(20, 0, 0),
        Color::new(30, 0, 0),
        Color::new(40, 0, 0),
    ];
    let tex = Texture::new(2, 2, pixels).unwrap();
    // v = 0 reads the top row.
    assert_eq!(tex.get_color(0, 0).r, 10);
    assert_eq!(tex.get_color(FX_ONE / 2, 0).r, 20);
    // v = 1/2 reads the bottom row.
    assert_eq!(tex.get_color(0, FX_ONE / 2).r, 30);
    assert_eq!(tex.get_color(FX_ONE / 2, FX_ONE / 2).r, 40);
    // Both coordinates wrap modulo one.
    assert_eq!(tex.get_color(FX_ONE + 100, 0).r, tex.get_color(100, 0).r);
    assert_eq!(tex.get_color(-100, 0).r, tex.get_color(FX_ONE - 100, 0).r);
}

#[test]
fn render_of_empty_scene_is_all_sky() {
    let mut fb: Vec<u32> = Vec::new();
    let cam = looking_down_z();
    let day = Vec3::new(0, 10 * FX_ONE, 0);
    render(&mut fb, 2, 2, &[], &[], &cam, &day, 2 * FX_ONE);
    assert_eq!(fb.len(), 4);
    let sky_hex = 68 * 65536 + 142 * 256 + 228;
    for px in fb.iter() {
        assert_eq!(*px, sky_hex);
    }
}

#[test]
fn render_writes_every_pixel_of_a_scene() {
    let mat = Material::new(Color::new(120, 80, 40), 1, [58982, 6553, 0, 0], 0, None);
    let objects = [
        Object::Cube(Cube { center: Vec3::new(0, 0, 0), size: 2 * FX_ONE, material: mat }, false),
    ];
    let mut fb: Vec<u32> = Vec::new();
    let cam = looking_down_z();
    let day = Vec3::new(0, 10 * FX_ONE, 0);
    render(&mut fb, 8, 6, &objects, &[], &cam, &day, 2 * FX_ONE);
    assert_eq!(fb.len(), 48);
    // The cube fills part of the view: not every pixel is sky.
    let sky_hex = 68 * 65536 + 142 * 256 + 228;
    assert!(fb.iter().any(|p| *p != sky_hex));
    assert!(fb.iter().any(|p| *p == sky_hex));
}
