use raytracer::camera::{Camera, CameraChange, MAX_DIM};
use raytracer::error::TracerError;
use raytracer::fixed::FX_ONE;
use raytracer::vec3::Vec3;

fn axis_camera(width: u32, height: u32) -> Camera {
    Camera::new(
        Vec3::new(0, 0, 0),
        Vec3::new(0, 0, -FX_ONE),
        Vec3::new(0, FX_ONE, 0),
        10,
        width,
        height,
    )
    .unwrap()
}

#[test]
fn camera_basis_exact_values() {
    // camera at the origin facing -z, up +y, 200x100: every derived
    // quantity has a hand-computed Q16.16 value
    let c = axis_camera(200, 100);
    assert_eq!((c.delta_u.x, c.delta_u.y, c.delta_u.z), (1310, 0, 0));
    assert_eq!((c.delta_v.x, c.delta_v.y, c.delta_v.z), (0, -1310, 0));
    assert_eq!(
        (c.top_left_pixel.x, c.top_left_pixel.y, c.top_left_pixel.z),
        (-130417, 64881, -65536),
    );
}

#[test]
fn ray_for_pixel_exact_values() {
    let c = axis_camera(200, 100);
    let r0 = c.ray_for_pixel(0, 0);
    assert_eq!((r0.origin.x, r0.origin.y, r0.origin.z), (0, 0, 0));
    assert_eq!(
        (r0.direction.x, r0.direction.y, r0.direction.z),
        (-130417, 64881, -65536),
    );
    assert_eq!(r0.finished, 0);
    let rc = c.ray_for_pixel(100, 50);
    assert_eq!((rc.direction.x, rc.direction.y, rc.direction.z), (583, -619, -65536));
}

#[test]
fn camera_rejects_zero_dimension() {
    let r = Camera::new(Vec3::zero(), Vec3::new(0, 0, -FX_ONE), Vec3::new(0, FX_ONE, 0), 1, 0, 75);
    assert_eq!(r.unwrap_err(), TracerError::Configuration);
    let r = Camera::new(Vec3::zero(), Vec3::new(0, 0, -FX_ONE), Vec3::new(0, FX_ONE, 0), 1, 75, 0);
    assert_eq!(r.unwrap_err(), TracerError::Configuration);
}

#[test]
fn camera_rejects_oversized_dimension() {
    let r = Camera::new(
        Vec3::zero(),
        Vec3::new(0, 0, -FX_ONE),
        Vec3::new(0, FX_ONE, 0),
        1,
        MAX_DIM + 1,
        75,
    );
    assert_eq!(r.unwrap_err(), TracerError::ResourceExhaustion);
}

#[test]
fn resize_round_trip_reproduces_basis() {
    // resizing to another resolution and back gives the original camera,
    // bit for bit
    let original = axis_camera(1200, 675);
    let mut c = original;
    c.on_resize((800, 450));
    assert_eq!((c.width, c.height), (800, 450));
    c.on_resize((1200, 675));
    assert_eq!(c, original);
}

#[test]
fn resize_to_same_size_is_noop() {
    let original = axis_camera(320, 200);
    let mut c = original;
    c.on_resize((320, 200));
    assert_eq!(c, original);
}

#[test]
fn move_forward_translates_and_rederives() {
    let mut c = axis_camera(200, 100);
    c.on_camera_change(CameraChange::Forward);
    // forward basis w is +z here; one step of 6554 raw toward -z
    assert_eq!((c.lookfrom.x, c.lookfrom.y, c.lookfrom.z), (0, 0, -6554));
    // lookat is re-derived one unit ahead of the new position
    assert_eq!((c.lookat.x, c.lookat.y, c.lookat.z), (0, 0, -6554 - FX_ONE));
    // resolution kept
    assert_eq!((c.width, c.height), (200, 100));
}

#[test]
fn move_left_right_cancel_on_position() {
    let c0 = axis_camera(200, 100);
    let mut c = c0;
    c.on_camera_change(CameraChange::Left);
    assert_eq!((c.lookfrom.x, c.lookfrom.y, c.lookfrom.z), (-6554, 0, 0));
    c.on_camera_change(CameraChange::Right);
    assert_eq!((c.lookfrom.x, c.lookfrom.y, c.lookfrom.z), (0, 0, 0));
}

#[test]
fn camera_accepts_largest_dimension() {
    let c = axis_camera(MAX_DIM, MAX_DIM);
    assert_eq!((c.width, c.height), (MAX_DIM, MAX_DIM));
}
