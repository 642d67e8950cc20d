use raytracer::camera::Camera;
use raytracer::error::TracerError;
use raytracer::fixed::FX_ONE;
use raytracer::image::RadianceImage;
use raytracer::scene::{Material, Scene, Sphere};
use raytracer::trace::{initial_rays, Raytracer};
use raytracer::tracer::PathTracer;
use raytracer::vec3::Vec3;

fn axis_camera(width: u32, height: u32, num_samples: u32) -> Camera {
    Camera::new(
        Vec3::new(0, 0, 0),
        Vec3::new(0, 0, -FX_ONE),
        Vec3::new(0, FX_ONE, 0),
        num_samples,
        width,
        height,
    )
    .unwrap()
}

fn book_scene() -> Scene {
    // one small Lambertian sphere ahead of the camera and one large
    // ground sphere below it
    let mut scene = Scene::empty();
    scene.new_sphere(
        Sphere::new(Vec3::new(0, 0, -FX_ONE), FX_ONE / 2),
        Material::new_lambertian(Vec3::new(6554, 13107, 32768)),
    );
    scene.new_sphere(
        Sphere::new(Vec3::new(0, -6586368, -FX_ONE), 100 * FX_ONE),
        Material::new_lambertian(Vec3::new(52429, 52429, 0)),
    );
    scene
}

#[test]
fn one_ray_per_pixel_row_major() {
    let c = axis_camera(16, 9, 1);
    let rays = initial_rays(&c);
    assert_eq!(rays.len(), 16 * 9);
    for y in 0..9u32 {
        for x in 0..16u32 {
            let r = rays[(y * 16 + x) as usize];
            let expect = c.ray_for_pixel(x, y);
            assert_eq!(r, expect);
            assert_eq!(r.finished, 0);
        }
    }
}

#[test]
fn finished_rays_stay_byte_identical() {
    // with an empty scene every ray finishes at the first dispatch; later
    // dispatches must carry each one through unmodified
    let c = axis_camera(8, 6, 1);
    let mut rt = Raytracer::new(&c, 4, Scene::empty());
    let mut img = RadianceImage::new(8, 6);
    rt.dispatch(&mut img, 42);
    let after_first: Vec<_> = if rt.ping {
        rt.ping_buf.clone()
    } else {
        rt.pong_buf.clone()
    };
    assert!(after_first.iter().all(|r| r.finished == 1));
    rt.dispatch(&mut img, 43);
    let after_second: Vec<_> = if rt.ping {
        rt.ping_buf.clone()
    } else {
        rt.pong_buf.clone()
    };
    assert_eq!(after_first, after_second);
}

#[test]
fn dispatch_swaps_parity() {
    let c = axis_camera(4, 4, 1);
    let mut rt = Raytracer::new(&c, 2, Scene::empty());
    let mut img = RadianceImage::new(4, 4);
    assert!(rt.ping);
    rt.dispatch(&mut img, 1);
    assert!(!rt.ping);
    rt.dispatch(&mut img, 2);
    assert!(rt.ping);
}

#[test]
fn empty_scene_gives_uniform_background() {
    // for any camera configuration, zero spheres means every texel holds
    // exactly samples-many background deposits
    let c = axis_camera(12, 7, 3);
    let mut pt = PathTracer::new(c, 5, Scene::empty(), 99);
    pt.recompute();
    let img = pt.image();
    let expect = (3 * 32768, 3 * 45875, 3 * 65536);
    for y in 0..7u32 {
        for x in 0..12u32 {
            let t = img.texel(x, y);
            assert_eq!((t.x, t.y, t.z), expect);
        }
    }
}

#[test]
fn recompute_is_reproducible() {
    // the injected seed makes the whole stochastic pipeline a function of
    // the configuration: two recomputes give bit-equal images
    let c = axis_camera(10, 8, 2);
    let mut pt = PathTracer::new(c, 6, book_scene(), 2024);
    pt.recompute();
    let first: Vec<Vec3> = pt.image().texels.clone();
    pt.recompute();
    assert_eq!(first, pt.image().texels);
}

#[test]
fn end_to_end_silhouette_differs_from_background() {
    // camera at the origin facing -z; the small sphere covers the image
    // center, the corners see only background
    let c = axis_camera(20, 10, 10);
    let mut pt = PathTracer::new(c, 50, book_scene(), 7);
    pt.recompute();
    let img = pt.image();
    // all radiance is nonnegative (and fixed point is always finite)
    for y in 0..10u32 {
        for x in 0..20u32 {
            let t = img.texel(x, y);
            assert!(t.x >= 0 && t.y >= 0 && t.z >= 0);
        }
    }
    let center = img.texel(10, 5);
    let corner = img.texel(0, 0);
    // background is ten deposits of the sky color; the sphere tints and
    // attenuates, so the blue channel must differ by a clear margin
    assert_eq!((corner.x, corner.y, corner.z), (10 * 32768, 10 * 45875, 10 * 65536));
    assert!((center.z - corner.z).abs() > 50000);
}

#[test]
fn resize_sequence_keeps_buffers_exact() {
    // 1200x675 -> 800x450 -> 1200x675: ray buffers and image hold exactly
    // width*height entries at every step, never a stale size
    let c = axis_camera(1200, 675, 1);
    let mut pt = PathTracer::new(c, 1, Scene::empty(), 5);
    assert_eq!(pt.raytracer.ping_buf.len(), 1200 * 675);
    assert_eq!(pt.raytracer.pong_buf.len(), 1200 * 675);
    assert_eq!(pt.image().texels.len(), 1200 * 675);

    assert_eq!(pt.on_resize(800, 450), Ok(true));
    assert_eq!(pt.camera.width, 800);
    assert_eq!(pt.raytracer.ping_buf.len(), 800 * 450);
    assert_eq!(pt.raytracer.pong_buf.len(), 800 * 450);
    assert_eq!(pt.image().texels.len(), 800 * 450);

    assert_eq!(pt.on_resize(1200, 675), Ok(true));
    assert_eq!(pt.raytracer.ping_buf.len(), 1200 * 675);
    assert_eq!(pt.raytracer.pong_buf.len(), 1200 * 675);
    assert_eq!(pt.image().texels.len(), 1200 * 675);
}

#[test]
fn resize_same_size_is_noop() {
    let c = axis_camera(32, 18, 1);
    let mut pt = PathTracer::new(c, 1, Scene::empty(), 5);
    assert_eq!(pt.on_resize(32, 18), Ok(false));
    assert_eq!(pt.camera.width, 32);
}

#[test]
fn resize_rejects_bad_dimensions_and_keeps_state() {
    let c = axis_camera(32, 18, 1);
    let mut pt = PathTracer::new(c, 1, Scene::empty(), 5);
    assert_eq!(pt.on_resize(0, 18), Err(TracerError::Configuration));
    assert_eq!(pt.on_resize(32, 0), Err(TracerError::Configuration));
    assert_eq!(pt.on_resize(20000, 18), Err(TracerError::ResourceExhaustion));
    assert_eq!(pt.camera.width, 32);
    assert_eq!(pt.raytracer.ping_buf.len(), 32 * 18);
}

#[test]
fn clear_resets_every_texel() {
    let c = axis_camera(6, 4, 2);
    let mut pt = PathTracer::new(c, 3, Scene::empty(), 11);
    pt.recompute();
    assert!(pt.image().texel(0, 0).z > 0);
    pt.clear();
    for y in 0..4u32 {
        for x in 0..6u32 {
            let t = pt.image().texel(x, y);
            assert_eq!((t.x, t.y, t.z), (0, 0, 0));
        }
    }
}

#[test]
fn perform_accumulates_without_clearing() {
    let c = axis_camera(5, 5, 2);
    let mut pt = PathTracer::new(c, 2, Scene::empty(), 1);
    pt.recompute();
    let once = pt.image().texel(2, 2);
    pt.perform();
    let twice = pt.image().texel(2, 2);
    assert_eq!((twice.x, twice.y, twice.z), (2 * once.x, 2 * once.y, 2 * once.z));
}

#[test]
fn negative_radius_sphere_is_never_hit() {
    let mut scene = Scene::empty();
    scene.new_sphere(
        Sphere::new(Vec3::new(0, 0, -FX_ONE), -FX_ONE),
        Material::new_lambertian(Vec3::new(100, 100, 100)),
    );
    let c = axis_camera(6, 6, 2);
    let mut pt = PathTracer::new(c, 4, scene, 3);
    pt.recompute();
    // every ray misses, so the image is the uniform background
    let t = pt.image().texel(3, 3);
    assert_eq!((t.x, t.y, t.z), (2 * 32768, 2 * 45875, 2 * 65536));
}

#[test]
fn zero_bounces_skips_the_bounce_loop() {
    // the chosen policy for a bounce count of zero: the loop is skipped,
    // so a recompute leaves the cleared image untouched
    let c = axis_camera(4, 3, 5);
    let mut pt = PathTracer::new(c, 0, book_scene(), 1);
    pt.recompute();
    for y in 0..3u32 {
        for x in 0..4u32 {
            let t = pt.image().texel(x, y);
            assert_eq!((t.x, t.y, t.z), (0, 0, 0));
        }
    }
}

#[test]
fn zero_samples_accumulate_nothing() {
    let c = axis_camera(4, 3, 0);
    let mut pt = PathTracer::new(c, 5, Scene::empty(), 1);
    pt.recompute();
    let t = pt.image().texel(2, 1);
    assert_eq!((t.x, t.y, t.z), (0, 0, 0));
}

#[test]
fn first_inserted_sphere_wins_exact_ties() {
    // two coincident spheres: every hit distance ties, so the material of
    // the sphere inserted first decides every shading; the image equals
    // the one-sphere image with that material and differs from the other
    let red = Material::new_lambertian(Vec3::new(52429, 6554, 6554));
    let blue = Material::new_lambertian(Vec3::new(6554, 6554, 52429));
    let geom = Sphere::new(Vec3::new(0, 0, -FX_ONE), FX_ONE / 2);

    let mut pair = Scene::empty();
    pair.new_sphere(geom, red);
    pair.new_sphere(geom, blue);
    let mut only_red = Scene::empty();
    only_red.new_sphere(geom, red);
    let mut only_blue = Scene::empty();
    only_blue.new_sphere(geom, blue);

    let mut pt_pair = PathTracer::new(axis_camera(10, 6, 2), 6, pair, 9);
    let mut pt_red = PathTracer::new(axis_camera(10, 6, 2), 6, only_red, 9);
    let mut pt_blue = PathTracer::new(axis_camera(10, 6, 2), 6, only_blue, 9);
    pt_pair.recompute();
    pt_red.recompute();
    pt_blue.recompute();
    assert_eq!(pt_pair.image().texels, pt_red.image().texels);
    assert_ne!(pt_pair.image().texels, pt_blue.image().texels);
}

#[test]
fn metal_and_dielectric_scene_renders() {
    let mut scene = Scene::empty();
    scene.new_sphere(
        Sphere::new(Vec3::new(0, 0, -FX_ONE), FX_ONE / 2),
        Material::new_dielectric(98304),
    );
    scene.new_sphere(
        Sphere::new(Vec3::new(0, -6586368, -FX_ONE), 100 * FX_ONE),
        Material::new_metal(Vec3::new(52429, 52429, 52429), 6554),
    );
    let mut pt = PathTracer::new(axis_camera(10, 6, 2), 8, scene, 21);
    pt.recompute();
    let first: Vec<Vec3> = pt.image().texels.clone();
    for t in &first {
        assert!(t.x >= 0 && t.y >= 0 && t.z >= 0);
    }
    // the scene shades differently from the pure background
    let corner = pt.image().texel(0, 0);
    let low_center = pt.image().texel(5, 5);
    assert_eq!((corner.x, corner.y, corner.z), (2 * 32768, 2 * 45875, 2 * 65536));
    assert_ne!((low_center.x, low_center.y, low_center.z), (corner.x, corner.y, corner.z));
    // and deterministically
    pt.recompute();
    assert_eq!(first, pt.image().texels);
}

#[test]
fn normal_map_material_shows_the_surface() {
    let mut scene = Scene::empty();
    scene.new_sphere(
        Sphere::new(Vec3::new(0, 0, -FX_ONE), FX_ONE / 2),
        Material::new_normal_map(),
    );
    let mut pt = PathTracer::new(axis_camera(9, 9, 1), 3, scene, 2);
    pt.recompute();
    let center = pt.image().texel(4, 4);
    // the path terminates at the sphere showing half the normal plus a
    // half; the center normal points back at the camera, +z
    assert!(center.z > 49152);
    assert!(center.z <= 65536);
    let corner = pt.image().texel(0, 0);
    assert_eq!((corner.x, corner.y, corner.z), (32768, 45875, 65536));
}
