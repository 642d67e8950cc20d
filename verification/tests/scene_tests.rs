use raytracer::error::TracerError;
use raytracer::fixed::FX_ONE;
use raytracer::scene::{Material, Scene, Sphere, MAT_DIELECTRIC, MAT_LAMBERTIAN, MAT_METAL,
    MAT_NORMAL_MAP};
use raytracer::vec3::Vec3;

fn gray(level: i64) -> Vec3 {
    Vec3::new(level, level, level)
}

#[test]
fn material_constructors_zero_unused_fields() {
    let l = Material::new_lambertian(gray(100));
    assert_eq!((l.mat_type, l.fuzz, l.refract_idx), (MAT_LAMBERTIAN, 0, 0));
    let m = Material::new_metal(gray(100), 7);
    assert_eq!((m.mat_type, m.fuzz, m.refract_idx), (MAT_METAL, 7, 0));
    let d = Material::new_dielectric(98304);
    assert_eq!((d.mat_type, d.fuzz, d.refract_idx), (MAT_DIELECTRIC, 0, 98304));
    assert_eq!((d.albedo.x, d.albedo.y, d.albedo.z), (0, 0, 0));
    let n = Material::new_normal_map();
    assert_eq!(n.mat_type, MAT_NORMAL_MAP);
}

#[test]
fn identical_materials_share_one_slot() {
    // two spheres with bit-identical material parameters collapse to one
    // material slot, whose id is the first insertion's index
    let mut scene = Scene::empty();
    let mat = Material::new_lambertian(gray(6554));
    scene.new_sphere(Sphere::new(Vec3::zero(), FX_ONE / 2), mat);
    scene.new_sphere(Sphere::new(Vec3::new(0, -FX_ONE, 0), FX_ONE), mat);
    assert_eq!(scene.mats.len(), 1);
    assert_eq!(scene.spheres.len(), 2);
    assert_eq!(scene.spheres[0].mat_id, 0);
    assert_eq!(scene.spheres[1].mat_id, 0);
}

#[test]
fn distinct_materials_get_fresh_ids_in_insertion_order() {
    let mut scene = Scene::empty();
    let a = Material::new_lambertian(gray(6554));
    let b = Material::new_lambertian(gray(6555));
    let c = Material::new_metal(gray(6554), 0);
    scene.new_sphere(Sphere::new(Vec3::zero(), FX_ONE), a);
    scene.new_sphere(Sphere::new(Vec3::zero(), FX_ONE), b);
    scene.new_sphere(Sphere::new(Vec3::zero(), FX_ONE), c);
    scene.new_sphere(Sphere::new(Vec3::zero(), FX_ONE), a);
    assert_eq!(scene.mats.len(), 3);
    let ids: Vec<u32> = scene.spheres.iter().map(|s| s.mat_id).collect();
    assert_eq!(ids, vec![0, 1, 2, 0]);
}

#[test]
fn near_identical_materials_do_not_collapse() {
    // one bit of difference in any parameter keeps two slots
    let mut scene = Scene::empty();
    scene.new_sphere(Sphere::new(Vec3::zero(), FX_ONE), Material::new_metal(gray(100), 1));
    scene.new_sphere(Sphere::new(Vec3::zero(), FX_ONE), Material::new_metal(gray(100), 2));
    assert_eq!(scene.mats.len(), 2);
}

#[test]
fn encode_single_sphere_buffer_bytes() {
    let mut scene = Scene::empty();
    scene.new_sphere(
        Sphere::new(Vec3::zero(), FX_ONE),
        Material::new_lambertian(Vec3::new(FX_ONE, 0, -1)),
    );
    let (spheres_buf, mats_buf) = scene.into_gpu_buffers().unwrap();
    // sphere buffer: count 1, then mat_id 0, center (0,0,0), radius 65536
    let mut expect_s: Vec<u8> = vec![1, 0, 0, 0];
    expect_s.extend([0, 0, 0, 0]);
    expect_s.extend([0u8; 24]);
    expect_s.extend([0, 0, 1, 0, 0, 0, 0, 0]);
    assert_eq!(spheres_buf, expect_s);
    // material buffer: count 1, tag 0, albedo (65536, 0, -1), fuzz 0,
    // refract 0; -1 is two's complement
    let mut expect_m: Vec<u8> = vec![1, 0, 0, 0];
    expect_m.extend([0, 0, 0, 0]);
    expect_m.extend([0, 0, 1, 0, 0, 0, 0, 0]);
    expect_m.extend([0u8; 8]);
    expect_m.extend([0xFF; 8]);
    expect_m.extend([0u8; 8]);
    expect_m.extend([0u8; 8]);
    assert_eq!(mats_buf, expect_m);
}

#[test]
fn encode_preserves_insertion_order() {
    let mut scene = Scene::empty();
    scene.new_sphere(Sphere::new(Vec3::new(1, 0, 0), 2), Material::new_lambertian(gray(3)));
    scene.new_sphere(Sphere::new(Vec3::new(4, 0, 0), 5), Material::new_lambertian(gray(6)));
    let (spheres_buf, _) = scene.into_gpu_buffers().unwrap();
    assert_eq!(spheres_buf.len(), 4 + 2 * (4 + 24 + 8));
    assert_eq!(&spheres_buf[0..4], &[2, 0, 0, 0]);
    // first record holds center.x == 1, second center.x == 4
    assert_eq!(spheres_buf[8], 1);
    assert_eq!(spheres_buf[4 + 36 + 4], 4);
}

#[test]
fn encoding_error_is_the_only_error() {
    // within reachable sizes encoding always succeeds; the error variant
    // exists for counts beyond the 32-bit length field
    let scene = Scene::empty();
    let r = scene.into_gpu_buffers();
    assert!(r.is_ok());
    assert_ne!(TracerError::Encoding, TracerError::Configuration);
}
