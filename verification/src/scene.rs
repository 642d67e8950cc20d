//! The scene: spheres with material assignments, material deduplication,
//! and serialization into flat, explicitly-length-prefixed buffers for the
//! compute stage.
//!
//! Insertion order is preserved for both lists: it fixes the ray-sphere
//! tie-break (the first sphere inserted wins on an exact distance tie) and
//! keeps material ids stable.

use vstd::prelude::*;
use crate::error::TracerError;
use crate::vec3::Vec3;

verus! {

/// Material tag of a diffuse (Lambertian) surface.
pub const MAT_LAMBERTIAN: u32 = 0;

/// Material tag of a fuzzed mirror.
pub const MAT_METAL: u32 = 1;

/// Material tag of a dielectric (refracting) surface.
pub const MAT_DIELECTRIC: u32 = 2;

/// Material tag of the normal-visualizing debug surface.
pub const MAT_NORMAL_MAP: u32 = 3;

/// A surface material, encoded as one fixed record: a type tag plus the
/// union of all variant parameters, unused fields zeroed. Two materials
/// are the same slot exactly when every field is identical.
#[derive(Clone, Copy, PartialEq, Eq, Structural, Debug)]
pub struct Material {
    pub mat_type: u32,
    pub albedo: Vec3,
    pub fuzz: i64,
    pub refract_idx: i64,
}

/// A sphere: center and radius in Q16.16 units. A nonpositive radius is
/// legal and is never intersected.
#[derive(Clone, Copy, PartialEq, Eq, Structural, Debug)]
pub struct Sphere {
    pub center: Vec3,
    pub radius: i64,
}

/// A sphere together with the id of its deduplicated material.
#[derive(Clone, Copy, PartialEq, Eq, Structural, Debug)]
pub struct SceneSphere {
    pub mat_id: u32,
    pub sphere: Sphere,
}

/// The scene: spheres in insertion order, and the parallel material list
/// addressed by `mat_id`.
#[derive(Debug)]
pub struct Scene {
    pub spheres: Vec<SceneSphere>,
    pub mats: Vec<Material>,
}

impl Default for Scene {
    /// The empty scene.
    fn default() -> (r: Scene)
        ensures
            r.spheres@ =~= Seq::<SceneSphere>::empty(),
            r.mats@ =~= Seq::<Material>::empty(),
            r.wf(),
    {
        Scene::empty()
    }
}

/// Some slot of `mats` holds exactly `m`.
pub open spec fn has_mat(mats: Seq<Material>, m: Material) -> bool {
    exists|j: int| 0 <= j < mats.len() && mats[j] == m
}

/// The slot holding `m` (unique whenever the material list is deduplicated).
pub open spec fn mat_index(mats: Seq<Material>, m: Material) -> int {
    choose|j: int| 0 <= j < mats.len() && mats[j] == m
}

impl Material {
    /// The tag is one of the four closed variants.
    pub open spec fn wf(self) -> bool {
        self.mat_type == MAT_LAMBERTIAN || self.mat_type == MAT_METAL
            || self.mat_type == MAT_DIELECTRIC || self.mat_type == MAT_NORMAL_MAP
    }

    /// A diffuse surface tinted by `albedo`.
    pub fn new_lambertian(albedo: Vec3) -> (r: Material)
        ensures
            r == (Material { mat_type: MAT_LAMBERTIAN, albedo, fuzz: 0i64, refract_idx: 0i64 }),
            r.wf(),
    {
        Material { mat_type: MAT_LAMBERTIAN, albedo, fuzz: 0, refract_idx: 0 }
    }

    /// The normal-visualizing debug surface.
    pub fn new_normal_map() -> (r: Material)
        ensures
            r == (Material {
                mat_type: MAT_NORMAL_MAP,
                albedo: Vec3 { x: 0i64, y: 0i64, z: 0i64 },
                fuzz: 0i64,
                refract_idx: 0i64,
            }),
            r.wf(),
    {
        Material { mat_type: MAT_NORMAL_MAP, albedo: Vec3::zero(), fuzz: 0, refract_idx: 0 }
    }

    /// A mirror tinted by `albedo` whose reflections are perturbed by `fuzz`.
    pub fn new_metal(albedo: Vec3, fuzz: i64) -> (r: Material)
        ensures
            r == (Material { mat_type: MAT_METAL, albedo, fuzz, refract_idx: 0i64 }),
            r.wf(),
    {
        Material { mat_type: MAT_METAL, albedo, fuzz, refract_idx: 0 }
    }

    /// A refracting surface with the given index of refraction.
    pub fn new_dielectric(refract_idx: i64) -> (r: Material)
        ensures
            r == (Material {
                mat_type: MAT_DIELECTRIC,
                albedo: Vec3 { x: 0i64, y: 0i64, z: 0i64 },
                fuzz: 0i64,
                refract_idx,
            }),
            r.wf(),
    {
        Material { mat_type: MAT_DIELECTRIC, albedo: Vec3::zero(), fuzz: 0, refract_idx }
    }
}

impl Sphere {
    /// A sphere from its center and radius.
    pub fn new(center: Vec3, radius: i64) -> (r: Sphere)
        ensures
            r == (Sphere { center, radius }),
    {
        Sphere { center, radius }
    }
}

impl Scene {
    /// Well-formed: every sphere's material id addresses the material list,
    /// the material list is deduplicated (no slot repeats another), every
    /// tag is one of the closed variants, and ids fit their 32-bit field.
    pub open spec fn wf(self) -> bool {
        &&& forall|i: int|
            0 <= i < self.spheres@.len() ==> (#[trigger] self.spheres@[i]).mat_id < self.mats@.len()
        &&& forall|i: int, j: int|
            0 <= i < j < self.mats@.len() ==> #[trigger] self.mats@[i] != #[trigger] self.mats@[j]
        &&& forall|i: int| 0 <= i < self.mats@.len() ==> (#[trigger] self.mats@[i]).wf()
        &&& self.mats@.len() <= u32::MAX
    }

    /// An empty scene.
    pub fn empty() -> (r: Scene)
        ensures
            r.spheres@ =~= Seq::<SceneSphere>::empty(),
            r.mats@ =~= Seq::<Material>::empty(),
            r.wf(),
    {
        Scene { spheres: Vec::new(), mats: Vec::new() }
    }

    /// Append a sphere, deduplicating its material by value: a material
    /// bit-identical to an earlier one reuses that first slot's id, and a
    /// new material is appended and gets the next id.
    pub fn new_sphere(&mut self, sphere: Sphere, material: Material)
        requires
            old(self).wf(),
            material.wf(),
            old(self).mats@.len() < u32::MAX,
        ensures
            final(self).wf(),
            final(self).mats@ == if has_mat(old(self).mats@, material) {
                old(self).mats@
            } else {
                old(self).mats@.push(material)
            },
            has_mat(final(self).mats@, material),
            final(self).spheres@ == old(self).spheres@.push(
                SceneSphere {
                    mat_id: mat_index(final(self).mats@, material) as u32,
                    sphere,
                },
            ),
    {
        let mut found: bool = false;
        let mut mat_id: u32 = 0;
        let mut i: usize = 0;
        while i < self.mats.len() && !found
            invariant
                self == old(self),
                self.mats@.len() < u32::MAX,
                i <= self.mats@.len(),
                !found ==> forall|j: int| 0 <= j < i ==> self.mats@[j] != material,
                found ==> mat_id < self.mats@.len()
                    && self.mats@[mat_id as int] == material,
            decreases self.mats.len() - i,
        {
            if self.mats[i] == material {
                found = true;
                mat_id = i as u32;
            }
            i += 1;
        }
        if !found {
            proof {
                assert(!has_mat(self.mats@, material));
            }
            mat_id = self.mats.len() as u32;
            self.mats.push(material);
        }
        proof {
            assert(self.mats@[mat_id as int] == material);
            assert(has_mat(self.mats@, material));
            // the deduplication invariant makes the witnessed slot unique
            let j = mat_index(self.mats@, material);
            assert(self.mats@[j] == material);
            assert(j == mat_id as int);
        }
        self.spheres.push(SceneSphere { mat_id, sphere });
    }

    /// Serialize the scene into the two flat buffers the compute stage
    /// consumes: one for the spheres, one for the materials, each prefixed
    /// with its explicit 32-bit element count and laid out in insertion
    /// order. A list longer than the length field can state is an encoding
    /// error, surfaced to the caller with the scene left untouched.
    #[verifier::rlimit(60)]
    pub fn into_gpu_buffers(self) -> (r: Result<(Vec<u8>, Vec<u8>), TracerError>)
        ensures
            match r {
                Ok(bufs) => {
                    &&& self.spheres@.len() <= u32::MAX
                    &&& self.mats@.len() <= u32::MAX
                    &&& bufs.0@ == spheres_buf_s(self.spheres@)
                    &&& bufs.1@ == mats_buf_s(self.mats@)
                },
                Err(e) => {
                    &&& e == TracerError::Encoding
                    &&& self.spheres@.len() > u32::MAX || self.mats@.len() > u32::MAX
                },
            },
    {
        if self.spheres.len() > u32::MAX as usize || self.mats.len() > u32::MAX as usize {
            return Err(TracerError::Encoding);
        }
        let mut sb: Vec<u8> = Vec::new();
        push_u32_le(&mut sb, self.spheres.len() as u32);
        let mut i: usize = 0;
        while i < self.spheres.len()
            invariant
                i <= self.spheres@.len(),
                sb@ == le32_s(self.spheres@.len() as int) + spheres_payload_s(
                    self.spheres@.take(i as int),
                ),
            decreases self.spheres@.len() - i,
        {
            let s = self.spheres[i];
            push_u32_le(&mut sb, s.mat_id);
            push_i64_le(&mut sb, s.sphere.center.x);
            push_i64_le(&mut sb, s.sphere.center.y);
            push_i64_le(&mut sb, s.sphere.center.z);
            push_i64_le(&mut sb, s.sphere.radius);
            i += 1;
            proof {
                assert(self.spheres@.take(i as int).drop_last() =~= self.spheres@.take(
                    i as int - 1,
                ));
                assert(sb@ =~= le32_s(self.spheres@.len() as int) + spheres_payload_s(
                    self.spheres@.take(i as int),
                ));
            }
        }
        proof {
            assert(self.spheres@.take(self.spheres@.len() as int) =~= self.spheres@);
        }
        let mut mb: Vec<u8> = Vec::new();
        push_u32_le(&mut mb, self.mats.len() as u32);
        let mut k: usize = 0;
        while k < self.mats.len()
            invariant
                k <= self.mats@.len(),
                mb@ == le32_s(self.mats@.len() as int) + mats_payload_s(self.mats@.take(k as int)),
            decreases self.mats@.len() - k,
        {
            let m = self.mats[k];
            push_u32_le(&mut mb, m.mat_type);
            push_i64_le(&mut mb, m.albedo.x);
            push_i64_le(&mut mb, m.albedo.y);
            push_i64_le(&mut mb, m.albedo.z);
            push_i64_le(&mut mb, m.fuzz);
            push_i64_le(&mut mb, m.refract_idx);
            k += 1;
            proof {
                assert(self.mats@.take(k as int).drop_last() =~= self.mats@.take(k as int - 1));
                assert(mb@ =~= le32_s(self.mats@.len() as int) + mats_payload_s(
                    self.mats@.take(k as int),
                ));
            }
        }
        proof {
            assert(self.mats@.take(self.mats@.len() as int) =~= self.mats@);
        }
        Ok((sb, mb))
    }
}

/// The four little-endian bytes of a 32-bit value.
pub open spec fn le32_s(x: int) -> Seq<u8> {
    seq![
        (x % 256) as u8,
        ((x / 256) % 256) as u8,
        ((x / 65536) % 256) as u8,
        ((x / 16777216) % 256) as u8,
    ]
}

/// The eight little-endian bytes of a 64-bit value, two's complement for
/// negative inputs: the low 32-bit half, then the high one.
pub open spec fn le64_s(x: int) -> Seq<u8> {
    let u = if x < 0 {
        x + 0x10000000000000000
    } else {
        x
    };
    le32_s(u % 0x100000000) + le32_s(u / 0x100000000)
}

/// The serialized record of one sphere entry: material id, center, radius.
pub open spec fn sphere_bytes_s(s: SceneSphere) -> Seq<u8> {
    le32_s(s.mat_id as int) + le64_s(s.sphere.center.x as int) + le64_s(s.sphere.center.y as int)
        + le64_s(s.sphere.center.z as int) + le64_s(s.sphere.radius as int)
}

/// The serialized record of one material: tag, albedo, fuzz, refraction index.
pub open spec fn mat_bytes_s(m: Material) -> Seq<u8> {
    le32_s(m.mat_type as int) + le64_s(m.albedo.x as int) + le64_s(m.albedo.y as int) + le64_s(
        m.albedo.z as int,
    ) + le64_s(m.fuzz as int) + le64_s(m.refract_idx as int)
}

/// The concatenated sphere records, in insertion order.
pub open spec fn spheres_payload_s(ss: Seq<SceneSphere>) -> Seq<u8>
    decreases ss.len(),
{
    if ss.len() == 0 {
        Seq::empty()
    } else {
        spheres_payload_s(ss.drop_last()) + sphere_bytes_s(ss.last())
    }
}

/// The concatenated material records, in insertion order.
pub open spec fn mats_payload_s(ms: Seq<Material>) -> Seq<u8>
    decreases ms.len(),
{
    if ms.len() == 0 {
        Seq::empty()
    } else {
        mats_payload_s(ms.drop_last()) + mat_bytes_s(ms.last())
    }
}

/// The whole sphere buffer: explicit count, then the records.
pub open spec fn spheres_buf_s(ss: Seq<SceneSphere>) -> Seq<u8> {
    le32_s(ss.len() as int) + spheres_payload_s(ss)
}

/// The whole material buffer: explicit count, then the records.
pub open spec fn mats_buf_s(ms: Seq<Material>) -> Seq<u8> {
    le32_s(ms.len() as int) + mats_payload_s(ms)
}

#[verifier::rlimit(60)]
fn push_u32_le(out: &mut Vec<u8>, x: u32)
    ensures
        final(out)@ == old(out)@ + le32_s(x as int),
{
    out.push((x % 256) as u8);
    out.push(((x / 256) % 256) as u8);
    out.push(((x / 65536) % 256) as u8);
    out.push(((x / 16777216) % 256) as u8);
    proof {
        assert(final(out)@ =~= old(out)@ + le32_s(x as int));
    }
}

fn push_i64_le(out: &mut Vec<u8>, x: i64)
    ensures
        final(out)@ == old(out)@ + le64_s(x as int),
{
    let u: u64 = if x >= 0 {
        x as u64
    } else {
        ((x as i128) + 0x10000000000000000) as u64
    };
    let lo: u32 = (u % 0x100000000) as u32;
    let hi: u32 = (u / 0x100000000) as u32;
    push_u32_le(out, lo);
    push_u32_le(out, hi);
    proof {
        assert(final(out)@ =~= old(out)@ + le64_s(x as int));
    }
}

} // verus!
