//! The multi-bounce ray state machine and its dispatcher.
//!
//! One dispatch advances every ray of the current source buffer by one
//! scene interaction, writing the destination buffer and accumulating
//! radiance where paths terminate; the source/destination roles swap after
//! each dispatch. A ray whose path has terminated is carried through later
//! dispatches unmodified. Radiance reaches the image only when a path
//! terminates: on a miss it is the background tinted by the path's
//! accumulated attenuation, on an absorbing surface it is zero, and the
//! debug surface shows the surface normal directly.

use vstd::prelude::*;
use crate::camera::{ray_dir_s, Camera};
use crate::fixed::{
    fx_add, fx_add_s, fx_div, fx_div_s, fx_mul, fx_mul_s, fx_neg, fx_neg_s, fx_sqrt, fx_sqrt_s,
    fx_sub, fx_sub_s, FX_ONE,
};
use crate::image::RadianceImage;
use crate::ray::Ray;
use crate::rng::{lcg_next, lcg_next_s, rand01, rand01_s, rand_sym, rand_sym_s, seed_mix,
    seed_mix_s};
use crate::scene::{Material, Scene, SceneSphere, MAT_DIELECTRIC, MAT_LAMBERTIAN, MAT_METAL};
use crate::vec3::{
    v3_add_s, v3_cmul_s, v3_div_s, v3_dot_s, v3_in_band, v3_neg_s, v3_normalize_s, v3_scale_s,
    v3_sub_s, v3_to_vec3_s, v3_zero_s, V3, Vec3,
};

verus! {

/// Smallest accepted hit distance, in raw Q16.16 units: hits closer than
/// this are treated as self-intersections and skipped.
pub const T_MIN: i64 = 66;

/// The uniform background radiance, as a spec value.
pub open spec fn background_s() -> V3 {
    V3 { x: 32768, y: 45875, z: 65536 }
}

/// The uniform background radiance (a pale sky color).
pub fn background() -> (r: Vec3)
    ensures
        r@ == background_s(),
{
    Vec3 { x: 32768, y: 45875, z: 65536 }
}

/// The distance at which a ray from `o` along `d` first hits the sphere,
/// if it does: the standard half-discriminant quadratic, keeping the
/// nearer root when it is past [`T_MIN`], else the farther one. A sphere
/// of nonpositive radius is never hit.
#[verifier::opaque]
pub open spec fn hit_sphere_s(center: V3, radius: int, o: V3, d: V3) -> Option<int> {
    if radius <= 0 {
        None
    } else {
        let oc = v3_sub_s(o, center);
        let a = v3_dot_s(d, d);
        let half_b = v3_dot_s(oc, d);
        let c = fx_sub_s(v3_dot_s(oc, oc), fx_mul_s(radius, radius));
        let disc = fx_sub_s(fx_mul_s(half_b, half_b), fx_mul_s(a, c));
        if disc < 0 || a == 0 {
            None
        } else {
            let sq = fx_sqrt_s(disc);
            let t1 = fx_div_s(fx_sub_s(fx_neg_s(half_b), sq), a);
            if t1 >= T_MIN as int {
                Some(t1)
            } else {
                let t2 = fx_div_s(fx_add_s(fx_neg_s(half_b), sq), a);
                if t2 >= T_MIN as int {
                    Some(t2)
                } else {
                    None
                }
            }
        }
    }
}

/// The closest hit over the whole sphere list, as an index and a distance.
/// On an exact distance tie the sphere inserted first wins.
pub open spec fn closest_hit_s(spheres: Seq<SceneSphere>, o: V3, d: V3) -> Option<(int, int)>
    decreases spheres.len(),
{
    if spheres.len() == 0 {
        None
    } else {
        let i = spheres.len() - 1;
        let prev = closest_hit_s(spheres.drop_last(), o, d);
        match hit_sphere_s(spheres[i].sphere.center@, spheres[i].sphere.radius as int, o, d) {
            None => prev,
            Some(t) => match prev {
                None => Some((i, t)),
                Some(pt) => if pt.1 <= t {
                    prev
                } else {
                    Some((i, t))
                },
            },
        }
    }
}

/// A deterministic unit-length direction derived from a seed: three
/// symmetric draws, normalized, with a fixed fallback when the draw is too
/// short to normalize.
#[verifier::opaque]
pub open spec fn rand_unit_s(seed: u64) -> V3 {
    let s1 = lcg_next_s(seed);
    let s2 = lcg_next_s(s1);
    let s3 = lcg_next_s(s2);
    let v = V3 { x: rand_sym_s(s1), y: rand_sym_s(s2), z: rand_sym_s(s3) };
    let n = v3_normalize_s(v);
    if n == v3_zero_s() {
        V3 { x: FX_ONE as int, y: 0, z: 0 }
    } else {
        n
    }
}

/// Mirror reflection of `d` about the normal `n`.
pub open spec fn reflect_s(d: V3, n: V3) -> V3 {
    v3_sub_s(d, v3_scale_s(n, fx_mul_s(131072, v3_dot_s(d, n))))
}

/// Snell refraction of the unit direction `uv` at a surface with normal
/// `n` and refraction ratio `etai_over_etat`; total internal reflection is
/// excluded by the caller.
pub open spec fn refract_s(uv: V3, n: V3, etai_over_etat: int) -> V3 {
    let mcos = v3_dot_s(v3_neg_s(uv), n);
    let cos_theta = if mcos > FX_ONE as int {
        FX_ONE as int
    } else {
        mcos
    };
    let r_perp = v3_scale_s(v3_add_s(uv, v3_scale_s(n, cos_theta)), etai_over_etat);
    let k = fx_sub_s(FX_ONE as int, v3_dot_s(r_perp, r_perp));
    let par_len = fx_sqrt_s(k);
    v3_add_s(r_perp, v3_scale_s(n, fx_neg_s(par_len)))
}

/// Schlick's approximation of the Fresnel reflectance.
pub open spec fn schlick_s(cos_theta: int, ref_idx: int) -> int {
    let r0a = fx_div_s(fx_sub_s(FX_ONE as int, ref_idx), fx_add_s(FX_ONE as int, ref_idx));
    let r0 = fx_mul_s(r0a, r0a);
    let omc = fx_sub_s(FX_ONE as int, cos_theta);
    let p2 = fx_mul_s(omc, omc);
    let p4 = fx_mul_s(p2, p2);
    let p5 = fx_mul_s(p4, omc);
    fx_add_s(r0, fx_mul_s(fx_sub_s(FX_ONE as int, r0), p5))
}

/// What one surface interaction does to a path.
pub struct ScatterView {
    /// The scattered direction (meaningful when the path continues).
    pub dir: V3,
    /// The attenuation multiplied into the path throughput.
    pub attenuation: V3,
    /// The path terminates here.
    pub terminate: bool,
    /// Radiance emitted at termination (zero for an absorbing surface).
    pub emit: V3,
}

/// The exact surface interaction: Lambertian surfaces scatter about the
/// oriented normal, metals mirror-reflect with a fuzz perturbation and
/// absorb grazing results, dielectrics choose reflection or refraction by
/// comparing the Schlick reflectance with a seeded draw, and the debug
/// surface terminates the path showing the normal.
#[verifier::opaque]
pub open spec fn scatter_s(m: Material, outward: V3, d: V3, seed: u64) -> ScatterView {
    let unit_d = v3_normalize_s(d);
    let front = v3_dot_s(unit_d, outward) < 0;
    let n = if front {
        outward
    } else {
        v3_neg_s(outward)
    };
    if m.mat_type == MAT_LAMBERTIAN {
        let sd = v3_add_s(n, rand_unit_s(seed));
        let dir = if sd == v3_zero_s() {
            n
        } else {
            sd
        };
        ScatterView { dir, attenuation: m.albedo@, terminate: false, emit: v3_zero_s() }
    } else if m.mat_type == MAT_METAL {
        let refl = reflect_s(unit_d, n);
        let sd = v3_add_s(refl, v3_scale_s(rand_unit_s(seed), m.fuzz as int));
        if v3_dot_s(sd, n) <= 0 {
            ScatterView { dir: sd, attenuation: m.albedo@, terminate: true, emit: v3_zero_s() }
        } else {
            ScatterView { dir: sd, attenuation: m.albedo@, terminate: false, emit: v3_zero_s() }
        }
    } else if m.mat_type == MAT_DIELECTRIC {
        let ratio = if front {
            fx_div_s(FX_ONE as int, m.refract_idx as int)
        } else {
            m.refract_idx as int
        };
        let mcos = v3_dot_s(v3_neg_s(unit_d), n);
        let cos_theta = if mcos > FX_ONE as int {
            FX_ONE as int
        } else {
            mcos
        };
        let sin2 = fx_sub_s(FX_ONE as int, fx_mul_s(cos_theta, cos_theta));
        let cannot_refract = fx_mul_s(fx_mul_s(ratio, ratio), sin2) > FX_ONE as int;
        let reflectance = schlick_s(cos_theta, m.refract_idx as int);
        let dir = if cannot_refract || reflectance > rand01_s(lcg_next_s(seed)) {
            reflect_s(unit_d, n)
        } else {
            refract_s(unit_d, n, ratio)
        };
        ScatterView {
            dir,
            attenuation: V3 { x: FX_ONE as int, y: FX_ONE as int, z: FX_ONE as int },
            terminate: false,
            emit: v3_zero_s(),
        }
    } else {
        // the normal-visualizing debug surface
        let emit = v3_scale_s(
            v3_add_s(n, V3 { x: FX_ONE as int, y: FX_ONE as int, z: FX_ONE as int }),
            32768,
        );
        ScatterView { dir: d, attenuation: m.albedo@, terminate: true, emit }
    }
}

fn hit_sphere(center: &Vec3, radius: i64, o: &Vec3, d: &Vec3) -> (r: Option<i64>)
    ensures
        match r {
            None => hit_sphere_s(center@, radius as int, o@, d@) is None,
            Some(t) => hit_sphere_s(center@, radius as int, o@, d@) == Some(t as int),
        },
{
    proof {
        reveal(hit_sphere_s);
    }
    if radius <= 0 {
        return None;
    }
    let oc = o.sub(center);
    let a = d.dot(d);
    let half_b = oc.dot(d);
    let c = fx_sub(oc.dot(&oc), fx_mul(radius, radius));
    let disc = fx_sub(fx_mul(half_b, half_b), fx_mul(a, c));
    if disc < 0 || a == 0 {
        return None;
    }
    let sq = fx_sqrt(disc);
    let t1 = fx_div(fx_sub(fx_neg(half_b), sq), a);
    if t1 >= T_MIN {
        return Some(t1);
    }
    let t2 = fx_div(fx_add(fx_neg(half_b), sq), a);
    if t2 >= T_MIN {
        return Some(t2);
    }
    None
}

fn closest_hit(spheres: &Vec<SceneSphere>, o: &Vec3, d: &Vec3) -> (r: Option<(usize, i64)>)
    ensures
        match r {
            None => closest_hit_s(spheres@, o@, d@) is None,
            Some(h) => {
                &&& closest_hit_s(spheres@, o@, d@) == Some((h.0 as int, h.1 as int))
                &&& h.0 < spheres@.len()
            },
        },
{
    let mut best: Option<(usize, i64)> = None;
    let mut i: usize = 0;
    while i < spheres.len()
        invariant
            i <= spheres@.len(),
            match best {
                None => closest_hit_s(spheres@.take(i as int), o@, d@) is None,
                Some(h) => {
                    &&& closest_hit_s(spheres@.take(i as int), o@, d@) == Some(
                        (h.0 as int, h.1 as int),
                    )
                    &&& h.0 < i
                },
            },
        decreases spheres@.len() - i,
    {
        let s = spheres[i];
        let hit = hit_sphere(&s.sphere.center, s.sphere.radius, o, d);
        proof {
            assert(spheres@.take(i as int + 1).drop_last() =~= spheres@.take(i as int));
            assert(spheres@.take(i as int + 1).last() == spheres@[i as int]);
        }
        match hit {
            None => {},
            Some(t) => {
                match best {
                    None => {
                        best = Some((i, t));
                    },
                    Some(b) => {
                        if t < b.1 {
                            best = Some((i, t));
                        }
                    },
                }
            },
        }
        i += 1;
    }
    proof {
        assert(spheres@.take(spheres@.len() as int) =~= spheres@);
    }
    best
}

fn rand_unit(seed: u64) -> (r: Vec3)
    ensures
        r@ == rand_unit_s(seed),
{
    proof {
        reveal(rand_unit_s);
    }
    let s1 = lcg_next(seed);
    let s2 = lcg_next(s1);
    let s3 = lcg_next(s2);
    let v = Vec3::new(rand_sym(s1), rand_sym(s2), rand_sym(s3));
    let n = v.normalize();
    if n.x == 0 && n.y == 0 && n.z == 0 {
        Vec3::new(FX_ONE, 0, 0)
    } else {
        n
    }
}

fn reflect(d: &Vec3, n: &Vec3) -> (r: Vec3)
    ensures
        r@ == reflect_s(d@, n@),
{
    d.sub(&n.scale(fx_mul(131072, d.dot(n))))
}

fn refract(uv: &Vec3, n: &Vec3, etai_over_etat: i64) -> (r: Vec3)
    ensures
        r@ == refract_s(uv@, n@, etai_over_etat as int),
{
    let mcos = uv.neg().dot(n);
    let cos_theta = if mcos > FX_ONE {
        FX_ONE
    } else {
        mcos
    };
    let r_perp = uv.add(&n.scale(cos_theta)).scale(etai_over_etat);
    let k = fx_sub(FX_ONE, r_perp.dot(&r_perp));
    let par_len = fx_sqrt(k);
    r_perp.add(&n.scale(fx_neg(par_len)))
}

fn schlick(cos_theta: i64, ref_idx: i64) -> (r: i64)
    ensures
        r as int == schlick_s(cos_theta as int, ref_idx as int),
{
    let r0a = fx_div(fx_sub(FX_ONE, ref_idx), fx_add(FX_ONE, ref_idx));
    let r0 = fx_mul(r0a, r0a);
    let omc = fx_sub(FX_ONE, cos_theta);
    let p2 = fx_mul(omc, omc);
    let p4 = fx_mul(p2, p2);
    let p5 = fx_mul(p4, omc);
    fx_add(r0, fx_mul(fx_sub(FX_ONE, r0), p5))
}

fn scatter(m: &Material, outward: &Vec3, d: &Vec3, seed: u64) -> (out: (Vec3, Vec3, bool, Vec3))
    ensures
        ({
            let sc = scatter_s(*m, outward@, d@, seed);
            &&& out.0@ == sc.dir
            &&& out.1@ == sc.attenuation
            &&& out.2 == sc.terminate
            &&& out.3@ == sc.emit
        }),
{
    proof {
        reveal(scatter_s);
    }
    let unit_d = d.normalize();
    let front = unit_d.dot(outward) < 0;
    let n = if front {
        *outward
    } else {
        outward.neg()
    };
    if m.mat_type == MAT_LAMBERTIAN {
        let sd = n.add(&rand_unit(seed));
        let dir = if sd.x == 0 && sd.y == 0 && sd.z == 0 {
            n
        } else {
            sd
        };
        (dir, m.albedo, false, Vec3::zero())
    } else if m.mat_type == MAT_METAL {
        let refl = reflect(&unit_d, &n);
        let sd = refl.add(&rand_unit(seed).scale(m.fuzz));
        if sd.dot(&n) <= 0 {
            (sd, m.albedo, true, Vec3::zero())
        } else {
            (sd, m.albedo, false, Vec3::zero())
        }
    } else if m.mat_type == MAT_DIELECTRIC {
        let ratio = if front {
            fx_div(FX_ONE, m.refract_idx)
        } else {
            m.refract_idx
        };
        let mcos = unit_d.neg().dot(&n);
        let cos_theta = if mcos > FX_ONE {
            FX_ONE
        } else {
            mcos
        };
        let sin2 = fx_sub(FX_ONE, fx_mul(cos_theta, cos_theta));
        let cannot_refract = fx_mul(fx_mul(ratio, ratio), sin2) > FX_ONE;
        let reflectance = schlick(cos_theta, m.refract_idx);
        let dir = if cannot_refract || reflectance > rand01(lcg_next(seed)) {
            reflect(&unit_d, &n)
        } else {
            refract(&unit_d, &n, ratio)
        };
        (dir, Vec3::new(FX_ONE, FX_ONE, FX_ONE), false, Vec3::zero())
    } else {
        let emit = n.add(&Vec3::new(FX_ONE, FX_ONE, FX_ONE)).scale(32768);
        (*d, m.albedo, true, emit)
    }
}

/// What one dispatch does to one ray slot.
pub struct StepView {
    pub origin: V3,
    pub direction: V3,
    pub finished: bool,
    /// The path throughput after this interaction.
    pub thr: V3,
    /// The radiance contribution accumulated into this slot's texel.
    pub deposit: V3,
}

/// One ray's advance under one dispatch. A ray already finished is an
/// exact no-op with zero contribution; a miss terminates the path and
/// contributes the background tinted by the throughput; a hit scatters at
/// the struck sphere's surface, either continuing the path with attenuated
/// throughput or terminating it with the surface's emitted radiance.
#[verifier::opaque]
pub open spec fn step_ray_s(
    r: Ray,
    thr: V3,
    spheres: Seq<SceneSphere>,
    mats: Seq<Material>,
    seed: u64,
    idx: u64,
) -> StepView {
    if r.is_finished() {
        StepView {
            origin: r.origin@,
            direction: r.direction@,
            finished: true,
            thr,
            deposit: v3_zero_s(),
        }
    } else {
        match closest_hit_s(spheres, r.origin@, r.direction@) {
            None => StepView {
                origin: r.origin@,
                direction: r.direction@,
                finished: true,
                thr,
                deposit: v3_cmul_s(thr, background_s()),
            },
            Some(h) => {
                let sp = spheres[h.0];
                let m = mats[sp.mat_id as int];
                let hit_p = v3_add_s(r.origin@, v3_scale_s(r.direction@, h.1));
                let outward = v3_div_s(
                    v3_sub_s(hit_p, sp.sphere.center@),
                    sp.sphere.radius as int,
                );
                let sc = scatter_s(m, outward, r.direction@, seed_mix_s(seed, idx));
                if sc.terminate {
                    StepView {
                        origin: r.origin@,
                        direction: r.direction@,
                        finished: true,
                        thr,
                        deposit: v3_cmul_s(thr, sc.emit),
                    }
                } else {
                    StepView {
                        origin: hit_p,
                        direction: sc.dir,
                        finished: false,
                        thr: v3_cmul_s(thr, sc.attenuation),
                        deposit: v3_zero_s(),
                    }
                }
            },
        }
    }
}

/// The destination-slot ray a step writes.
pub open spec fn ray_of_step_s(sv: StepView) -> Ray {
    Ray {
        origin: v3_to_vec3_s(sv.origin),
        direction: v3_to_vec3_s(sv.direction),
        finished: if sv.finished {
            1u32
        } else {
            0u32
        },
    }
}

fn step_ray(
    r: &Ray,
    thr: &Vec3,
    spheres: &Vec<SceneSphere>,
    mats: &Vec<Material>,
    seed: u64,
    idx: u64,
) -> (out: (Ray, Vec3, Vec3))
    requires
        forall|i: int| 0 <= i < spheres@.len() ==> (#[trigger] spheres@[i]).mat_id < mats@.len(),
    ensures
        ({
            let sv = step_ray_s(*r, thr@, spheres@, mats@, seed, idx);
            &&& out.0 == ray_of_step_s(sv)
            &&& out.1 == v3_to_vec3_s(sv.thr)
            &&& out.2 == v3_to_vec3_s(sv.deposit)
            &&& out.1@ == sv.thr
            &&& out.2@ == sv.deposit
        }),
{
    proof {
        reveal(step_ray_s);
    }
    if r.finished != 0 {
        return (Ray { origin: r.origin, direction: r.direction, finished: 1 }, *thr, Vec3::zero());
    }
    match closest_hit(spheres, &r.origin, &r.direction) {
        None => {
            let deposit = thr.cmul(&background());
            (Ray { origin: r.origin, direction: r.direction, finished: 1 }, *thr, deposit)
        },
        Some((si, t)) => {
            let sp = spheres[si];
            let m = mats[sp.mat_id as usize];
            let hit_p = r.origin.add(&r.direction.scale(t));
            let outward = hit_p.sub(&sp.sphere.center).div(sp.sphere.radius);
            let (dir, att, term, emit) = scatter(&m, &outward, &r.direction, seed_mix(seed, idx));
            if term {
                let deposit = thr.cmul(&emit);
                (Ray { origin: r.origin, direction: r.direction, finished: 1 }, *thr, deposit)
            } else {
                (Ray { origin: hit_p, direction: dir, finished: 0 }, thr.cmul(&att), Vec3::zero())
            }
        },
    }
}

/// A finished ray is an exact no-op under a step: same origin and
/// direction, still finished, untouched throughput, zero deposit.
pub proof fn lemma_step_finished(
    r: Ray,
    thr: V3,
    spheres: Seq<SceneSphere>,
    mats: Seq<Material>,
    seed: u64,
    idx: u64,
)
    requires
        r.is_finished(),
    ensures
        step_ray_s(r, thr, spheres, mats, seed, idx) == (StepView {
            origin: r.origin@,
            direction: r.direction@,
            finished: true,
            thr,
            deposit: v3_zero_s(),
        }),
{
    reveal(step_ray_s);
}

/// In a scene with no spheres an unfinished ray misses: it terminates in
/// place and deposits the background tinted by its throughput.
pub proof fn lemma_step_empty_scene(
    r: Ray,
    thr: V3,
    mats: Seq<Material>,
    seed: u64,
    idx: u64,
)
    requires
        !r.is_finished(),
    ensures
        step_ray_s(r, thr, Seq::<SceneSphere>::empty(), mats, seed, idx) == (StepView {
            origin: r.origin@,
            direction: r.direction@,
            finished: true,
            thr,
            deposit: v3_cmul_s(thr, background_s()),
        }),
{
    reveal(step_ray_s);
    assert(closest_hit_s(Seq::<SceneSphere>::empty(), r.origin@, r.direction@) is None);
}

/// Unit throughput does not change the background deposit.
pub proof fn lemma_unit_tint()
    ensures
        v3_cmul_s(
            V3 { x: FX_ONE as int, y: FX_ONE as int, z: FX_ONE as int },
            background_s(),
        ) == background_s(),
{
    assert(65536int * 32768int == 2147483648int) by (nonlinear_arith);
    assert(65536int * 45875int == 3006464000int) by (nonlinear_arith);
    assert(65536int * 65536int == 4294967296int) by (nonlinear_arith);
    assert(2147483648int / 65536int == 32768int);
    assert(3006464000int / 65536int == 45875int);
    assert(4294967296int / 65536int == 65536int);
}

/// The abstract state one dispatch transforms: the current rays, the
/// per-ray path throughputs, and the accumulated image.
pub struct TraceState {
    pub rays: Seq<Ray>,
    pub thr: Seq<Vec3>,
    pub img: Seq<Vec3>,
}

impl TraceState {
    /// The three sequences describe the same set of ray slots.
    pub open spec fn wf_lens(self) -> bool {
        self.thr.len() == self.rays.len() && self.img.len() == self.rays.len()
    }
}

/// One whole dispatch: every slot advanced by [`step_ray_s`], pointwise
/// and independently.
pub open spec fn dispatch_s(
    st: TraceState,
    spheres: Seq<SceneSphere>,
    mats: Seq<Material>,
    seed: u64,
) -> TraceState {
    TraceState {
        rays: Seq::new(
            st.rays.len(),
            |i: int| ray_of_step_s(step_ray_s(st.rays[i], st.thr[i]@, spheres, mats, seed, i as u64)),
        ),
        thr: Seq::new(
            st.rays.len(),
            |i: int| v3_to_vec3_s(step_ray_s(st.rays[i], st.thr[i]@, spheres, mats, seed, i as u64).thr),
        ),
        img: Seq::new(
            st.rays.len(),
            |i: int|
                v3_to_vec3_s(
                    v3_add_s(
                        st.img[i]@,
                        step_ray_s(st.rays[i], st.thr[i]@, spheres, mats, seed, i as u64).deposit,
                    ),
                ),
        ),
    }
}

/// The ray of pixel `(px, py)` as a concrete value.
pub open spec fn ray_at_s(c: Camera, px: int, py: int) -> Ray {
    Ray { origin: c.lookfrom, direction: v3_to_vec3_s(ray_dir_s(c, px, py)), finished: 0u32 }
}

/// The freshly generated ray buffer: one ray per pixel, row-major.
pub open spec fn initial_rays_s(c: Camera) -> Seq<Ray> {
    Seq::new(
        (c.width * c.height) as nat,
        |i: int| ray_at_s(c, i % (c.width as int), i / (c.width as int)),
    )
}

/// The all-ones throughput buffer a sample starts from.
pub open spec fn ones_s(n: nat) -> Seq<Vec3> {
    Seq::new(n, |i: int| Vec3 { x: FX_ONE, y: FX_ONE, z: FX_ONE })
}

/// Generate the per-pixel rays of one sample: exactly `width * height` of
/// them, one through each pixel center, in row-major order.
pub fn initial_rays(camera: &Camera) -> (rays: Vec<Ray>)
    requires
        camera.wf(),
    ensures
        rays@ == initial_rays_s(*camera),
        rays@.len() == camera.width * camera.height,
{
    let w = camera.width;
    let h = camera.height;
    let mut rays: Vec<Ray> = Vec::new();
    let mut y: u32 = 0;
    while y < h
        invariant
            camera.wf(),
            w == camera.width,
            h == camera.height,
            y <= h,
            rays@.len() == y * w,
            forall|i: int| 0 <= i < rays@.len() ==> rays@[i] == initial_rays_s(*camera)[i],
        decreases h - y,
    {
        let mut x: u32 = 0;
        while x < w
            invariant
                camera.wf(),
                w == camera.width,
                h == camera.height,
                y < h,
                x <= w,
                rays@.len() == y * w + x,
                forall|i: int| 0 <= i < rays@.len() ==> rays@[i] == initial_rays_s(*camera)[i],
            decreases w - x,
        {
            let r = camera.ray_for_pixel(x, y);
            proof {
                vstd::arithmetic::div_mod::lemma_fundamental_div_mod_converse(
                    rays@.len() as int,
                    w as int,
                    y as int,
                    x as int,
                );
                assert(((y * w) as int) + (x as int) < ((w * h) as int)) by (nonlinear_arith)
                    requires
                        x < w,
                        y < h,
                ;
            }
            rays.push(r);
            x += 1;
        }
        proof {
            assert((y + 1) * w == y * w + w) by (nonlinear_arith);
        }
        y += 1;
    }
    proof {
        assert(h * w == w * h) by (nonlinear_arith);
        assert(rays@ =~= initial_rays_s(*camera));
    }
    rays
}

fn ones_vec(n: usize) -> (r: Vec<Vec3>)
    ensures
        r@ == ones_s(n as nat),
{
    let mut v: Vec<Vec3> = Vec::new();
    while v.len() < n
        invariant
            v@.len() <= n,
            forall|i: int|
                0 <= i < v@.len() ==> v@[i] == (Vec3 { x: FX_ONE, y: FX_ONE, z: FX_ONE }),
        decreases n - v.len(),
    {
        v.push(Vec3 { x: FX_ONE, y: FX_ONE, z: FX_ONE });
    }
    proof {
        assert(v@ =~= ones_s(n as nat));
    }
    v
}

/// The ray state machine and bounce dispatcher: the two equally-sized
/// ping/pong ray buffers with their parity flag, the per-ray throughputs,
/// the scene, and the fixed bounce count.
pub struct Raytracer {
    pub max_bounces: usize,
    /// True when `ping_buf` is the source of the next dispatch.
    pub ping: bool,
    pub ping_buf: Vec<Ray>,
    pub pong_buf: Vec<Ray>,
    pub throughput: Vec<Vec3>,
    pub scene: Scene,
}

impl Raytracer {
    /// Both ray buffers and the throughput buffer agree on the slot count,
    /// and the scene is well-formed.
    pub open spec fn wf(self) -> bool {
        &&& self.pong_buf@.len() == self.ping_buf@.len()
        &&& self.throughput@.len() == self.ping_buf@.len()
        &&& self.scene.wf()
    }

    /// The buffer the next dispatch reads.
    pub open spec fn cur_rays(self) -> Seq<Ray> {
        if self.ping {
            self.ping_buf@
        } else {
            self.pong_buf@
        }
    }

    /// The abstract state of this tracer over a given image.
    pub open spec fn state_with(self, img: Seq<Vec3>) -> TraceState {
        TraceState { rays: self.cur_rays(), thr: self.throughput@, img }
    }

    /// Build the tracer: buffers seeded from the camera (one ray per
    /// pixel), parity at its initial state, unit throughput.
    pub fn new(camera: &Camera, max_bounces: usize, scene: Scene) -> (r: Raytracer)
        requires
            camera.wf(),
            scene.wf(),
        ensures
            r.wf(),
            r.max_bounces == max_bounces,
            r.ping == true,
            r.scene == scene,
            r.ping_buf@ == initial_rays_s(*camera),
            r.pong_buf@ == initial_rays_s(*camera),
            r.throughput@ == ones_s((camera.width * camera.height) as nat),
            r.ping_buf@.len() == camera.width * camera.height,
    {
        let ping_buf = initial_rays(camera);
        let pong_buf = initial_rays(camera);
        let n = ping_buf.len();
        let throughput = ones_vec(n);
        Raytracer { max_bounces, ping: true, ping_buf, pong_buf, throughput, scene }
    }

    /// Reseed both ray buffers from the camera's current resolution and
    /// reset the parity to its initial state: after this the buffers hold
    /// exactly `width * height` rays each, never a stale size.
    pub fn on_resize(&mut self, camera: &Camera)
        requires
            old(self).wf(),
            camera.wf(),
        ensures
            final(self).wf(),
            final(self).ping == true,
            final(self).max_bounces == old(self).max_bounces,
            final(self).scene == old(self).scene,
            final(self).ping_buf@ == initial_rays_s(*camera),
            final(self).pong_buf@ == initial_rays_s(*camera),
            final(self).throughput@ == ones_s((camera.width * camera.height) as nat),
            final(self).ping_buf@.len() == camera.width * camera.height,
    {
        self.ping = true;
        self.ping_buf = initial_rays(camera);
        self.pong_buf = initial_rays(camera);
        let n = self.ping_buf.len();
        self.throughput = ones_vec(n);
    }

    /// One dispatch: advance every ray of the source buffer into the
    /// destination buffer, update the throughputs, accumulate the
    /// terminating contributions, and swap the buffer roles. The source
    /// buffer itself is not written.
    pub fn dispatch(&mut self, image: &mut RadianceImage, seed: u64)
        requires
            old(self).wf(),
            old(image).wf(),
            old(image).texels@.len() == old(self).ping_buf@.len(),
        ensures
            final(self).wf(),
            final(self).ping == !old(self).ping,
            final(self).max_bounces == old(self).max_bounces,
            final(self).scene == old(self).scene,
            final(self).ping_buf@.len() == old(self).ping_buf@.len(),
            final(image).wf(),
            final(image).width == old(image).width,
            final(image).height == old(image).height,
            ({
                let st2 = dispatch_s(
                    old(self).state_with(old(image).texels@),
                    old(self).scene.spheres@,
                    old(self).scene.mats@,
                    seed,
                );
                &&& final(self).cur_rays() == st2.rays
                &&& final(self).throughput@ == st2.thr
                &&& final(image).texels@ == st2.img
            }),
            old(self).ping ==> final(self).ping_buf == old(self).ping_buf,
            !old(self).ping ==> final(self).pong_buf == old(self).pong_buf,
    {
        let ghost st2 = dispatch_s(
            old(self).state_with(old(image).texels@),
            old(self).scene.spheres@,
            old(self).scene.mats@,
            seed,
        );
        let n = self.ping_buf.len();
        let mut dst: Vec<Ray> = Vec::new();
        let mut newthr: Vec<Vec3> = Vec::new();
        let mut i: usize = 0;
        while i < n
            invariant
                self == old(self),
                old(self).wf(),
                old(image).wf(),
                n == old(self).ping_buf@.len(),
                old(image).texels@.len() == n,
                st2 == dispatch_s(
                    old(self).state_with(old(image).texels@),
                    old(self).scene.spheres@,
                    old(self).scene.mats@,
                    seed,
                ),
                i <= n,
                dst@.len() == i,
                newthr@.len() == i,
                image.wf(),
                image.width == old(image).width,
                image.height == old(image).height,
                image.texels@.len() == n,
                forall|j: int| 0 <= j < i ==> dst@[j] == st2.rays[j],
                forall|j: int| 0 <= j < i ==> newthr@[j] == st2.thr[j],
                forall|j: int| 0 <= j < i ==> image.texels@[j] == st2.img[j],
                forall|j: int| i <= j < n ==> image.texels@[j] == old(image).texels@[j],
            decreases n - i,
        {
            let src_ray = if self.ping {
                self.ping_buf[i]
            } else {
                self.pong_buf[i]
            };
            let th = self.throughput[i];
            let (nray, nthr, deposit) = step_ray(
                &src_ray,
                &th,
                &self.scene.spheres,
                &self.scene.mats,
                seed,
                i as u64,
            );
            dst.push(nray);
            newthr.push(nthr);
            image.accumulate(i, deposit);
            i += 1;
        }
        self.throughput = newthr;
        if self.ping {
            self.pong_buf = dst;
        } else {
            self.ping_buf = dst;
        }
        self.ping = !self.ping;
        proof {
            assert(final(self).cur_rays() =~= st2.rays);
            assert(final(self).throughput@ =~= st2.thr);
            assert(final(image).texels@ =~= st2.img);
        }
    }

    /// One compute pass: regenerate the per-pixel rays (the Generating
    /// state), reset the throughputs and the parity, then run the
    /// fixed-length bounce sequence once for one stochastic sample. With a
    /// bounce count of zero the bounce loop is simply skipped and the
    /// image is left untouched.
    pub fn compute(&mut self, camera: &Camera, image: &mut RadianceImage, sample_seed: u64)
        requires
            old(self).wf(),
            camera.wf(),
            old(image).wf(),
            old(self).ping_buf@.len() == camera.width * camera.height,
            old(image).texels@.len() == camera.width * camera.height,
        ensures
            final(self).wf(),
            final(self).max_bounces == old(self).max_bounces,
            final(self).scene == old(self).scene,
            final(self).ping_buf@.len() == old(self).ping_buf@.len(),
            final(image).wf(),
            final(image).width == old(image).width,
            final(image).height == old(image).height,
            final(image).texels@.len() == old(image).texels@.len(),
            ({
                let st2 = compute_sample_s(
                    *camera,
                    old(self).scene.spheres@,
                    old(self).scene.mats@,
                    sample_seed,
                    old(image).texels@,
                    old(self).max_bounces as nat,
                );
                &&& final(self).cur_rays() == st2.rays
                &&& final(self).throughput@ == st2.thr
                &&& final(image).texels@ == st2.img
            }),
    {
        self.ping_buf = initial_rays(camera);
        let n = self.ping_buf.len();
        self.throughput = ones_vec(n);
        self.ping = true;
        let mut k: usize = 0;
        while k < self.max_bounces
            invariant
                self.wf(),
                camera.wf(),
                image.wf(),
                self.max_bounces == old(self).max_bounces,
                self.scene == old(self).scene,
                self.ping_buf@.len() == camera.width * camera.height,
                image.width == old(image).width,
                image.height == old(image).height,
                image.texels@.len() == camera.width * camera.height,
                k <= self.max_bounces,
                ({
                    let st0 = TraceState {
                        rays: initial_rays_s(*camera),
                        thr: ones_s((camera.width * camera.height) as nat),
                        img: old(image).texels@,
                    };
                    let stk = bounce_seq_s(
                        st0,
                        old(self).scene.spheres@,
                        old(self).scene.mats@,
                        sample_seed,
                        k as nat,
                    );
                    &&& self.cur_rays() == stk.rays
                    &&& self.throughput@ == stk.thr
                    &&& image.texels@ == stk.img
                }),
            decreases self.max_bounces - k,
        {
            let seed_k = seed_mix(sample_seed, k as u64);
            self.dispatch(image, seed_k);
            k += 1;
        }
    }

    /// The whole recompute of one invalidation: run `num_samples` compute
    /// passes, each reseeded from the base seed and its sample index,
    /// accumulating into the same image.
    pub fn perform(&mut self, camera: &Camera, image: &mut RadianceImage, base_seed: u64)
        requires
            old(self).wf(),
            camera.wf(),
            old(image).wf(),
            old(self).ping_buf@.len() == camera.width * camera.height,
            old(image).texels@.len() == camera.width * camera.height,
        ensures
            final(self).wf(),
            final(self).max_bounces == old(self).max_bounces,
            final(self).scene == old(self).scene,
            final(self).ping_buf@.len() == old(self).ping_buf@.len(),
            final(image).wf(),
            final(image).width == old(image).width,
            final(image).height == old(image).height,
            final(image).texels@.len() == old(image).texels@.len(),
            final(image).texels@ == perform_s(
                *camera,
                old(self).scene.spheres@,
                old(self).scene.mats@,
                base_seed,
                old(image).texels@,
                old(self).max_bounces as nat,
                camera.num_samples as nat,
            ),
    {
        let mut s: u32 = 0;
        while s < camera.num_samples
            invariant
                self.wf(),
                camera.wf(),
                image.wf(),
                self.max_bounces == old(self).max_bounces,
                self.scene == old(self).scene,
                self.ping_buf@.len() == camera.width * camera.height,
                image.width == old(image).width,
                image.height == old(image).height,
                image.texels@.len() == camera.width * camera.height,
                s <= camera.num_samples,
                image.texels@ == perform_s(
                    *camera,
                    old(self).scene.spheres@,
                    old(self).scene.mats@,
                    base_seed,
                    old(image).texels@,
                    old(self).max_bounces as nat,
                    s as nat,
                ),
            decreases camera.num_samples - s,
        {
            let ss = seed_mix(base_seed, s as u64);
            self.compute(camera, image, ss);
            s += 1;
        }
    }
}

/// `k` dispatches applied to a state, the per-dispatch seeds derived in
/// order from the sample seed.
pub open spec fn bounce_seq_s(
    st: TraceState,
    spheres: Seq<SceneSphere>,
    mats: Seq<Material>,
    sample_seed: u64,
    k: nat,
) -> TraceState
    decreases k,
{
    if k == 0 {
        st
    } else {
        dispatch_s(
            bounce_seq_s(st, spheres, mats, sample_seed, (k - 1) as nat),
            spheres,
            mats,
            seed_mix_s(sample_seed, (k - 1) as u64),
        )
    }
}

/// The state after one sample's compute pass: fresh rays and unit
/// throughput from the camera, then the fixed-length bounce sequence.
pub open spec fn compute_sample_s(
    c: Camera,
    spheres: Seq<SceneSphere>,
    mats: Seq<Material>,
    sample_seed: u64,
    img0: Seq<Vec3>,
    max_bounces: nat,
) -> TraceState {
    let st0 = TraceState {
        rays: initial_rays_s(c),
        thr: ones_s((c.width * c.height) as nat),
        img: img0,
    };
    bounce_seq_s(st0, spheres, mats, sample_seed, max_bounces)
}

/// The image after `samples` full compute passes, each with its own
/// derived seed, accumulating into the same target.
pub open spec fn perform_s(
    c: Camera,
    spheres: Seq<SceneSphere>,
    mats: Seq<Material>,
    base_seed: u64,
    img0: Seq<Vec3>,
    max_bounces: nat,
    samples: nat,
) -> Seq<Vec3>
    decreases samples,
{
    if samples == 0 {
        img0
    } else {
        compute_sample_s(
            c,
            spheres,
            mats,
            seed_mix_s(base_seed, (samples - 1) as u64),
            perform_s(c, spheres, mats, base_seed, img0, max_bounces, (samples - 1) as nat),
            max_bounces,
        ).img
    }
}

/// Throughout a bounce sequence the buffers keep their slot count, and a
/// slot whose finished flag started normalized keeps it normalized.
pub proof fn lemma_bounce_flag_norm(
    st: TraceState,
    spheres: Seq<SceneSphere>,
    mats: Seq<Material>,
    sample_seed: u64,
    k: nat,
    i: int,
)
    requires
        0 <= i < st.rays.len(),
        st.rays[i].finished <= 1,
    ensures
        bounce_seq_s(st, spheres, mats, sample_seed, k).rays.len() == st.rays.len(),
        bounce_seq_s(st, spheres, mats, sample_seed, k).rays[i].finished <= 1,
    decreases k,
{
    if k > 0 {
        lemma_bounce_flag_norm(st, spheres, mats, sample_seed, (k - 1) as nat, i);
    }
}

/// A ray marked finished after `k1` dispatches stays finished and
/// bit-identical through every later dispatch of the same bounce sequence.
pub proof fn lemma_finished_ray_stable(
    st: TraceState,
    spheres: Seq<SceneSphere>,
    mats: Seq<Material>,
    sample_seed: u64,
    k1: nat,
    k2: nat,
    i: int,
)
    requires
        0 <= i < st.rays.len(),
        st.rays[i].finished <= 1,
        k1 <= k2,
        bounce_seq_s(st, spheres, mats, sample_seed, k1).rays[i].is_finished(),
    ensures
        bounce_seq_s(st, spheres, mats, sample_seed, k2).rays[i] == bounce_seq_s(
            st,
            spheres,
            mats,
            sample_seed,
            k1,
        ).rays[i],
        bounce_seq_s(st, spheres, mats, sample_seed, k2).rays[i].is_finished(),
    decreases k2 - k1,
{
    lemma_bounce_flag_norm(st, spheres, mats, sample_seed, k1, i);
    if k2 > k1 {
        lemma_finished_ray_stable(st, spheres, mats, sample_seed, k1, (k2 - 1) as nat, i);
        lemma_bounce_flag_norm(st, spheres, mats, sample_seed, (k2 - 1) as nat, i);
        let stp = bounce_seq_s(st, spheres, mats, sample_seed, (k2 - 1) as nat);
        assert(stp.rays[i].finished == 1);
        lemma_step_finished(
            stp.rays[i],
            stp.thr[i]@,
            spheres,
            mats,
            seed_mix_s(sample_seed, (k2 - 1) as u64),
            i as u64,
        );
        assert(bounce_seq_s(st, spheres, mats, sample_seed, k2).rays[i] == ray_of_step_s(
            step_ray_s(
                stp.rays[i],
                stp.thr[i]@,
                spheres,
                mats,
                seed_mix_s(sample_seed, (k2 - 1) as u64),
                i as u64,
            ),
        ));
    }
}

/// The texel value after `n` background deposits on a cleared image.
pub open spec fn bg_sum_s(n: nat) -> Vec3
    decreases n,
{
    if n == 0 {
        Vec3 { x: 0i64, y: 0i64, z: 0i64 }
    } else {
        v3_to_vec3_s(v3_add_s(bg_sum_s((n - 1) as nat)@, background_s()))
    }
}

/// The accumulated background stays within the scalar saturation band.
pub proof fn lemma_bg_sum_in_band(n: nat)
    ensures
        v3_in_band(bg_sum_s(n)@),
    decreases n,
{
    if n > 0 {
        lemma_bg_sum_in_band((n - 1) as nat);
    }
}

/// With no spheres, one bounce sequence of at least one dispatch adds the
/// background exactly once to a slot that starts unfinished with unit
/// throughput, and leaves that slot finished.
#[verifier::rlimit(80)]
proof fn lemma_empty_bounces(
    st: TraceState,
    mats: Seq<Material>,
    sample_seed: u64,
    k: nat,
    i: int,
)
    requires
        st.wf_lens(),
        0 <= i < st.rays.len(),
        st.rays[i].finished == 0,
        st.thr[i] == (Vec3 { x: FX_ONE, y: FX_ONE, z: FX_ONE }),
        v3_in_band(st.img[i]@),
        k >= 1,
    ensures
        ({
            let stk = bounce_seq_s(st, Seq::<SceneSphere>::empty(), mats, sample_seed, k);
            &&& stk.rays.len() == st.rays.len()
            &&& stk.img.len() == st.rays.len()
            &&& stk.rays[i].finished == 1
            &&& stk.img[i] == v3_to_vec3_s(v3_add_s(st.img[i]@, background_s()))
        }),
    decreases k,
{
    let spheres = Seq::<SceneSphere>::empty();
    if k == 1 {
        lemma_step_empty_scene(
            st.rays[i],
            st.thr[i]@,
            mats,
            seed_mix_s(sample_seed, 0u64),
            i as u64,
        );
        lemma_unit_tint();
        assert(st.thr[i]@ == (V3 { x: FX_ONE as int, y: FX_ONE as int, z: FX_ONE as int }));
    } else {
        lemma_empty_bounces(st, mats, sample_seed, (k - 1) as nat, i);
        let stp = bounce_seq_s(st, spheres, mats, sample_seed, (k - 1) as nat);
        lemma_step_finished(
            stp.rays[i],
            stp.thr[i]@,
            spheres,
            mats,
            seed_mix_s(sample_seed, (k - 1) as u64),
            i as u64,
        );
        assert(stp.img[i] == v3_to_vec3_s(v3_add_s(st.img[i]@, background_s())));
        assert(v3_in_band(stp.img[i]@));
        assert(bounce_seq_s(st, spheres, mats, sample_seed, k).img[i] == v3_to_vec3_s(
            v3_add_s(stp.img[i]@, v3_zero_s()),
        ));
        assert(v3_add_s(stp.img[i]@, v3_zero_s()) == stp.img[i]@);
    }
}

/// With zero spheres the accumulated image is uniform for any camera
/// configuration: after a full recompute of `samples` passes over a
/// cleared image, every texel holds exactly `samples` background
/// deposits, a value independent of the pixel.
pub proof fn lemma_empty_scene_uniform(
    c: Camera,
    mats: Seq<Material>,
    base_seed: u64,
    img0: Seq<Vec3>,
    max_bounces: nat,
    samples: nat,
    i: int,
)
    requires
        c.wf(),
        img0.len() == c.width * c.height,
        forall|j: int| 0 <= j < img0.len() ==> (#[trigger] img0[j])@ == v3_zero_s(),
        max_bounces >= 1,
        0 <= i < img0.len(),
    ensures
        perform_s(
            c,
            Seq::<SceneSphere>::empty(),
            mats,
            base_seed,
            img0,
            max_bounces,
            samples,
        ).len() == img0.len(),
        perform_s(c, Seq::<SceneSphere>::empty(), mats, base_seed, img0, max_bounces, samples)[i]
            == bg_sum_s(samples),
    decreases samples,
{
    let spheres = Seq::<SceneSphere>::empty();
    if samples == 0 {
        assert(img0[i]@ == v3_zero_s());
        assert(img0[i] == bg_sum_s(0));
    } else {
        lemma_empty_scene_uniform(c, mats, base_seed, img0, max_bounces, (samples - 1) as nat, i);
        let prev = perform_s(c, spheres, mats, base_seed, img0, max_bounces, (samples - 1) as nat);
        lemma_bg_sum_in_band((samples - 1) as nat);
        let st0 = TraceState {
            rays: initial_rays_s(c),
            thr: ones_s((c.width * c.height) as nat),
            img: prev,
        };
        assert(st0.rays[i].finished == 0);
        assert(st0.thr[i] == (Vec3 { x: FX_ONE, y: FX_ONE, z: FX_ONE }));
        lemma_empty_bounces(
            st0,
            mats,
            seed_mix_s(base_seed, (samples - 1) as u64),
            max_bounces,
            i,
        );
    }
}

} // verus!
