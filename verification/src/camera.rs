//! The pinhole camera: view parameters, the derived viewport basis, and
//! per-pixel ray generation.
//!
//! The derived quantities (top-left pixel position and the per-pixel delta
//! vectors) are always an exact function of the anchors (`lookfrom`,
//! `lookat`, `vup`) and the resolution; every mutation recomputes them, so
//! they are never stale.

use vstd::prelude::*;
use crate::error::TracerError;
use crate::fixed::{fx_div, fx_div_s, fx_mul, fx_mul_s, fx_of_int, fx_of_int_s};
use crate::ray::Ray;
use crate::vec3::{
    v3_add_s, v3_cross_s, v3_div_s, v3_neg_s, v3_norm_s, v3_normalize_s, v3_scale_s, v3_sub_s,
    V3, Vec3,
};

verus! {

/// Largest accepted width or height: keeps `width * height` ray buffers
/// well within what this host can hold.
pub const MAX_DIM: u32 = 16384;

/// Raw Q16.16 value of the fixed translation step of one move command.
pub const MOVE_FACTOR: i64 = 6554;

/// A discrete camera move command: a fixed-step translation along the
/// current basis.
#[derive(Clone, Copy, PartialEq, Eq, Structural, Debug)]
pub enum CameraChange {
    Forward,
    Backward,
    Left,
    Right,
    Up,
    Down,
}

/// The camera: anchors, derived viewport basis, resolution and sampling rate.
#[derive(Clone, Copy, PartialEq, Eq, Structural, Debug)]
pub struct Camera {
    pub num_samples: u32,
    pub lookfrom: Vec3,
    pub lookat: Vec3,
    pub vup: Vec3,
    pub top_left_pixel: Vec3,
    pub delta_u: Vec3,
    pub delta_v: Vec3,
    pub width: u32,
    pub height: u32,
}

/// The quantities derived from the anchors and the resolution.
pub struct DerivedView {
    pub top_left_pixel: V3,
    pub delta_u: V3,
    pub delta_v: V3,
}

/// The exact derivation of the viewport basis, as the construction
/// performs it: focal length is the distance from `lookfrom` to `lookat`,
/// the viewport is two focal lengths tall and `aspect` times as wide,
/// the forward basis vector `w` points from `lookat` to `lookfrom`, and
/// the top-left pixel is offset by half a pixel into the viewport.
pub open spec fn camera_derived_s(
    lookfrom: V3,
    lookat: V3,
    vup: V3,
    width: int,
    height: int,
) -> DerivedView {
    let wf = fx_of_int_s(width);
    let hf = fx_of_int_s(height);
    let aspect = fx_div_s(wf, hf);
    let focal = v3_norm_s(v3_sub_s(lookat, lookfrom));
    let viewport_h = fx_mul_s(fx_of_int_s(2), focal);
    let viewport_w = fx_mul_s(viewport_h, aspect);
    let w = v3_normalize_s(v3_sub_s(lookfrom, lookat));
    let u = v3_normalize_s(v3_cross_s(vup, w));
    let v = v3_cross_s(w, u);
    let viewport_u = v3_scale_s(u, viewport_w);
    let viewport_v = v3_scale_s(v3_neg_s(v), viewport_h);
    let delta_u = v3_div_s(viewport_u, wf);
    let delta_v = v3_div_s(viewport_v, hf);
    let top_left = v3_sub_s(
        v3_sub_s(
            v3_sub_s(lookfrom, v3_scale_s(w, focal)),
            v3_div_s(viewport_u, fx_of_int_s(2)),
        ),
        v3_div_s(viewport_v, fx_of_int_s(2)),
    );
    let top_left_pixel = v3_add_s(top_left, v3_scale_s(v3_add_s(delta_u, delta_v), 32768));
    DerivedView { top_left_pixel, delta_u, delta_v }
}

/// Where the anchors move under one command: `lookfrom` translates one
/// fixed step along the old basis, and `lookat` is re-derived so the camera
/// keeps facing the prior forward direction from the new position.
pub open spec fn moved_anchors_s(
    lookfrom: V3,
    lookat: V3,
    vup: V3,
    change: CameraChange,
) -> (V3, V3) {
    let w = v3_normalize_s(v3_sub_s(lookfrom, lookat));
    let u = v3_normalize_s(v3_cross_s(vup, w));
    let v = v3_cross_s(w, u);
    let new_lookfrom = match change {
        CameraChange::Forward => v3_sub_s(lookfrom, v3_scale_s(w, MOVE_FACTOR as int)),
        CameraChange::Backward => v3_add_s(lookfrom, v3_scale_s(w, MOVE_FACTOR as int)),
        CameraChange::Left => v3_sub_s(lookfrom, v3_scale_s(u, MOVE_FACTOR as int)),
        CameraChange::Right => v3_add_s(lookfrom, v3_scale_s(u, MOVE_FACTOR as int)),
        CameraChange::Up => v3_add_s(lookfrom, v3_scale_s(v, MOVE_FACTOR as int)),
        CameraChange::Down => v3_sub_s(lookfrom, v3_scale_s(v, MOVE_FACTOR as int)),
    };
    (new_lookfrom, v3_sub_s(new_lookfrom, w))
}

/// The world-space direction of the ray through the center of pixel
/// `(px, py)`.
pub open spec fn ray_dir_s(c: Camera, px: int, py: int) -> V3 {
    v3_sub_s(
        v3_add_s(
            v3_add_s(c.top_left_pixel@, v3_scale_s(c.delta_u@, fx_of_int_s(px))),
            v3_scale_s(c.delta_v@, fx_of_int_s(py)),
        ),
        c.lookfrom@,
    )
}

impl Camera {
    /// The derived fields are exactly what the anchors and the resolution
    /// dictate.
    pub open spec fn derived_ok(self) -> bool {
        camera_derived_s(
            self.lookfrom@,
            self.lookat@,
            self.vup@,
            self.width as int,
            self.height as int,
        ) == (DerivedView {
            top_left_pixel: self.top_left_pixel@,
            delta_u: self.delta_u@,
            delta_v: self.delta_v@,
        })
    }

    /// Well-formed: a positive bounded resolution and non-stale derived fields.
    pub open spec fn wf(self) -> bool {
        &&& 1 <= self.width <= MAX_DIM
        &&& 1 <= self.height <= MAX_DIM
        &&& self.derived_ok()
    }

    /// `c2` is `c` with its resolution changed and its basis recomputed.
    pub open spec fn resized_s(c: Camera, w: u32, h: u32, c2: Camera) -> bool {
        &&& c2.lookfrom == c.lookfrom
        &&& c2.lookat == c.lookat
        &&& c2.vup == c.vup
        &&& c2.num_samples == c.num_samples
        &&& c2.width == w
        &&& c2.height == h
        &&& c2.derived_ok()
    }

    /// `c2` is `c` after one move command: translated anchors, basis
    /// recomputed, resolution kept.
    pub open spec fn moved_s(c: Camera, change: CameraChange, c2: Camera) -> bool {
        &&& (c2.lookfrom@, c2.lookat@) == moved_anchors_s(c.lookfrom@, c.lookat@, c.vup@, change)
        &&& c2.vup == c.vup
        &&& c2.num_samples == c.num_samples
        &&& c2.width == c.width
        &&& c2.height == c.height
        &&& c2.derived_ok()
    }

    /// Build a camera. A zero dimension is a configuration error; a
    /// dimension beyond [`MAX_DIM`] exceeds what this host will allocate.
    pub fn new(
        lookfrom: Vec3,
        lookat: Vec3,
        vup: Vec3,
        num_samples: u32,
        width: u32,
        height: u32,
    ) -> (r: Result<Camera, TracerError>)
        ensures
            match r {
                Ok(c) => {
                    &&& 1 <= width <= MAX_DIM && 1 <= height <= MAX_DIM
                    &&& c.lookfrom == lookfrom
                    &&& c.lookat == lookat
                    &&& c.vup == vup
                    &&& c.num_samples == num_samples
                    &&& c.width == width
                    &&& c.height == height
                    &&& c.wf()
                },
                Err(TracerError::Configuration) => width == 0 || height == 0,
                Err(TracerError::ResourceExhaustion) => {
                    width != 0 && height != 0 && (width > MAX_DIM || height > MAX_DIM)
                },
                Err(TracerError::Encoding) => false,
            },
    {
        if width == 0 || height == 0 {
            return Err(TracerError::Configuration);
        }
        if width > MAX_DIM || height > MAX_DIM {
            return Err(TracerError::ResourceExhaustion);
        }
        let (top_left_pixel, delta_u, delta_v) = derive_basis(
            &lookfrom,
            &lookat,
            &vup,
            width,
            height,
        );
        Ok(Camera {
            num_samples,
            lookfrom,
            lookat,
            vup,
            top_left_pixel,
            delta_u,
            delta_v,
            width,
            height,
        })
    }

    /// Recompute the viewport for a new resolution; the anchors are kept.
    /// Calling it with the current resolution leaves the camera equal to
    /// itself.
    pub fn on_resize(&mut self, new_size: (u32, u32))
        requires
            1 <= new_size.0 <= MAX_DIM,
            1 <= new_size.1 <= MAX_DIM,
        ensures
            Camera::resized_s(*old(self), new_size.0, new_size.1, *final(self)),
            final(self).wf(),
    {
        let (width, height) = new_size;
        let (top_left_pixel, delta_u, delta_v) = derive_basis(
            &self.lookfrom,
            &self.lookat,
            &self.vup,
            width,
            height,
        );
        self.top_left_pixel = top_left_pixel;
        self.delta_u = delta_u;
        self.delta_v = delta_v;
        self.width = width;
        self.height = height;
    }

    /// Apply one discrete move command and rederive the basis.
    pub fn on_camera_change(&mut self, change: CameraChange)
        requires
            old(self).wf(),
        ensures
            Camera::moved_s(*old(self), change, *final(self)),
            final(self).wf(),
    {
        let w = self.lookfrom.sub(&self.lookat).normalize();
        let u = self.vup.cross(&w).normalize();
        let v = w.cross(&u);

        let new_lookfrom = match change {
            CameraChange::Forward => self.lookfrom.sub(&w.scale(MOVE_FACTOR)),
            CameraChange::Backward => self.lookfrom.add(&w.scale(MOVE_FACTOR)),
            CameraChange::Left => self.lookfrom.sub(&u.scale(MOVE_FACTOR)),
            CameraChange::Right => self.lookfrom.add(&u.scale(MOVE_FACTOR)),
            CameraChange::Up => self.lookfrom.add(&v.scale(MOVE_FACTOR)),
            CameraChange::Down => self.lookfrom.sub(&v.scale(MOVE_FACTOR)),
        };
        self.lookfrom = new_lookfrom;
        self.lookat = new_lookfrom.sub(&w);

        let (top_left_pixel, delta_u, delta_v) = derive_basis(
            &self.lookfrom,
            &self.lookat,
            &self.vup,
            self.width,
            self.height,
        );
        self.top_left_pixel = top_left_pixel;
        self.delta_u = delta_u;
        self.delta_v = delta_v;
    }

    /// The ray through the center of pixel `(px, py)`: it starts at
    /// `lookfrom` and points at the pixel's position on the viewport.
    pub fn ray_for_pixel(&self, px: u32, py: u32) -> (r: Ray)
        requires
            px < self.width,
            py < self.height,
            self.width <= MAX_DIM,
            self.height <= MAX_DIM,
        ensures
            r.origin == self.lookfrom,
            r.direction@ == ray_dir_s(*self, px as int, py as int),
            r.finished == 0u32,
    {
        let dir = self
            .top_left_pixel
            .add(&self.delta_u.scale(fx_of_int(px as i64)))
            .add(&self.delta_v.scale(fx_of_int(py as i64)))
            .sub(&self.lookfrom);
        Ray::new(self.lookfrom, dir)
    }
}

/// Compute the derived viewport quantities for the given anchors and
/// resolution.
fn derive_basis(
    lookfrom: &Vec3,
    lookat: &Vec3,
    vup: &Vec3,
    width: u32,
    height: u32,
) -> (r: (Vec3, Vec3, Vec3))
    requires
        1 <= width <= MAX_DIM,
        1 <= height <= MAX_DIM,
    ensures
        camera_derived_s(lookfrom@, lookat@, vup@, width as int, height as int)
            == (DerivedView { top_left_pixel: r.0@, delta_u: r.1@, delta_v: r.2@ }),
{
    let wf = fx_of_int(width as i64);
    let hf = fx_of_int(height as i64);
    let aspect = fx_div(wf, hf);
    let focal = lookat.sub(lookfrom).norm();
    let two = fx_of_int(2);
    let viewport_h = fx_mul(two, focal);
    let viewport_w = fx_mul(viewport_h, aspect);
    let w = lookfrom.sub(lookat).normalize();
    let u = vup.cross(&w).normalize();
    let v = w.cross(&u);
    let viewport_u = u.scale(viewport_w);
    let viewport_v = v.neg().scale(viewport_h);
    let delta_u = viewport_u.div(wf);
    let delta_v = viewport_v.div(hf);
    let top_left = lookfrom
        .sub(&w.scale(focal))
        .sub(&viewport_u.div(two))
        .sub(&viewport_v.div(two));
    let top_left_pixel = top_left.add(&delta_u.add(&delta_v).scale(32768));
    (top_left_pixel, delta_u, delta_v)
}

/// Resizing to another resolution and back reproduces the original camera
/// exactly: the derived basis and deltas are a function of the anchors and
/// the resolution alone, and the anchors do not move under a resize.
pub proof fn lemma_resize_round_trip(c0: Camera, w2: u32, h2: u32, c1: Camera, c2: Camera)
    requires
        c0.wf(),
        Camera::resized_s(c0, w2, h2, c1),
        Camera::resized_s(c1, c0.width, c0.height, c2),
    ensures
        c2 == c0,
{
}

} // verus!
