//! The top-level coordinator: one camera, one ray state machine and one
//! accumulation image, kept consistent as a unit.
//!
//! On a viewport change it atomically recomputes the camera basis,
//! reallocates the ray buffers and the image to the new pixel count,
//! resets the ping/pong parity, and runs a full recompute — no state where
//! old-size buffers pair with a new-size camera is ever observable from
//! the outside.

use vstd::prelude::*;
use crate::camera::{Camera, CameraChange, MAX_DIM};
use crate::error::TracerError;
use crate::image::RadianceImage;
use crate::scene::Scene;
use crate::trace::{initial_rays_s, perform_s, Raytracer};
use crate::vec3::Vec3;

verus! {

/// The all-zero texel buffer a recompute starts from.
pub open spec fn zeros_s(n: nat) -> Seq<Vec3> {
    Seq::new(n, |i: int| Vec3 { x: 0i64, y: 0i64, z: 0i64 })
}

/// The whole tracer: camera, ray state machine, accumulation image, and
/// the injected base seed that makes every recompute reproducible.
pub struct PathTracer {
    pub camera: Camera,
    pub raytracer: Raytracer,
    pub image: RadianceImage,
    pub base_seed: u64,
}

impl PathTracer {
    /// Well-formed: every component is well-formed and they agree on the
    /// pixel count — never an old-size buffer beside a new-size camera.
    pub open spec fn wf(self) -> bool {
        &&& self.camera.wf()
        &&& self.raytracer.wf()
        &&& self.image.wf()
        &&& self.raytracer.ping_buf@.len() == self.camera.width * self.camera.height
        &&& self.image.width == self.camera.width
        &&& self.image.height == self.camera.height
    }

    /// The image this tracer's recompute produces, as a function of its
    /// configuration alone.
    pub open spec fn recomputed_img_s(self) -> Seq<Vec3> {
        perform_s(
            self.camera,
            self.raytracer.scene.spheres@,
            self.raytracer.scene.mats@,
            self.base_seed,
            zeros_s((self.camera.width * self.camera.height) as nat),
            self.raytracer.max_bounces as nat,
            self.camera.num_samples as nat,
        )
    }

    /// Assemble a tracer from a validated camera, a scene and the fixed
    /// bounce count; the image starts cleared and the ray buffers seeded.
    pub fn new(camera: Camera, max_bounces: usize, scene: Scene, base_seed: u64) -> (r:
        PathTracer)
        requires
            camera.wf(),
            scene.wf(),
        ensures
            r.wf(),
            r.camera == camera,
            r.base_seed == base_seed,
            r.raytracer.max_bounces == max_bounces,
            r.raytracer.scene == scene,
            r.raytracer.ping == true,
            r.raytracer.ping_buf@ == initial_rays_s(camera),
            r.image.all_zero(),
    {
        let raytracer = Raytracer::new(&camera, max_bounces, scene);
        let image = RadianceImage::new(camera.width, camera.height);
        PathTracer { camera, raytracer, image, base_seed }
    }

    /// Clear the image and rerun the full sample loop: the accumulated
    /// image afterwards is exactly the recompute of the current
    /// configuration, never a mix of stale and fresh radiance.
    pub fn recompute(&mut self)
        requires
            old(self).wf(),
        ensures
            final(self).wf(),
            final(self).camera == old(self).camera,
            final(self).base_seed == old(self).base_seed,
            final(self).raytracer.max_bounces == old(self).raytracer.max_bounces,
            final(self).raytracer.scene == old(self).raytracer.scene,
            final(self).image.texels@ == old(self).recomputed_img_s(),
    {
        self.image.clear();
        proof {
            assert(self.image.texels@ =~= zeros_s(
                (self.camera.width * self.camera.height) as nat,
            ));
        }
        let camera = self.camera;
        self.raytracer.perform(&camera, &mut self.image, self.base_seed);
    }

    /// Accumulate further samples into the current image without
    /// clearing it first.
    pub fn perform(&mut self)
        requires
            old(self).wf(),
        ensures
            final(self).wf(),
            final(self).camera == old(self).camera,
            final(self).base_seed == old(self).base_seed,
            final(self).raytracer.max_bounces == old(self).raytracer.max_bounces,
            final(self).raytracer.scene == old(self).raytracer.scene,
            final(self).image.texels@ == perform_s(
                old(self).camera,
                old(self).raytracer.scene.spheres@,
                old(self).raytracer.scene.mats@,
                old(self).base_seed,
                old(self).image.texels@,
                old(self).raytracer.max_bounces as nat,
                old(self).camera.num_samples as nat,
            ),
    {
        let camera = self.camera;
        self.raytracer.perform(&camera, &mut self.image, self.base_seed);
    }

    /// Reset the accumulation image without recomputing.
    pub fn clear(&mut self)
        requires
            old(self).wf(),
        ensures
            final(self).wf(),
            final(self).camera == old(self).camera,
            final(self).base_seed == old(self).base_seed,
            final(self).raytracer == old(self).raytracer,
            final(self).image.all_zero(),
            final(self).image.texels@.len() == old(self).image.texels@.len(),
    {
        self.image.clear();
    }

    /// The viewport changed. An unchanged size is a no-op; a zero
    /// dimension is a configuration error and a dimension beyond
    /// [`MAX_DIM`] a resource error, both leaving every component exactly
    /// as it was. Otherwise the camera basis, the ray buffers and the
    /// image are rebuilt together for the new pixel count, the parity is
    /// reset, and a full recompute fills the fresh image.
    pub fn on_resize(&mut self, width: u32, height: u32) -> (r: Result<bool, TracerError>)
        requires
            old(self).wf(),
        ensures
            match r {
                Ok(changed) => {
                    &&& changed == !(width == old(self).camera.width && height == old(
                        self,
                    ).camera.height)
                    &&& !changed ==> *final(self) == *old(self)
                    &&& changed ==> {
                        &&& 1 <= width <= MAX_DIM && 1 <= height <= MAX_DIM
                        &&& final(self).wf()
                        &&& Camera::resized_s(old(self).camera, width, height, final(self).camera)
                        &&& final(self).base_seed == old(self).base_seed
                        &&& final(self).raytracer.max_bounces == old(self).raytracer.max_bounces
                        &&& final(self).raytracer.scene == old(self).raytracer.scene
                        &&& final(self).raytracer.ping_buf@.len() == width * height
                        &&& final(self).raytracer.pong_buf@.len() == width * height
                        &&& final(self).image.texels@.len() == width * height
                        &&& final(self).image.texels@ == final(self).recomputed_img_s()
                    }
                },
                Err(TracerError::Configuration) => {
                    &&& (width == 0 || height == 0)
                    &&& *final(self) == *old(self)
                },
                Err(TracerError::ResourceExhaustion) => {
                    &&& width != 0 && height != 0
                    &&& (width > MAX_DIM || height > MAX_DIM)
                    &&& *final(self) == *old(self)
                },
                Err(TracerError::Encoding) => false,
            },
    {
        if width == self.camera.width && height == self.camera.height {
            return Ok(false);
        }
        if width == 0 || height == 0 {
            return Err(TracerError::Configuration);
        }
        if width > MAX_DIM || height > MAX_DIM {
            return Err(TracerError::ResourceExhaustion);
        }
        self.camera.on_resize((width, height));
        let camera = self.camera;
        self.raytracer.on_resize(&camera);
        self.image = RadianceImage::new(width, height);
        self.recompute();
        Ok(true)
    }

    /// Apply one discrete move command to the camera. The accumulated
    /// image is invalidated by this; the next explicit recompute rebuilds
    /// it, as the move itself leaves the buffers untouched.
    pub fn on_camera_change(&mut self, change: CameraChange)
        requires
            old(self).wf(),
        ensures
            final(self).wf(),
            Camera::moved_s(old(self).camera, change, final(self).camera),
            final(self).base_seed == old(self).base_seed,
            final(self).raytracer == old(self).raytracer,
            final(self).image == old(self).image,
    {
        self.camera.on_camera_change(change);
    }

    /// The accumulated image, read-only, for the display step.
    pub fn image(&self) -> (r: &RadianceImage)
        ensures
            r == self.image,
    {
        &self.image
    }
}

} // verus!
