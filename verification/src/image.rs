//! The sample accumulator: one radiance texel per pixel.
//!
//! The accumulation policy is a running sum, applied uniformly: every
//! sample adds its radiance deposits to the texels, and a consumer that
//! wants the mean divides by the sample count when it reads the image.
//! The image is cleared on any invalidation (scene, camera or resolution
//! change) before the next ray generation begins, so stale and fresh
//! radiance never mix; the display step reads it through `texel` only.

use vstd::prelude::*;
use crate::camera::MAX_DIM;
use crate::vec3::{v3_add_s, v3_in_band, v3_to_vec3_s, v3_zero_s, Vec3};

verus! {

/// The accumulation image: `width * height` radiance texels, row-major.
pub struct RadianceImage {
    pub width: u32,
    pub height: u32,
    pub texels: Vec<Vec3>,
}

impl RadianceImage {
    /// Well-formed: one texel per pixel of a positive bounded resolution,
    /// every texel within the scalar saturation band.
    pub open spec fn wf(self) -> bool {
        &&& 1 <= self.width <= MAX_DIM
        &&& 1 <= self.height <= MAX_DIM
        &&& self.texels@.len() == self.width * self.height
        &&& forall|i: int| 0 <= i < self.texels@.len() ==> v3_in_band((#[trigger] self.texels@[i])@)
    }

    /// Every texel is zero radiance.
    pub open spec fn all_zero(self) -> bool {
        forall|i: int|
            0 <= i < self.texels@.len() ==> (#[trigger] self.texels@[i])@ == v3_zero_s()
    }

    /// A cleared image of the given resolution.
    pub fn new(width: u32, height: u32) -> (r: RadianceImage)
        requires
            1 <= width <= MAX_DIM,
            1 <= height <= MAX_DIM,
        ensures
            r.wf(),
            r.width == width,
            r.height == height,
            r.all_zero(),
    {
        proof {
            assert((width as int) * (height as int) <= 16384 * 16384) by (nonlinear_arith)
                requires
                    width <= MAX_DIM,
                    height <= MAX_DIM,
            ;
        }
        let n: usize = (width as usize) * (height as usize);
        let mut texels: Vec<Vec3> = Vec::new();
        while texels.len() < n
            invariant
                texels@.len() <= n,
                forall|i: int| 0 <= i < texels@.len() ==> (#[trigger] texels@[i])@ == v3_zero_s(),
            decreases n - texels.len(),
        {
            texels.push(Vec3::zero());
        }
        RadianceImage { width, height, texels }
    }

    /// Reset every texel to zero; the resolution is kept.
    pub fn clear(&mut self)
        requires
            old(self).wf(),
        ensures
            final(self).wf(),
            final(self).width == old(self).width,
            final(self).height == old(self).height,
            final(self).texels@.len() == old(self).texels@.len(),
            final(self).all_zero(),
    {
        let mut i: usize = 0;
        while i < self.texels.len()
            invariant
                self.width == old(self).width,
                self.height == old(self).height,
                old(self).wf(),
                self.texels@.len() == old(self).texels@.len(),
                i <= self.texels@.len(),
                forall|j: int| 0 <= j < i ==> (#[trigger] self.texels@[j])@ == v3_zero_s(),
                forall|j: int|
                    i <= j < self.texels@.len() ==> #[trigger] self.texels@[j] == old(
                        self,
                    ).texels@[j],
            decreases self.texels@.len() - i,
        {
            self.texels[i] = Vec3::zero();
            i += 1;
        }
    }

    /// Accumulate a radiance contribution into one texel.
    pub fn accumulate(&mut self, idx: usize, c: Vec3)
        requires
            old(self).wf(),
            idx < old(self).texels@.len(),
        ensures
            final(self).wf(),
            final(self).width == old(self).width,
            final(self).height == old(self).height,
            final(self).texels@ == old(self).texels@.update(
                idx as int,
                v3_to_vec3_s(v3_add_s(old(self).texels@[idx as int]@, c@)),
            ),
    {
        let t = self.texels[idx];
        self.texels[idx] = t.add(&c);
    }

    /// Read one accumulated texel.
    pub fn texel(&self, x: u32, y: u32) -> (r: Vec3)
        requires
            self.wf(),
            x < self.width,
            y < self.height,
        ensures
            r == self.texels@[y as int * self.width as int + x as int],
    {
        proof {
            assert((y as int) * (self.width as int) + (x as int) < (self.width as int) * (
            self.height as int) && (self.width as int) * (self.height as int) <= 16384 * 16384)
                by (nonlinear_arith)
                requires
                    x < self.width,
                    y < self.height,
                    self.width <= MAX_DIM,
                    self.height <= MAX_DIM,
            ;
        }
        let idx: usize = (y as usize) * (self.width as usize) + (x as usize);
        self.texels[idx]
    }
}

} // verus!
