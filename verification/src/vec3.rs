//! Three-component fixed-point vectors and their exact spec-level models.

use vstd::prelude::*;
use crate::fixed::{
    fx_add, fx_add_s, fx_div, fx_div_s, fx_mul, fx_mul_s, fx_neg, fx_neg_s, fx_sqrt, fx_sqrt_s,
    fx_sub, fx_sub_s,
};

verus! {

/// A vector of three Q16.16 fixed-point scalars.
#[derive(Clone, Copy, PartialEq, Eq, Structural, Debug)]
pub struct Vec3 {
    pub x: i64,
    pub y: i64,
    pub z: i64,
}

/// The mathematical model of a [`Vec3`]: the same three coordinates as
/// unbounded integers (still in raw Q16.16 units).
pub struct V3 {
    pub x: int,
    pub y: int,
    pub z: int,
}

impl View for Vec3 {
    type V = V3;

    open spec fn view(&self) -> V3 {
        V3 { x: self.x as int, y: self.y as int, z: self.z as int }
    }
}

/// The zero vector's model.
pub open spec fn v3_zero_s() -> V3 {
    V3 { x: 0, y: 0, z: 0 }
}

/// Every coordinate lies within the saturation band of the scalar layer.
pub open spec fn v3_in_band(v: V3) -> bool {
    &&& -(crate::fixed::FX_MAX as int) <= v.x <= crate::fixed::FX_MAX as int
    &&& -(crate::fixed::FX_MAX as int) <= v.y <= crate::fixed::FX_MAX as int
    &&& -(crate::fixed::FX_MAX as int) <= v.z <= crate::fixed::FX_MAX as int
}

/// The concrete vector holding a model value (the identity on every
/// in-band model).
pub open spec fn v3_to_vec3_s(v: V3) -> Vec3 {
    Vec3 { x: v.x as i64, y: v.y as i64, z: v.z as i64 }
}

/// Componentwise sum.
pub open spec fn v3_add_s(a: V3, b: V3) -> V3 {
    V3 { x: fx_add_s(a.x, b.x), y: fx_add_s(a.y, b.y), z: fx_add_s(a.z, b.z) }
}

/// Componentwise difference.
pub open spec fn v3_sub_s(a: V3, b: V3) -> V3 {
    V3 { x: fx_sub_s(a.x, b.x), y: fx_sub_s(a.y, b.y), z: fx_sub_s(a.z, b.z) }
}

/// Componentwise negation.
pub open spec fn v3_neg_s(a: V3) -> V3 {
    V3 { x: fx_neg_s(a.x), y: fx_neg_s(a.y), z: fx_neg_s(a.z) }
}

/// The vector scaled by a scalar.
pub open spec fn v3_scale_s(a: V3, s: int) -> V3 {
    V3 { x: fx_mul_s(a.x, s), y: fx_mul_s(a.y, s), z: fx_mul_s(a.z, s) }
}

/// The vector divided by a scalar (componentwise; zero divisor yields zero).
pub open spec fn v3_div_s(a: V3, s: int) -> V3 {
    V3 { x: fx_div_s(a.x, s), y: fx_div_s(a.y, s), z: fx_div_s(a.z, s) }
}

/// Componentwise product (used to tint radiance by an albedo).
pub open spec fn v3_cmul_s(a: V3, b: V3) -> V3 {
    V3 { x: fx_mul_s(a.x, b.x), y: fx_mul_s(a.y, b.y), z: fx_mul_s(a.z, b.z) }
}

/// Dot product.
pub open spec fn v3_dot_s(a: V3, b: V3) -> int {
    fx_add_s(fx_add_s(fx_mul_s(a.x, b.x), fx_mul_s(a.y, b.y)), fx_mul_s(a.z, b.z))
}

/// Cross product.
pub open spec fn v3_cross_s(a: V3, b: V3) -> V3 {
    V3 {
        x: fx_sub_s(fx_mul_s(a.y, b.z), fx_mul_s(a.z, b.y)),
        y: fx_sub_s(fx_mul_s(a.z, b.x), fx_mul_s(a.x, b.z)),
        z: fx_sub_s(fx_mul_s(a.x, b.y), fx_mul_s(a.y, b.x)),
    }
}

/// Euclidean norm (through the saturating square root).
pub open spec fn v3_norm_s(a: V3) -> int {
    fx_sqrt_s(v3_dot_s(a, a))
}

/// The unit vector in the direction of `a`; the zero vector when the norm
/// underflows to zero.
pub open spec fn v3_normalize_s(a: V3) -> V3 {
    let n = v3_norm_s(a);
    if n == 0 {
        V3 { x: 0, y: 0, z: 0 }
    } else {
        v3_div_s(a, n)
    }
}

impl Vec3 {
    /// Build a vector from raw Q16.16 coordinates.
    pub fn new(x: i64, y: i64, z: i64) -> (r: Vec3)
        ensures
            r@ == (V3 { x: x as int, y: y as int, z: z as int }),
    {
        Vec3 { x, y, z }
    }

    /// The zero vector.
    pub fn zero() -> (r: Vec3)
        ensures
            r@ == (V3 { x: 0, y: 0, z: 0 }),
    {
        Vec3 { x: 0, y: 0, z: 0 }
    }

    /// Componentwise sum.
    pub fn add(&self, o: &Vec3) -> (r: Vec3)
        ensures
            r@ == v3_add_s(self@, o@),
    {
        Vec3 { x: fx_add(self.x, o.x), y: fx_add(self.y, o.y), z: fx_add(self.z, o.z) }
    }

    /// Componentwise difference.
    pub fn sub(&self, o: &Vec3) -> (r: Vec3)
        ensures
            r@ == v3_sub_s(self@, o@),
    {
        Vec3 { x: fx_sub(self.x, o.x), y: fx_sub(self.y, o.y), z: fx_sub(self.z, o.z) }
    }

    /// Componentwise negation.
    pub fn neg(&self) -> (r: Vec3)
        ensures
            r@ == v3_neg_s(self@),
    {
        Vec3 { x: fx_neg(self.x), y: fx_neg(self.y), z: fx_neg(self.z) }
    }

    /// The vector scaled by a scalar.
    pub fn scale(&self, s: i64) -> (r: Vec3)
        ensures
            r@ == v3_scale_s(self@, s as int),
    {
        Vec3 { x: fx_mul(self.x, s), y: fx_mul(self.y, s), z: fx_mul(self.z, s) }
    }

    /// The vector divided by a scalar.
    pub fn div(&self, s: i64) -> (r: Vec3)
        ensures
            r@ == v3_div_s(self@, s as int),
    {
        Vec3 { x: fx_div(self.x, s), y: fx_div(self.y, s), z: fx_div(self.z, s) }
    }

    /// Componentwise product.
    pub fn cmul(&self, o: &Vec3) -> (r: Vec3)
        ensures
            r@ == v3_cmul_s(self@, o@),
    {
        Vec3 { x: fx_mul(self.x, o.x), y: fx_mul(self.y, o.y), z: fx_mul(self.z, o.z) }
    }

    /// Dot product.
    pub fn dot(&self, o: &Vec3) -> (r: i64)
        ensures
            r as int == v3_dot_s(self@, o@),
    {
        fx_add(fx_add(fx_mul(self.x, o.x), fx_mul(self.y, o.y)), fx_mul(self.z, o.z))
    }

    /// Cross product.
    pub fn cross(&self, o: &Vec3) -> (r: Vec3)
        ensures
            r@ == v3_cross_s(self@, o@),
    {
        Vec3 {
            x: fx_sub(fx_mul(self.y, o.z), fx_mul(self.z, o.y)),
            y: fx_sub(fx_mul(self.z, o.x), fx_mul(self.x, o.z)),
            z: fx_sub(fx_mul(self.x, o.y), fx_mul(self.y, o.x)),
        }
    }

    /// Euclidean norm.
    pub fn norm(&self) -> (r: i64)
        ensures
            r as int == v3_norm_s(self@),
    {
        fx_sqrt(self.dot(self))
    }

    /// The unit vector in this direction, or zero when the norm is zero.
    pub fn normalize(&self) -> (r: Vec3)
        ensures
            r@ == v3_normalize_s(self@),
    {
        let n = self.norm();
        if n == 0 {
            Vec3::zero()
        } else {
            self.div(n)
        }
    }
}

} // verus!
