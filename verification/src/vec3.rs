//! 3D vectors of single-precision scalars.
//!
//! Each executable operation has a spec twin that states its result exactly
//! as a composition of the named soft-float operations, in the association
//! order in which the executable code performs them.

use vstd::prelude::*;

use crate::scalar::{
    s_add, s_div, s_mul, s_sqrt, s_sub, sf_add, sf_div, sf_mul, sf_sqrt, sf_sub, Scalar, ONE_BITS,
};

verus! {

/// A 3D vector of single-precision scalars.
#[derive(Clone, Copy, PartialEq, Eq, Structural, Debug)]
pub struct V3 {
    pub x: Scalar,
    pub y: Scalar,
    pub z: Scalar,
}

impl V3 {
    /// The componentwise sum.
    pub open spec fn spec_add(self, b: V3) -> V3 {
        V3 { x: s_add(self.x, b.x), y: s_add(self.y, b.y), z: s_add(self.z, b.z) }
    }

    /// The componentwise difference.
    pub open spec fn spec_sub(self, b: V3) -> V3 {
        V3 { x: s_sub(self.x, b.x), y: s_sub(self.y, b.y), z: s_sub(self.z, b.z) }
    }

    /// The dot product, summed left to right.
    pub open spec fn spec_dot(self, b: V3) -> Scalar {
        s_add(s_add(s_mul(self.x, b.x), s_mul(self.y, b.y)), s_mul(self.z, b.z))
    }

    /// The cross product.
    pub open spec fn spec_cross(self, b: V3) -> V3 {
        V3 {
            x: s_sub(s_mul(self.y, b.z), s_mul(b.y, self.z)),
            y: s_sub(s_mul(self.z, b.x), s_mul(b.z, self.x)),
            z: s_sub(s_mul(self.x, b.y), s_mul(b.x, self.y)),
        }
    }

    /// Each component multiplied by `s`.
    pub open spec fn spec_scale(self, s: Scalar) -> V3 {
        V3 { x: s_mul(self.x, s), y: s_mul(self.y, s), z: s_mul(self.z, s) }
    }

    /// The squared Euclidean norm.
    pub open spec fn spec_squared_norm(self) -> Scalar {
        s_add(s_add(s_mul(self.x, self.x), s_mul(self.y, self.y)), s_mul(self.z, self.z))
    }

    /// The Euclidean norm.
    pub open spec fn spec_norm(self) -> Scalar {
        s_sqrt(self.spec_squared_norm())
    }

    /// The vector scaled by the reciprocal of its norm.
    pub open spec fn spec_normalize(self) -> V3 {
        self.spec_scale(s_div(Scalar { bits: ONE_BITS }, self.spec_norm()))
    }

    /// `self * alpha + y`, componentwise.
    pub open spec fn spec_axpy(self, alpha: Scalar, y: V3) -> V3 {
        self.spec_scale(alpha).spec_add(y)
    }

    /// The vector with the given components.
    pub fn new(x: Scalar, y: Scalar, z: Scalar) -> (r: V3)
        ensures
            r == (V3 { x, y, z }),
    {
        V3 { x, y, z }
    }

    /// The componentwise sum.
    pub fn add(self, b: V3) -> (r: V3)
        ensures
            r == self.spec_add(b),
    {
        V3 { x: sf_add(self.x, b.x), y: sf_add(self.y, b.y), z: sf_add(self.z, b.z) }
    }

    /// The componentwise difference.
    pub fn sub(self, b: V3) -> (r: V3)
        ensures
            r == self.spec_sub(b),
    {
        V3 { x: sf_sub(self.x, b.x), y: sf_sub(self.y, b.y), z: sf_sub(self.z, b.z) }
    }

    /// The dot product, summed left to right.
    pub fn dot(self, b: V3) -> (r: Scalar)
        ensures
            r == self.spec_dot(b),
    {
        sf_add(sf_add(sf_mul(self.x, b.x), sf_mul(self.y, b.y)), sf_mul(self.z, b.z))
    }

    /// The cross product.
    pub fn cross(self, b: V3) -> (r: V3)
        ensures
            r == self.spec_cross(b),
    {
        V3 {
            x: sf_sub(sf_mul(self.y, b.z), sf_mul(b.y, self.z)),
            y: sf_sub(sf_mul(self.z, b.x), sf_mul(b.z, self.x)),
            z: sf_sub(sf_mul(self.x, b.y), sf_mul(b.x, self.y)),
        }
    }

    /// Each component multiplied by `s`.
    pub fn scale(self, s: Scalar) -> (r: V3)
        ensures
            r == self.spec_scale(s),
    {
        V3 { x: sf_mul(self.x, s), y: sf_mul(self.y, s), z: sf_mul(self.z, s) }
    }

    /// The squared Euclidean norm.
    pub fn squared_norm(self) -> (r: Scalar)
        ensures
            r == self.spec_squared_norm(),
    {
        sf_add(
            sf_add(sf_mul(self.x, self.x), sf_mul(self.y, self.y)),
            sf_mul(self.z, self.z),
        )
    }

    /// The Euclidean norm.
    pub fn norm(self) -> (r: Scalar)
        ensures
            r == self.spec_norm(),
    {
        sf_sqrt(self.squared_norm())
    }

    /// The vector scaled by the reciprocal of its norm.
    pub fn normalize(self) -> (r: V3)
        ensures
            r == self.spec_normalize(),
    {
        let l = self.norm();
        let linv = sf_div(Scalar { bits: ONE_BITS }, l);
        self.scale(linv)
    }

    /// `self * alpha + y`, componentwise.
    pub fn axpy(self, alpha: Scalar, y: V3) -> (r: V3)
        ensures
            r == self.spec_axpy(alpha, y),
    {
        self.scale(alpha).add(y)
    }
}

} // verus!
