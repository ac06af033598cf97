//! Two-dimensional fixed-point vectors.
//!
//! Bodies are dimensionless point masses in the plane, so positions,
//! velocities, accelerations and forces are all [`Vec2`] values.  Each
//! operation's result is pinned componentwise by the scalar layer's
//! exact specifications.

use vstd::prelude::*;
use crate::fixed::{Fix, spec_add, spec_sub, spec_neg, spec_mul, spec_div, spec_sqrt};

verus! {

/// A planar vector with fixed-point components.
#[derive(Clone, Copy, PartialEq, Eq, Structural, Debug)]
pub struct Vec2 {
    pub x: Fix,
    pub y: Fix,
}

/// Raw value of the dot product of two vectors, with the product terms
/// combined left to right.
pub open spec fn spec_dot(ax: int, ay: int, bx: int, by: int) -> int {
    spec_add(spec_mul(ax, bx), spec_mul(ay, by))
}

/// Raw value of the squared length of a vector.
pub open spec fn spec_norm_sq(x: int, y: int) -> int {
    spec_dot(x, y, x, y)
}

/// Raw value of the length of a vector.
pub open spec fn spec_norm(x: int, y: int) -> int {
    spec_sqrt(spec_norm_sq(x, y))
}

/// A fixed-point square is never negative.
pub proof fn lemma_square_nonneg(a: int)
    ensures
        spec_mul(a, a) >= 0,
{
    assert(a * a >= 0) by (nonlinear_arith);
}

/// A squared length is never negative.
pub proof fn lemma_norm_sq_nonneg(x: int, y: int)
    ensures
        spec_norm_sq(x, y) >= 0,
{
    lemma_square_nonneg(x);
    lemma_square_nonneg(y);
}

impl Vec2 {
    /// The vector with the given components.
    pub fn new(x: Fix, y: Fix) -> (r: Vec2)
        ensures
            r.x@ == x@,
            r.y@ == y@,
    {
        Vec2 { x, y }
    }

    /// The zero vector.
    pub fn zero() -> (r: Vec2)
        ensures
            r.x@ == 0,
            r.y@ == 0,
    {
        Vec2 { x: Fix::zero(), y: Fix::zero() }
    }

    /// Componentwise sum.
    pub fn add(self, other: Vec2) -> (r: Vec2)
        ensures
            r.x@ == spec_add(self.x@, other.x@),
            r.y@ == spec_add(self.y@, other.y@),
    {
        Vec2 { x: self.x.add(other.x), y: self.y.add(other.y) }
    }

    /// Componentwise difference.
    pub fn sub(self, other: Vec2) -> (r: Vec2)
        ensures
            r.x@ == spec_sub(self.x@, other.x@),
            r.y@ == spec_sub(self.y@, other.y@),
    {
        Vec2 { x: self.x.sub(other.x), y: self.y.sub(other.y) }
    }

    /// Componentwise negation.
    pub fn neg(self) -> (r: Vec2)
        ensures
            r.x@ == spec_neg(self.x@),
            r.y@ == spec_neg(self.y@),
    {
        Vec2 { x: self.x.neg(), y: self.y.neg() }
    }

    /// The vector scaled by a fixed-point factor.
    pub fn scale(self, k: Fix) -> (r: Vec2)
        ensures
            r.x@ == spec_mul(self.x@, k@),
            r.y@ == spec_mul(self.y@, k@),
    {
        Vec2 { x: self.x.mul(k), y: self.y.mul(k) }
    }

    /// Dot product.
    pub fn dot(self, other: Vec2) -> (r: Fix)
        ensures
            r@ == spec_dot(self.x@, self.y@, other.x@, other.y@),
    {
        self.x.mul(other.x).add(self.y.mul(other.y))
    }

    /// Squared length.
    pub fn norm_sq(self) -> (r: Fix)
        ensures
            r@ == spec_norm_sq(self.x@, self.y@),
            r@ >= 0,
    {
        proof {
            lemma_norm_sq_nonneg(self.x@, self.y@);
        }
        self.dot(self)
    }

    /// Length.
    pub fn norm(self) -> (r: Fix)
        ensures
            r@ == spec_norm(self.x@, self.y@),
            r@ >= 0,
    {
        self.norm_sq().sqrt()
    }

    /// The vector divided by its own length.
    pub fn unit(self) -> (r: Vec2)
        requires
            spec_norm(self.x@, self.y@) != 0,
        ensures
            r.x@ == spec_div(self.x@, spec_norm(self.x@, self.y@)),
            r.y@ == spec_div(self.y@, spec_norm(self.x@, self.y@)),
    {
        let n: Fix = self.norm();
        Vec2 { x: self.x.div(n), y: self.y.div(n) }
    }
}

} // verus!
