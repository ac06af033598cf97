//! The four holonomic constraint kinds and their per-tick evaluators.
//!
//! Each constraint contributes one row to the Jacobian and exposes a
//! positional violation C, a velocity-level violation Ċ, an analytic
//! J̇·q̇ term, an optional second-derivative term, and a visualization
//! descriptor.  The kinds form a closed sum type, so dispatch is a
//! pattern match.  Every evaluator's exact fixed-point result is given
//! by a spec function; evaluators that divide require the exact divisor
//! to be nonzero, and the per-tick well-posedness check decides that at
//! run time so a tick can fail cleanly on degenerate geometry.

use vstd::prelude::*;
use crate::fixed::{Fix, spec_add, spec_sub, spec_mul, spec_div, spec_sqrt};
use crate::vec2::{Vec2, spec_dot, spec_norm, spec_norm_sq};
use crate::body::BodyId;

verus! {

/// What a constraint asks the renderer to draw; body references are
/// dense solver indices.
#[derive(Clone, Copy, PartialEq, Eq, Structural, Debug)]
pub enum ConstraintWidget {
    /// Nothing to draw.
    Hidden,
    /// A segment between two bodies.
    Link(usize, usize),
    /// A segment from a body to a fixed world point.
    Anchor(usize, Vec2),
    /// A line with the given unit normal and signed offset.
    Plane(Vec2, Fix),
    /// Two segments from two bodies to their respective fixed points.
    Pulley(usize, usize, Vec2, Vec2),
}

/// Keeps one body at a fixed distance from a world-space point.
#[derive(Clone, Copy, PartialEq, Eq, Structural, Debug)]
pub struct AnchorConstraint {
    pub body: BodyId,
    pub anchor: Vec2,
    pub distance: Fix,
}

/// Keeps two bodies at a fixed distance from each other.
#[derive(Clone, Copy, PartialEq, Eq, Structural, Debug)]
pub struct DistanceConstraint {
    pub body_a: BodyId,
    pub body_b: BodyId,
    pub distance: Fix,
}

/// Keeps a body's projection onto a unit normal equal to a constant.
#[derive(Clone, Copy, PartialEq, Eq, Structural, Debug)]
pub struct PlaneConstraint {
    pub body: BodyId,
    pub normal: Vec2,
    pub origin: Fix,
}

/// Keeps the sum of two anchor-to-body distances constant.
#[derive(Clone, Copy, PartialEq, Eq, Structural, Debug)]
pub struct PulleyConstraint {
    pub body_a: BodyId,
    pub body_b: BodyId,
    pub anchor_a: Vec2,
    pub anchor_b: Vec2,
    pub distance: Fix,
}

/// The closed set of constraint kinds.
#[derive(Clone, Copy, PartialEq, Eq, Structural, Debug)]
pub enum Constraint {
    Anchor(AnchorConstraint),
    Distance(DistanceConstraint),
    Plane(PlaneConstraint),
    Pulley(PulleyConstraint),
}

/// Raw length of the gap vector `a - b`.
pub open spec fn spec_gap_norm(a: Vec2, b: Vec2) -> int {
    spec_norm(spec_sub(a.x@, b.x@), spec_sub(a.y@, b.y@))
}

/// Raw squared length of the gap vector `a - b`.
pub open spec fn spec_gap_norm_sq(a: Vec2, b: Vec2) -> int {
    spec_norm_sq(spec_sub(a.x@, b.x@), spec_sub(a.y@, b.y@))
}

/// Raw value of ns^(3/2), computed as ns * sqrt(ns): the divisor of
/// every J̇·q̇ term.
pub open spec fn spec_pow32(ns: int) -> int {
    spec_mul(ns, spec_sqrt(ns))
}

/// Raw value of ns^(5/2), computed as (ns * ns) * sqrt(ns): the divisor
/// of the second-derivative correction's second part.
pub open spec fn spec_pow52(ns: int) -> int {
    spec_mul(spec_mul(ns, ns), spec_sqrt(ns))
}

/// Exact raw value of C for a gap of `rel = p - q` against a rest
/// distance: |rel| - rest.
pub open spec fn spec_gap_c(p: Vec2, q: Vec2, rest: int) -> int {
    spec_sub(spec_gap_norm(p, q), rest)
}

/// Exact raw value of Ċ for a gap: (rel · relative velocity) / |rel|.
pub open spec fn spec_gap_c_dot(rx: int, ry: int, vx: int, vy: int) -> int {
    spec_div(spec_add(spec_mul(rx, vx), spec_mul(ry, vy)), spec_norm(rx, ry))
}

/// Exact raw value of the J̇·q̇ term for a gap:
/// (rx·vy - ry·vx)^2 / ns^(3/2).
pub open spec fn spec_gap_jdot(rx: int, ry: int, vx: int, vy: int) -> int {
    let cross = spec_sub(spec_mul(rx, vy), spec_mul(ry, vx));
    spec_div(spec_mul(cross, cross), spec_pow32(spec_norm_sq(rx, ry)))
}

/// Exact raw value of the second-derivative correction term for a pair
/// of state vectors, mirroring the analytic formula
/// 2·(a·v·ns + |v|²·(v·p) - (|v|² + p·a)·(p·v)) / ns^(3/2)
///   - 3·(|v|²·ns - (p·v)²)·(p·v) / ns^(5/2).
pub open spec fn spec_gap_ddot(px: int, py: int, vx: int, vy: int, ax: int, ay: int) -> int {
    let ns = spec_norm_sq(px, py);
    let av = spec_dot(ax, ay, vx, vy);
    let vv = spec_norm_sq(vx, vy);
    let vp = spec_dot(vx, vy, px, py);
    let pa = spec_dot(px, py, ax, ay);
    let pv = spec_dot(px, py, vx, vy);
    let first = spec_mul(
        (2 * 65536) as int,
        spec_sub(spec_add(spec_mul(av, ns), spec_mul(vv, vp)), spec_mul(spec_add(vv, pa), pv)),
    );
    let second = spec_mul(spec_mul(spec_sub(spec_mul(vv, ns), spec_mul(pv, pv)), (3 * 65536) as int), pv);
    spec_sub(spec_div(first, spec_pow32(ns)), spec_div(second, spec_pow52(ns)))
}

/// Shared evaluator for the gap-style kinds (anchor and distance): both
/// constrain the length of a difference vector.
fn gap_c_dot(rel: Vec2, relv: Vec2) -> (r: Fix)
    requires
        spec_norm(rel.x@, rel.y@) != 0,
    ensures
        r@ == spec_gap_c_dot(rel.x@, rel.y@, relv.x@, relv.y@),
{
    let num: Fix = rel.x.mul(relv.x).add(rel.y.mul(relv.y));
    num.div(rel.norm())
}

fn gap_jdot(rel: Vec2, relv: Vec2) -> (r: Fix)
    requires
        spec_pow32(spec_norm_sq(rel.x@, rel.y@)) != 0,
    ensures
        r@ == spec_gap_jdot(rel.x@, rel.y@, relv.x@, relv.y@),
{
    let cross: Fix = rel.x.mul(relv.y).sub(rel.y.mul(relv.x));
    let ns: Fix = rel.norm_sq();
    let denom: Fix = ns.mul(ns.sqrt());
    cross.mul(cross).div(denom)
}

fn gap_ddot(p: Vec2, v: Vec2, a: Vec2) -> (r: Fix)
    requires
        spec_pow32(spec_norm_sq(p.x@, p.y@)) != 0,
        spec_pow52(spec_norm_sq(p.x@, p.y@)) != 0,
    ensures
        r@ == spec_gap_ddot(p.x@, p.y@, v.x@, v.y@, a.x@, a.y@),
{
    let ns: Fix = p.norm_sq();
    let av: Fix = a.dot(v);
    let vv: Fix = v.norm_sq();
    let vp: Fix = v.dot(p);
    let pa: Fix = p.dot(a);
    let pv: Fix = p.dot(v);
    let first: Fix = Fix::from_int(2).mul(av.mul(ns).add(vv.mul(vp)).sub(vv.add(pa).mul(pv)));
    let second: Fix = vv.mul(ns).sub(pv.mul(pv)).mul(Fix::from_int(3)).mul(pv);
    let denom3: Fix = ns.mul(ns.sqrt());
    let denom5: Fix = ns.mul(ns).mul(ns.sqrt());
    first.div(denom3).sub(second.div(denom5))
}

impl AnchorConstraint {
    /// Positional violation: |p - anchor| - rest distance.
    pub fn evaluate_c(&self, p: Vec2) -> (r: Fix)
        ensures
            r@ == spec_gap_c(p, self.anchor, self.distance@),
    {
        p.sub(self.anchor).norm().sub(self.distance)
    }

    /// Velocity-level violation.
    pub fn evaluate_c_dot(&self, p: Vec2, v: Vec2) -> (r: Fix)
        requires
            spec_gap_norm(p, self.anchor) != 0,
        ensures
            r@ == spec_gap_c_dot(
                spec_sub(p.x@, self.anchor.x@),
                spec_sub(p.y@, self.anchor.y@),
                v.x@,
                v.y@,
            ),
    {
        gap_c_dot(p.sub(self.anchor), v)
    }

    /// Analytic J̇·q̇ term.
    pub fn compute_j_dot_q_dot(&self, p: Vec2, v: Vec2) -> (r: Fix)
        requires
            spec_pow32(spec_gap_norm_sq(p, self.anchor)) != 0,
        ensures
            r@ == spec_gap_jdot(
                spec_sub(p.x@, self.anchor.x@),
                spec_sub(p.y@, self.anchor.y@),
                v.x@,
                v.y@,
            ),
    {
        gap_jdot(p.sub(self.anchor), v)
    }

    /// Second-derivative correction term, evaluated about the world
    /// origin.
    pub fn compute_ddot_q_dot_plus_j_dot_q_ddot(&self, p: Vec2, v: Vec2, a: Vec2) -> (r: Fix)
        requires
            spec_pow32(spec_norm_sq(p.x@, p.y@)) != 0,
            spec_pow52(spec_norm_sq(p.x@, p.y@)) != 0,
        ensures
            r@ == spec_gap_ddot(p.x@, p.y@, v.x@, v.y@, a.x@, a.y@),
    {
        gap_ddot(p, v, a)
    }
}

impl DistanceConstraint {
    /// Positional violation: |pa - pb| - rest distance.
    pub fn evaluate_c(&self, pa: Vec2, pb: Vec2) -> (r: Fix)
        ensures
            r@ == spec_gap_c(pa, pb, self.distance@),
    {
        pa.sub(pb).norm().sub(self.distance)
    }

    /// Velocity-level violation.
    pub fn evaluate_c_dot(&self, pa: Vec2, pb: Vec2, va: Vec2, vb: Vec2) -> (r: Fix)
        requires
            spec_gap_norm(pa, pb) != 0,
        ensures
            r@ == spec_gap_c_dot(
                spec_sub(pa.x@, pb.x@),
                spec_sub(pa.y@, pb.y@),
                spec_sub(va.x@, vb.x@),
                spec_sub(va.y@, vb.y@),
            ),
    {
        gap_c_dot(pa.sub(pb), va.sub(vb))
    }

    /// Analytic J̇·q̇ term.
    pub fn compute_j_dot_q_dot(&self, pa: Vec2, pb: Vec2, va: Vec2, vb: Vec2) -> (r: Fix)
        requires
            spec_pow32(spec_gap_norm_sq(pa, pb)) != 0,
        ensures
            r@ == spec_gap_jdot(
                spec_sub(pa.x@, pb.x@),
                spec_sub(pa.y@, pb.y@),
                spec_sub(va.x@, vb.x@),
                spec_sub(va.y@, vb.y@),
            ),
    {
        gap_jdot(pa.sub(pb), va.sub(vb))
    }

    /// Second-derivative correction term over the relative state.
    pub fn compute_ddot_q_dot_plus_j_dot_q_ddot(
        &self,
        pa: Vec2,
        pb: Vec2,
        va: Vec2,
        vb: Vec2,
        aa: Vec2,
        ab: Vec2,
    ) -> (r: Fix)
        requires
            spec_pow32(spec_norm_sq(spec_sub(pa.x@, pb.x@), spec_sub(pa.y@, pb.y@))) != 0,
            spec_pow52(spec_norm_sq(spec_sub(pa.x@, pb.x@), spec_sub(pa.y@, pb.y@))) != 0,
        ensures
            r@ == spec_gap_ddot(
                spec_sub(pa.x@, pb.x@),
                spec_sub(pa.y@, pb.y@),
                spec_sub(va.x@, vb.x@),
                spec_sub(va.y@, vb.y@),
                spec_sub(aa.x@, ab.x@),
                spec_sub(aa.y@, ab.y@),
            ),
    {
        gap_ddot(pa.sub(pb), va.sub(vb), aa.sub(ab))
    }
}

impl PlaneConstraint {
    /// The exact constraint [`PlaneConstraint::new`] builds.
    pub open spec fn spec_new(body: BodyId, normal: Vec2, origin: Vec2) -> PlaneConstraint {
        let n = spec_norm(normal.x@, normal.y@);
        let u = Vec2 {
            x: Fix { raw: spec_div(normal.x@, n) as i64 },
            y: Fix { raw: spec_div(normal.y@, n) as i64 },
        };
        PlaneConstraint {
            body,
            normal: u,
            origin: Fix { raw: spec_dot(u.x@, u.y@, origin.x@, origin.y@) as i64 },
        }
    }

    /// Builds the constraint from any nonzero normal and a point on the
    /// plane: the normal is normalized and the offset is its dot with
    /// the point.
    pub fn new(body: BodyId, normal: Vec2, origin: Vec2) -> (r: PlaneConstraint)
        requires
            spec_norm(normal.x@, normal.y@) != 0,
        ensures
            r == Self::spec_new(body, normal, origin),
    {
        let unit: Vec2 = normal.unit();
        PlaneConstraint { body, normal: unit, origin: unit.dot(origin) }
    }

    /// Positional violation: p·n - offset.
    pub fn evaluate_c(&self, p: Vec2) -> (r: Fix)
        ensures
            r@ == spec_sub(spec_dot(p.x@, p.y@, self.normal.x@, self.normal.y@), self.origin@),
    {
        p.dot(self.normal).sub(self.origin)
    }

    /// Velocity-level violation: v·n.
    pub fn evaluate_c_dot(&self, v: Vec2) -> (r: Fix)
        ensures
            r@ == spec_dot(v.x@, v.y@, self.normal.x@, self.normal.y@),
    {
        v.dot(self.normal)
    }
}

impl PulleyConstraint {
    /// Positional violation: |pa - anchor_a| + |pb - anchor_b| - rope
    /// length.
    pub fn evaluate_c(&self, pa: Vec2, pb: Vec2) -> (r: Fix)
        ensures
            r@ == spec_sub(
                spec_add(spec_gap_norm(pa, self.anchor_a), spec_gap_norm(pb, self.anchor_b)),
                self.distance@,
            ),
    {
        pa.sub(self.anchor_a).norm().add(pb.sub(self.anchor_b).norm()).sub(self.distance)
    }

    /// Analytic J̇·q̇ term: the two rope sides' terms added.
    pub fn compute_j_dot_q_dot(&self, pa: Vec2, pb: Vec2, va: Vec2, vb: Vec2) -> (r: Fix)
        requires
            spec_pow32(spec_gap_norm_sq(pa, self.anchor_a)) != 0,
            spec_pow32(spec_gap_norm_sq(pb, self.anchor_b)) != 0,
        ensures
            r@ == spec_add(
                spec_gap_jdot(
                    spec_sub(pa.x@, self.anchor_a.x@),
                    spec_sub(pa.y@, self.anchor_a.y@),
                    va.x@,
                    va.y@,
                ),
                spec_gap_jdot(
                    spec_sub(pb.x@, self.anchor_b.x@),
                    spec_sub(pb.y@, self.anchor_b.y@),
                    vb.x@,
                    vb.y@,
                ),
            ),
    {
        gap_jdot(pa.sub(self.anchor_a), va).add(gap_jdot(pb.sub(self.anchor_b), vb))
    }
}

} // verus!
