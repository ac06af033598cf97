//! Per-tick linear-system assembly, shared by every solver strategy:
//! the constraint Jacobian J, the diagonal inverse-mass matrix M⁻¹, the
//! external force vector, and the scalar constraint vectors C, Ċ, J̇·q̇
//! and the second-derivative correction.
//!
//! Each assembled entry is pinned exactly.  The Jacobian contract also
//! states the shape law: M rows, 2N columns, and nonzero entries only
//! in the two columns of each constraint's participating bodies.

use vstd::prelude::*;
use crate::fixed::{Fix, iabs, sat64, spec_add, spec_sub, spec_neg, spec_mul, spec_div};
use crate::vec2::{Vec2, spec_dot, spec_norm_sq};
use crate::body::Body;
use crate::constraints::{
    Constraint, spec_gap_c, spec_gap_c_dot, spec_gap_ddot, spec_gap_jdot, spec_gap_norm,
    spec_gap_norm_sq, spec_pow32, spec_pow52,
};
use crate::matrix::{Matrix, rows_of};
use crate::world::GameContent;

verus! {

/// Raw x component of the gap `p - q`.
pub open spec fn gx(p: Vec2, q: Vec2) -> int {
    spec_sub(p.x@, q.x@)
}

/// Raw y component of the gap `p - q`.
pub open spec fn gy(p: Vec2, q: Vec2) -> int {
    spec_sub(p.y@, q.y@)
}

/// Whether the constraint's evaluators can divide in the current state:
/// every gap it normalizes has nonzero length and a nonzero J̇·q̇
/// divisor.
pub open spec fn spec_well_posed_at(c: Constraint, bodies: Seq<Body>) -> bool {
    match c {
        Constraint::Anchor(a) => {
            let p = bodies[a.body.0 as int].pos;
            spec_gap_norm(p, a.anchor) != 0 && spec_pow32(spec_gap_norm_sq(p, a.anchor)) != 0
        },
        Constraint::Distance(d) => {
            let pa = bodies[d.body_a.0 as int].pos;
            let pb = bodies[d.body_b.0 as int].pos;
            spec_gap_norm(pa, pb) != 0 && spec_pow32(spec_gap_norm_sq(pa, pb)) != 0
        },
        Constraint::Plane(_) => true,
        Constraint::Pulley(p) => {
            let pa = bodies[p.body_a.0 as int].pos;
            let pb = bodies[p.body_b.0 as int].pos;
            spec_gap_norm(pa, p.anchor_a) != 0 && spec_gap_norm(pb, p.anchor_b) != 0
                && spec_pow32(spec_gap_norm_sq(pa, p.anchor_a)) != 0 && spec_pow32(
                spec_gap_norm_sq(pb, p.anchor_b),
            ) != 0
        },
    }
}

/// Whether the constraint's second-derivative term can divide: its
/// divisors over the jerk state are nonzero.  Only the strategy that
/// uses that term asks for this.
pub open spec fn spec_jerk_posed_at(c: Constraint, bodies: Seq<Body>) -> bool {
    match c {
        Constraint::Anchor(a) => {
            let p = bodies[a.body.0 as int].pos;
            spec_pow32(spec_norm_sq(p.x@, p.y@)) != 0 && spec_pow52(spec_norm_sq(p.x@, p.y@)) != 0
        },
        Constraint::Distance(d) => {
            let pa = bodies[d.body_a.0 as int].pos;
            let pb = bodies[d.body_b.0 as int].pos;
            spec_pow32(spec_norm_sq(gx(pa, pb), gy(pa, pb))) != 0 && spec_pow52(
                spec_norm_sq(gx(pa, pb), gy(pa, pb)),
            ) != 0
        },
        Constraint::Plane(_) => true,
        Constraint::Pulley(_) => true,
    }
}

/// Raw positional violation C of one constraint.
pub open spec fn spec_c_at(c: Constraint, bodies: Seq<Body>) -> int {
    match c {
        Constraint::Anchor(a) => spec_gap_c(bodies[a.body.0 as int].pos, a.anchor, a.distance@),
        Constraint::Distance(d) => spec_gap_c(
            bodies[d.body_a.0 as int].pos,
            bodies[d.body_b.0 as int].pos,
            d.distance@,
        ),
        Constraint::Plane(p) => {
            let pos = bodies[p.body.0 as int].pos;
            spec_sub(spec_dot(pos.x@, pos.y@, p.normal.x@, p.normal.y@), p.origin@)
        },
        Constraint::Pulley(p) => spec_sub(
            spec_add(
                spec_gap_norm(bodies[p.body_a.0 as int].pos, p.anchor_a),
                spec_gap_norm(bodies[p.body_b.0 as int].pos, p.anchor_b),
            ),
            p.distance@,
        ),
    }
}

/// Raw velocity-level violation Ċ of one constraint.  The pulley kind
/// contributes none.
pub open spec fn spec_c_dot_at(c: Constraint, bodies: Seq<Body>) -> int {
    match c {
        Constraint::Anchor(a) => {
            let b = bodies[a.body.0 as int];
            spec_gap_c_dot(gx(b.pos, a.anchor), gy(b.pos, a.anchor), b.vel.x@, b.vel.y@)
        },
        Constraint::Distance(d) => {
            let ba = bodies[d.body_a.0 as int];
            let bb = bodies[d.body_b.0 as int];
            spec_gap_c_dot(
                gx(ba.pos, bb.pos),
                gy(ba.pos, bb.pos),
                spec_sub(ba.vel.x@, bb.vel.x@),
                spec_sub(ba.vel.y@, bb.vel.y@),
            )
        },
        Constraint::Plane(p) => {
            let v = bodies[p.body.0 as int].vel;
            spec_dot(v.x@, v.y@, p.normal.x@, p.normal.y@)
        },
        Constraint::Pulley(_) => 0,
    }
}

/// Raw analytic J̇·q̇ term of one constraint.  The plane kind's term is
/// identically zero.
pub open spec fn spec_jdq_at(c: Constraint, bodies: Seq<Body>) -> int {
    match c {
        Constraint::Anchor(a) => {
            let b = bodies[a.body.0 as int];
            spec_gap_jdot(gx(b.pos, a.anchor), gy(b.pos, a.anchor), b.vel.x@, b.vel.y@)
        },
        Constraint::Distance(d) => {
            let ba = bodies[d.body_a.0 as int];
            let bb = bodies[d.body_b.0 as int];
            spec_gap_jdot(
                gx(ba.pos, bb.pos),
                gy(ba.pos, bb.pos),
                spec_sub(ba.vel.x@, bb.vel.x@),
                spec_sub(ba.vel.y@, bb.vel.y@),
            )
        },
        Constraint::Plane(_) => 0,
        Constraint::Pulley(p) => {
            let ba = bodies[p.body_a.0 as int];
            let bb = bodies[p.body_b.0 as int];
            spec_add(
                spec_gap_jdot(gx(ba.pos, p.anchor_a), gy(ba.pos, p.anchor_a), ba.vel.x@, ba.vel.y@),
                spec_gap_jdot(gx(bb.pos, p.anchor_b), gy(bb.pos, p.anchor_b), bb.vel.x@, bb.vel.y@),
            )
        },
    }
}

/// Raw second-derivative correction term of one constraint, over jerk
/// state whose acceleration accumulators hold gravity times mass.
pub open spec fn spec_ddot_at(c: Constraint, bodies: Seq<Body>) -> int {
    match c {
        Constraint::Anchor(a) => {
            let b = bodies[a.body.0 as int];
            spec_gap_ddot(b.pos.x@, b.pos.y@, b.vel.x@, b.vel.y@, b.accel.x@, b.accel.y@)
        },
        Constraint::Distance(d) => {
            let ba = bodies[d.body_a.0 as int];
            let bb = bodies[d.body_b.0 as int];
            spec_gap_ddot(
                gx(ba.pos, bb.pos),
                gy(ba.pos, bb.pos),
                spec_sub(ba.vel.x@, bb.vel.x@),
                spec_sub(ba.vel.y@, bb.vel.y@),
                spec_sub(ba.accel.x@, bb.accel.x@),
                spec_sub(ba.accel.y@, bb.accel.y@),
            )
        },
        Constraint::Plane(_) => 0,
        Constraint::Pulley(_) => 0,
    }
}

/// The stacked velocity vector of a body sequence, in dense order.
pub open spec fn qdot_of(bodies: Seq<Body>) -> Seq<Fix> {
    Seq::new(
        2 * bodies.len(),
        |t: int| if t % 2 == 0 { bodies[t / 2].vel.x } else { bodies[t / 2].vel.y },
    )
}

/// The external force vector of a body sequence: gravity times mass,
/// per body and axis.
pub open spec fn force_of(bodies: Seq<Body>, g: Vec2) -> Seq<Fix> {
    Seq::new(
        2 * bodies.len(),
        |t: int|
            Fix {
                raw: (if t % 2 == 0 {
                    spec_mul(g.x@, bodies[t / 2].mass@)
                } else {
                    spec_mul(g.y@, bodies[t / 2].mass@)
                }) as i64,
            },
    )
}

/// The C vector of a constraint set over a body sequence.
pub open spec fn c_of(cs: Seq<Constraint>, bodies: Seq<Body>) -> Seq<Fix> {
    Seq::new(cs.len(), |k: int| Fix { raw: spec_c_at(cs[k], bodies) as i64 })
}

/// The Ċ vector of a constraint set over a body sequence.
pub open spec fn cdot_of(cs: Seq<Constraint>, bodies: Seq<Body>) -> Seq<Fix> {
    Seq::new(cs.len(), |k: int| Fix { raw: spec_c_dot_at(cs[k], bodies) as i64 })
}

/// The J̇·q̇ vector of a constraint set over a body sequence.
pub open spec fn jdq_of(cs: Seq<Constraint>, bodies: Seq<Body>) -> Seq<Fix> {
    Seq::new(cs.len(), |k: int| Fix { raw: spec_jdq_at(cs[k], bodies) as i64 })
}

/// The second-derivative correction vector of a constraint set over a
/// body sequence.
pub open spec fn ddot_of(cs: Seq<Constraint>, bodies: Seq<Body>) -> Seq<Fix> {
    Seq::new(cs.len(), |k: int| Fix { raw: spec_ddot_at(cs[k], bodies) as i64 })
}

/// The Jacobian of a constraint set over a body sequence, as rows.
pub open spec fn j_rows_of(cs: Seq<Constraint>, bodies: Seq<Body>) -> Seq<Seq<Fix>> {
    Seq::new(
        cs.len(),
        |k: int|
            Seq::new(
                2 * bodies.len(),
                |c: int| Fix { raw: spec_j_entry(cs[k], bodies, c) as i64 },
            ),
    )
}

/// The diagonal inverse-mass matrix of a body sequence, as rows.
pub open spec fn w_rows_of(bodies: Seq<Body>) -> Seq<Seq<Fix>> {
    Seq::new(
        2 * bodies.len(),
        |i: int|
            Seq::new(
                2 * bodies.len(),
                |j: int|
                    Fix { raw: (if i == j { bodies[i / 2].inv_mass@ } else { 0 }) as i64 },
            ),
    )
}

/// The body sequence with every acceleration accumulator charged with
/// gravity times mass.
pub open spec fn charged_bodies(bodies: Seq<Body>, g: Vec2) -> Seq<Body> {
    Seq::new(
        bodies.len(),
        |i: int|
            Body {
                accel: Vec2 {
                    x: Fix { raw: spec_mul(g.x@, bodies[i].mass@) as i64 },
                    y: Fix { raw: spec_mul(g.y@, bodies[i].mass@) as i64 },
                },
                ..bodies[i]
            },
    )
}

/// The C vector of a state, as a sequence: one positional violation per
/// constraint, a function of the positions alone.
pub open spec fn spec_c_seq(s: GameContent) -> Seq<Fix> {
    c_of(s.constraints@, s.bodies@)
}

/// C reads only positions, so passes that only move velocities keep it.
pub proof fn lemma_c_positions_only(a: GameContent, b: GameContent)
    requires
        a.constraints_in_range(),
        b.constraints@ == a.constraints@,
        b.n() == a.n(),
        forall|i: int| 0 <= i < a.n() ==> (#[trigger] b.bodies@[i]).pos == a.bodies@[i].pos,
    ensures
        spec_c_seq(b) == spec_c_seq(a),
{
    assert forall|k: int|
        0 <= k < b.constraints@.len() implies spec_c_at(b.constraints@[k], b.bodies@) == spec_c_at(
        #[trigger] a.constraints@[k],
        a.bodies@,
    ) by {
        match a.constraints@[k] {
            Constraint::Anchor(an) => {
                assert(b.bodies@[an.body.0 as int].pos == a.bodies@[an.body.0 as int].pos);
            },
            Constraint::Distance(d) => {
                assert(b.bodies@[d.body_a.0 as int].pos == a.bodies@[d.body_a.0 as int].pos);
                assert(b.bodies@[d.body_b.0 as int].pos == a.bodies@[d.body_b.0 as int].pos);
            },
            Constraint::Plane(p) => {
                assert(b.bodies@[p.body.0 as int].pos == a.bodies@[p.body.0 as int].pos);
            },
            Constraint::Pulley(p) => {
                assert(b.bodies@[p.body_a.0 as int].pos == a.bodies@[p.body_a.0 as int].pos);
                assert(b.bodies@[p.body_b.0 as int].pos == a.bodies@[p.body_b.0 as int].pos);
            },
        }
    }
    assert(spec_c_seq(b) =~= spec_c_seq(a));
}

/// Whether body `b` (as a dense index) participates in the constraint.
pub open spec fn participates(c: Constraint, b: int) -> bool {
    match c {
        Constraint::Anchor(a) => a.body.0 == b,
        Constraint::Distance(d) => d.body_a.0 == b || d.body_b.0 == b,
        Constraint::Plane(p) => p.body.0 == b,
        Constraint::Pulley(p) => p.body_a.0 == b || p.body_b.0 == b,
    }
}

/// Raw Jacobian entry of constraint `c` in column `col`: the normalized
/// gradient of its violation with respect to that coordinate, zero off
/// the participating bodies' columns.  Where one body fills a column
/// twice (a self-constraint), the later write wins, as the row is
/// filled left to right per body.
pub open spec fn spec_j_entry(c: Constraint, bodies: Seq<Body>, col: int) -> int {
    match c {
        Constraint::Anchor(a) => {
            let p = bodies[a.body.0 as int].pos;
            let gn = spec_gap_norm(p, a.anchor);
            if col == 2 * a.body.0 {
                spec_div(gx(p, a.anchor), gn)
            } else if col == 2 * a.body.0 + 1 {
                spec_div(gy(p, a.anchor), gn)
            } else {
                0
            }
        },
        Constraint::Distance(d) => {
            let pa = bodies[d.body_a.0 as int].pos;
            let pb = bodies[d.body_b.0 as int].pos;
            let gn = spec_gap_norm(pa, pb);
            if col == 2 * d.body_b.0 {
                spec_neg(spec_div(gx(pa, pb), gn))
            } else if col == 2 * d.body_b.0 + 1 {
                spec_neg(spec_div(gy(pa, pb), gn))
            } else if col == 2 * d.body_a.0 {
                spec_div(gx(pa, pb), gn)
            } else if col == 2 * d.body_a.0 + 1 {
                spec_div(gy(pa, pb), gn)
            } else {
                0
            }
        },
        Constraint::Plane(p) => {
            if col == 2 * p.body.0 {
                p.normal.x@
            } else if col == 2 * p.body.0 + 1 {
                p.normal.y@
            } else {
                0
            }
        },
        Constraint::Pulley(p) => {
            let pa = bodies[p.body_a.0 as int].pos;
            let pb = bodies[p.body_b.0 as int].pos;
            let gna = spec_gap_norm(pa, p.anchor_a);
            let gnb = spec_gap_norm(pb, p.anchor_b);
            if col == 2 * p.body_b.0 {
                spec_div(gx(pb, p.anchor_b), gnb)
            } else if col == 2 * p.body_b.0 + 1 {
                spec_div(gy(pb, p.anchor_b), gnb)
            } else if col == 2 * p.body_a.0 {
                spec_div(gx(pa, p.anchor_a), gna)
            } else if col == 2 * p.body_a.0 + 1 {
                spec_div(gy(pa, p.anchor_a), gna)
            } else {
                0
            }
        },
    }
}

/// A column outside a constraint's participating bodies holds zero.
pub proof fn lemma_j_entry_off(c: Constraint, bodies: Seq<Body>, col: int)
    requires
        col >= 0,
        !participates(c, col / 2),
    ensures
        spec_j_entry(c, bodies, col) == 0,
{
    assert(2 * (col / 2) <= col && col < 2 * (col / 2) + 2);
}

/// Every constraint of the set can evaluate its first-derivative
/// quantities over the given bodies.
pub open spec fn wp_of(cs: Seq<Constraint>, bodies: Seq<Body>) -> bool {
    forall|k: int| 0 <= k < cs.len() ==> spec_well_posed_at(#[trigger] cs[k], bodies)
}

/// Every constraint of the set can evaluate its second-derivative term
/// over the given bodies.
pub open spec fn jp_of(cs: Seq<Constraint>, bodies: Seq<Body>) -> bool {
    forall|k: int| 0 <= k < cs.len() ==> spec_jerk_posed_at(#[trigger] cs[k], bodies)
}

impl GameContent {
    /// Every constraint can evaluate its first-derivative quantities in
    /// the current state.
    pub open spec fn all_well_posed(self) -> bool {
        wp_of(self.constraints@, self.bodies@)
    }

    /// Every constraint can evaluate its second-derivative term in the
    /// current state.
    pub open spec fn all_jerk_posed(self) -> bool {
        jp_of(self.constraints@, self.bodies@)
    }

    /// Decides whether every constraint's divisors are nonzero right
    /// now; a failed check makes the tick fail cleanly instead of
    /// dividing by zero.
    pub fn check_well_posed(&self) -> (r: bool)
        requires
            self.constraints_in_range(),
        ensures
            r == self.all_well_posed(),
    {
        let mc: usize = self.constraints.len();
        let mut k: usize = 0;
        while k < mc
            invariant
                mc == self.m(),
                k <= mc,
                self.constraints_in_range(),
                forall|k2: int|
                    0 <= k2 < k ==> spec_well_posed_at(
                        #[trigger] self.constraints@[k2],
                        self.bodies@,
                    ),
            decreases mc - k,
        {
            let ok: bool = match self.constraints[k] {
                Constraint::Anchor(a) => {
                    let rel: Vec2 = self.bodies[a.body.0].pos.sub(a.anchor);
                    let ns: Fix = rel.norm_sq();
                    rel.norm().raw != 0 && ns.mul(ns.sqrt()).raw != 0
                },
                Constraint::Distance(d) => {
                    let rel: Vec2 = self.bodies[d.body_a.0].pos.sub(self.bodies[d.body_b.0].pos);
                    let ns: Fix = rel.norm_sq();
                    rel.norm().raw != 0 && ns.mul(ns.sqrt()).raw != 0
                },
                Constraint::Plane(_) => true,
                Constraint::Pulley(p) => {
                    let rela: Vec2 = self.bodies[p.body_a.0].pos.sub(p.anchor_a);
                    let relb: Vec2 = self.bodies[p.body_b.0].pos.sub(p.anchor_b);
                    let nsa: Fix = rela.norm_sq();
                    let nsb: Fix = relb.norm_sq();
                    rela.norm().raw != 0 && relb.norm().raw != 0 && nsa.mul(nsa.sqrt()).raw != 0
                        && nsb.mul(nsb.sqrt()).raw != 0
                },
            };
            if !ok {
                return false;
            }
            k = k + 1;
        }
        true
    }

    /// Decides whether every constraint's second-derivative divisors
    /// are nonzero right now.
    pub fn check_jerk_posed(&self) -> (r: bool)
        requires
            self.constraints_in_range(),
        ensures
            r == self.all_jerk_posed(),
    {
        let mc: usize = self.constraints.len();
        let mut k: usize = 0;
        while k < mc
            invariant
                mc == self.m(),
                k <= mc,
                self.constraints_in_range(),
                forall|k2: int|
                    0 <= k2 < k ==> spec_jerk_posed_at(
                        #[trigger] self.constraints@[k2],
                        self.bodies@,
                    ),
            decreases mc - k,
        {
            let ok: bool = match self.constraints[k] {
                Constraint::Anchor(a) => {
                    let p: Vec2 = self.bodies[a.body.0].pos;
                    let ns: Fix = p.norm_sq();
                    ns.mul(ns.sqrt()).raw != 0 && ns.mul(ns).mul(ns.sqrt()).raw != 0
                },
                Constraint::Distance(d) => {
                    let rel: Vec2 = self.bodies[d.body_a.0].pos.sub(self.bodies[d.body_b.0].pos);
                    let ns: Fix = rel.norm_sq();
                    ns.mul(ns.sqrt()).raw != 0 && ns.mul(ns).mul(ns.sqrt()).raw != 0
                },
                Constraint::Plane(_) => true,
                Constraint::Pulley(_) => true,
            };
            if !ok {
                return false;
            }
            k = k + 1;
        }
        true
    }

    /// The combined velocity vector q̇ of all bodies, in dense order.
    pub fn q_dot_vector(&self) -> (r: Vec<Fix>)
        ensures
            r@.len() == 2 * self.n(),
            forall|i: int|
                0 <= i < self.n()
                    ==> r@[2 * i]@ == (#[trigger] self.bodies@[i]).vel.x@
                        && r@[2 * i + 1]@ == self.bodies@[i].vel.y@,
            r@ == qdot_of(self.bodies@),
    {
        let nb: usize = self.bodies.len();
        let mut out: Vec<Fix> = Vec::new();
        let mut i: usize = 0;
        while i < nb
            invariant
                nb == self.n(),
                i <= nb,
                out@.len() == 2 * i,
                forall|i2: int|
                    0 <= i2 < i
                        ==> out@[2 * i2]@ == (#[trigger] self.bodies@[i2]).vel.x@
                            && out@[2 * i2 + 1]@ == self.bodies@[i2].vel.y@,
            decreases nb - i,
        {
            out.push(self.bodies[i].vel.x);
            out.push(self.bodies[i].vel.y);
            i = i + 1;
        }
        proof {
            assert forall|t: int| 0 <= t < out@.len() implies out@[t] == qdot_of(self.bodies@)[t]
                by {
                let b = t / 2;
                assert(t == 2 * b || t == 2 * b + 1);
            }
            assert(out@ =~= qdot_of(self.bodies@));
        }
        out
    }

    /// The diagonal inverse-mass matrix M⁻¹: each body contributes its
    /// inverse mass twice on the diagonal.
    pub fn inv_mass_matrix(&self) -> (r: Matrix)
        requires
            self.n() * 2 < usize::MAX,
        ensures
            r.wf(),
            r.rows() == 2 * self.n(),
            r.cols == 2 * self.n(),
            forall|i: int|
                0 <= i < self.n()
                    ==> r.at(2 * i, 2 * i) == (#[trigger] self.bodies@[i]).inv_mass@ && r.at(
                        2 * i + 1,
                        2 * i + 1,
                    ) == self.bodies@[i].inv_mass@,
            forall|i: int, j: int| 0 <= i < 2 * self.n() && 0 <= j < 2 * self.n() && i != j
                ==> r.at(i, j) == 0,
            rows_of(r) == w_rows_of(self.bodies@),
    {
        let nb: usize = self.bodies.len();
        let size: usize = 2 * nb;
        let mut out: Matrix = Matrix::zeros(size, size);
        let mut i: usize = 0;
        while i < nb
            invariant
                nb == self.n(),
                size == 2 * nb,
                i <= nb,
                out.wf(),
                out.rows() == size,
                out.cols == size,
                forall|i2: int|
                    0 <= i2 < i
                        ==> out.at(2 * i2, 2 * i2) == (#[trigger] self.bodies@[i2]).inv_mass@
                            && out.at(2 * i2 + 1, 2 * i2 + 1) == self.bodies@[i2].inv_mass@,
                forall|a: int, b: int|
                    0 <= a < size && 0 <= b < size && a != b ==> out.at(a, b) == 0,
                forall|a: int| 2 * i <= a < size ==> out.at(a, a) == 0,
            decreases nb - i,
        {
            let w: Fix = self.bodies[i].inv_mass;
            out.set(2 * i, 2 * i, w);
            out.set(2 * i + 1, 2 * i + 1, w);
            i = i + 1;
        }
        proof {
            assert forall|a: int|
                0 <= a < size implies rows_of(out)[a] =~= w_rows_of(self.bodies@)[a] by {
                assert forall|b: int|
                    0 <= b < size implies rows_of(out)[a][b] == w_rows_of(self.bodies@)[a][b] by {
                    let h = a / 2;
                    assert(a == 2 * h || a == 2 * h + 1);
                    if a == b {
                        assert(out.at(2 * h, 2 * h) == self.bodies@[h].inv_mass@);
                        assert(out.at(2 * h + 1, 2 * h + 1) == self.bodies@[h].inv_mass@);
                        assert(rows_of(out)[a][b]@ == self.bodies@[h].inv_mass@);
                        assert(w_rows_of(self.bodies@)[a][b] == (Fix {
                            raw: self.bodies@[a / 2].inv_mass@ as i64,
                        }));
                    } else {
                        assert(out.at(a, b) == 0);
                        assert(rows_of(out)[a][b]@ == 0);
                        assert(w_rows_of(self.bodies@)[a][b] == (Fix { raw: 0int as i64 }));
                    }
                }
            }
            assert(rows_of(out) =~= w_rows_of(self.bodies@));
        }
        out
    }

    /// The external force vector: gravity times mass, per body and
    /// axis, in dense order.
    pub fn force_vector(&self) -> (r: Vec<Fix>)
        ensures
            r@.len() == 2 * self.n(),
            forall|i: int|
                0 <= i < self.n()
                    ==> r@[2 * i]@ == spec_mul(
                        self.gravity.x@,
                        (#[trigger] self.bodies@[i]).mass@,
                    ) && r@[2 * i + 1]@ == spec_mul(self.gravity.y@, self.bodies@[i].mass@),
            r@ == force_of(self.bodies@, self.gravity),
    {
        let nb: usize = self.bodies.len();
        let mut out: Vec<Fix> = Vec::new();
        let mut i: usize = 0;
        while i < nb
            invariant
                nb == self.n(),
                i <= nb,
                out@.len() == 2 * i,
                forall|i2: int|
                    0 <= i2 < i
                        ==> out@[2 * i2]@ == spec_mul(
                            self.gravity.x@,
                            (#[trigger] self.bodies@[i2]).mass@,
                        ) && out@[2 * i2 + 1]@ == spec_mul(self.gravity.y@, self.bodies@[i2].mass@),
            decreases nb - i,
        {
            let g: Vec2 = self.gravity.scale(self.bodies[i].mass);
            out.push(g.x);
            out.push(g.y);
            i = i + 1;
        }
        proof {
            assert forall|t: int|
                0 <= t < out@.len() implies out@[t] == force_of(self.bodies@, self.gravity)[t] by {
                let b = t / 2;
                assert(t == 2 * b || t == 2 * b + 1);
            }
            assert(out@ =~= force_of(self.bodies@, self.gravity));
        }
        out
    }

    /// The vector of positional violations C, one per constraint.
    pub fn c_vector(&self) -> (r: Vec<Fix>)
        requires
            self.constraints_in_range(),
        ensures
            r@.len() == self.m(),
            forall|k: int|
                0 <= k < self.m()
                    ==> (#[trigger] r@[k])@ == spec_c_at(self.constraints@[k], self.bodies@),
            r@ == spec_c_seq(*self),
    {
        let mc: usize = self.constraints.len();
        let mut out: Vec<Fix> = Vec::new();
        let mut k: usize = 0;
        while k < mc
            invariant
                mc == self.m(),
                k <= mc,
                self.constraints_in_range(),
                out@.len() == k,
                forall|k2: int|
                    0 <= k2 < k
                        ==> (#[trigger] out@[k2])@ == spec_c_at(self.constraints@[k2], self.bodies@),
            decreases mc - k,
        {
            let v: Fix = match self.constraints[k] {
                Constraint::Anchor(a) => a.evaluate_c(self.bodies[a.body.0].pos),
                Constraint::Distance(d) => d.evaluate_c(
                    self.bodies[d.body_a.0].pos,
                    self.bodies[d.body_b.0].pos,
                ),
                Constraint::Plane(p) => p.evaluate_c(self.bodies[p.body.0].pos),
                Constraint::Pulley(p) => p.evaluate_c(
                    self.bodies[p.body_a.0].pos,
                    self.bodies[p.body_b.0].pos,
                ),
            };
            out.push(v);
            k = k + 1;
        }
        proof {
            assert(out@ =~= spec_c_seq(*self));
        }
        out
    }

    /// The vector of velocity-level violations Ċ, one per constraint.
    pub fn c_dot_vector(&self) -> (r: Vec<Fix>)
        requires
            self.constraints_in_range(),
            self.all_well_posed(),
        ensures
            r@.len() == self.m(),
            forall|k: int|
                0 <= k < self.m()
                    ==> (#[trigger] r@[k])@ == spec_c_dot_at(self.constraints@[k], self.bodies@),
            r@ == cdot_of(self.constraints@, self.bodies@),
    {
        let mc: usize = self.constraints.len();
        let mut out: Vec<Fix> = Vec::new();
        let mut k: usize = 0;
        while k < mc
            invariant
                mc == self.m(),
                k <= mc,
                self.constraints_in_range(),
                self.all_well_posed(),
                out@.len() == k,
                forall|k2: int|
                    0 <= k2 < k
                        ==> (#[trigger] out@[k2])@ == spec_c_dot_at(
                            self.constraints@[k2],
                            self.bodies@,
                        ),
            decreases mc - k,
        {
            let v: Fix = match self.constraints[k] {
                Constraint::Anchor(a) => {
                    let b: Body = self.bodies[a.body.0];
                    a.evaluate_c_dot(b.pos, b.vel)
                },
                Constraint::Distance(d) => {
                    let ba: Body = self.bodies[d.body_a.0];
                    let bb: Body = self.bodies[d.body_b.0];
                    d.evaluate_c_dot(ba.pos, bb.pos, ba.vel, bb.vel)
                },
                Constraint::Plane(p) => p.evaluate_c_dot(self.bodies[p.body.0].vel),
                Constraint::Pulley(_) => Fix::zero(),
            };
            out.push(v);
            k = k + 1;
        }
        proof {
            assert(out@ =~= cdot_of(self.constraints@, self.bodies@));
        }
        out
    }

    /// The vector of analytic J̇·q̇ terms, one per constraint.
    pub fn j_dot_q_dot(&self) -> (r: Vec<Fix>)
        requires
            self.constraints_in_range(),
            self.all_well_posed(),
        ensures
            r@.len() == self.m(),
            forall|k: int|
                0 <= k < self.m()
                    ==> (#[trigger] r@[k])@ == spec_jdq_at(self.constraints@[k], self.bodies@),
            r@ == jdq_of(self.constraints@, self.bodies@),
    {
        let mc: usize = self.constraints.len();
        let mut out: Vec<Fix> = Vec::new();
        let mut k: usize = 0;
        while k < mc
            invariant
                mc == self.m(),
                k <= mc,
                self.constraints_in_range(),
                self.all_well_posed(),
                out@.len() == k,
                forall|k2: int|
                    0 <= k2 < k
                        ==> (#[trigger] out@[k2])@ == spec_jdq_at(
                            self.constraints@[k2],
                            self.bodies@,
                        ),
            decreases mc - k,
        {
            let v: Fix = match self.constraints[k] {
                Constraint::Anchor(a) => {
                    let b: Body = self.bodies[a.body.0];
                    a.compute_j_dot_q_dot(b.pos, b.vel)
                },
                Constraint::Distance(d) => {
                    let ba: Body = self.bodies[d.body_a.0];
                    let bb: Body = self.bodies[d.body_b.0];
                    d.compute_j_dot_q_dot(ba.pos, bb.pos, ba.vel, bb.vel)
                },
                Constraint::Plane(_) => Fix::zero(),
                Constraint::Pulley(p) => {
                    let ba: Body = self.bodies[p.body_a.0];
                    let bb: Body = self.bodies[p.body_b.0];
                    p.compute_j_dot_q_dot(ba.pos, bb.pos, ba.vel, bb.vel)
                },
            };
            out.push(v);
            k = k + 1;
        }
        proof {
            assert(out@ =~= jdq_of(self.constraints@, self.bodies@));
        }
        out
    }

    /// Charges every body's acceleration accumulator with gravity times
    /// mass, then evaluates the second-derivative correction terms.
    pub fn compute_ddot_q_dot_plus_j_dot_q_ddot(&mut self) -> (r: Vec<Fix>)
        requires
            old(self).constraints_in_range(),
            old(self).all_jerk_posed(),
        ensures
            final(self).n() == old(self).n(),
            final(self).constraints@ == old(self).constraints@,
            final(self).gravity == old(self).gravity,
            final(self).time_step == old(self).time_step,
            final(self).solver == old(self).solver,
            final(self).age == old(self).age,
            final(self).calculation_time_nanos == old(self).calculation_time_nanos,
            final(self).violation_mean == old(self).violation_mean,
            final(self).applied_correction@ == old(self).applied_correction@,
            final(self).physic_index_to_entity@ == old(self).physic_index_to_entity@,
            forall|i: int|
                0 <= i < old(self).n()
                    ==> (#[trigger] final(self).bodies@[i]) == (Body {
                        accel: Vec2 {
                            x: Fix {
                                raw: spec_mul(
                                    old(self).gravity.x@,
                                    old(self).bodies@[i].mass@,
                                ) as i64,
                            },
                            y: Fix {
                                raw: spec_mul(
                                    old(self).gravity.y@,
                                    old(self).bodies@[i].mass@,
                                ) as i64,
                            },
                        },
                        ..old(self).bodies@[i]
                    }),
            final(self).bodies@ == charged_bodies(old(self).bodies@, old(self).gravity),
            r@.len() == old(self).m(),
            forall|k: int|
                0 <= k < old(self).m()
                    ==> (#[trigger] r@[k])@ == spec_ddot_at(
                        old(self).constraints@[k],
                        final(self).bodies@,
                    ),
            r@ == ddot_of(old(self).constraints@, charged_bodies(old(self).bodies@, old(self).gravity)),
    {
        let nb: usize = self.bodies.len();
        let mut i: usize = 0;
        while i < nb
            invariant
                nb == self.n(),
                i <= nb,
                self.constraints@ == old(self).constraints@,
                self.gravity == old(self).gravity,
                self.time_step == old(self).time_step,
                self.solver == old(self).solver,
                self.age == old(self).age,
                self.calculation_time_nanos == old(self).calculation_time_nanos,
                self.violation_mean == old(self).violation_mean,
                self.applied_correction@ == old(self).applied_correction@,
                self.physic_index_to_entity@ == old(self).physic_index_to_entity@,
                forall|i2: int|
                    0 <= i2 < i
                        ==> (#[trigger] self.bodies@[i2]) == (Body {
                            accel: Vec2 {
                                x: Fix {
                                    raw: spec_mul(
                                        old(self).gravity.x@,
                                        old(self).bodies@[i2].mass@,
                                    ) as i64,
                                },
                                y: Fix {
                                    raw: spec_mul(
                                        old(self).gravity.y@,
                                        old(self).bodies@[i2].mass@,
                                    ) as i64,
                                },
                            },
                            ..old(self).bodies@[i2]
                        }),
                forall|i2: int| i <= i2 < nb ==> #[trigger] self.bodies@[i2]
                    == old(self).bodies@[i2],
            decreases nb - i,
        {
            let mut b: Body = self.bodies[i];
            b.accel = self.gravity.scale(b.mass);
            self.bodies.set(i, b);
            i = i + 1;
        }
        let mc: usize = self.constraints.len();
        let mut out: Vec<Fix> = Vec::new();
        let mut k: usize = 0;
        while k < mc
            invariant
                mc == self.m(),
                k <= mc,
                self.constraints@ == old(self).constraints@,
                old(self).constraints_in_range(),
                old(self).all_jerk_posed(),
                self.bodies@.len() == old(self).bodies@.len(),
                forall|i2: int|
                    0 <= i2 < self.bodies@.len()
                        ==> (#[trigger] self.bodies@[i2]).pos == old(self).bodies@[i2].pos
                            && self.bodies@[i2].vel == old(self).bodies@[i2].vel,
                out@.len() == k,
                forall|k2: int|
                    0 <= k2 < k
                        ==> (#[trigger] out@[k2])@ == spec_ddot_at(
                            self.constraints@[k2],
                            self.bodies@,
                        ),
            decreases mc - k,
        {
            let v: Fix = match self.constraints[k] {
                Constraint::Anchor(a) => {
                    let b: Body = self.bodies[a.body.0];
                    a.compute_ddot_q_dot_plus_j_dot_q_ddot(b.pos, b.vel, b.accel)
                },
                Constraint::Distance(d) => {
                    let ba: Body = self.bodies[d.body_a.0];
                    let bb: Body = self.bodies[d.body_b.0];
                    d.compute_ddot_q_dot_plus_j_dot_q_ddot(
                        ba.pos,
                        bb.pos,
                        ba.vel,
                        bb.vel,
                        ba.accel,
                        bb.accel,
                    )
                },
                Constraint::Plane(_) => Fix::zero(),
                Constraint::Pulley(_) => Fix::zero(),
            };
            out.push(v);
            k = k + 1;
        }
        proof {
            assert(self.bodies@ =~= charged_bodies(old(self).bodies@, old(self).gravity));
            assert(out@ =~= ddot_of(self.constraints@, self.bodies@));
        }
        out
    }

    /// The constraint Jacobian J: one row per constraint, two columns
    /// per body in dense order.  Row k holds the normalized violation
    /// gradient of constraint k, and is zero outside the columns of the
    /// bodies that constraint references.
    pub fn j_matrix(&self) -> (r: Matrix)
        requires
            self.constraints_in_range(),
            self.all_well_posed(),
            self.index_built(),
            self.n() * 2 < usize::MAX,
        ensures
            r.wf(),
            r.rows() == self.m(),
            r.cols == 2 * self.n(),
            forall|k: int, col: int|
                0 <= k < self.m() && 0 <= col < 2 * self.n() ==> #[trigger] r.at(k, col)
                    == spec_j_entry(self.constraints@[k], self.bodies@, col),
            rows_of(r) == j_rows_of(self.constraints@, self.bodies@),
    {
        let mc: usize = self.constraints.len();
        let cols: usize = 2 * self.bodies.len();
        let mut out: Matrix = Matrix::zeros(mc, cols);
        let mut k: usize = 0;
        while k < mc
            invariant
                mc == self.m(),
                cols == 2 * self.n(),
                k <= mc,
                self.constraints_in_range(),
                self.all_well_posed(),
                self.index_built(),
                out.wf(),
                out.rows() == mc,
                out.cols == cols,
                forall|k2: int, col: int|
                    0 <= k2 < k && 0 <= col < cols ==> #[trigger] out.at(k2, col) == spec_j_entry(
                        self.constraints@[k2],
                        self.bodies@,
                        col,
                    ),
                forall|k2: int, col: int|
                    k <= k2 < mc && 0 <= col < cols ==> #[trigger] out.at(k2, col) == 0,
            decreases mc - k,
        {
            match self.constraints[k] {
                Constraint::Anchor(a) => {
                    let b: Body = self.bodies[a.body.0];
                    let dir: Vec2 = b.pos.sub(a.anchor).unit();
                    let base: usize = 2 * b.tag.0;
                    out.set(k, base, dir.x);
                    out.set(k, base + 1, dir.y);
                },
                Constraint::Distance(d) => {
                    let ba: Body = self.bodies[d.body_a.0];
                    let bb: Body = self.bodies[d.body_b.0];
                    let dir: Vec2 = ba.pos.sub(bb.pos).unit();
                    let base_a: usize = 2 * ba.tag.0;
                    let base_b: usize = 2 * bb.tag.0;
                    out.set(k, base_a, dir.x);
                    out.set(k, base_a + 1, dir.y);
                    out.set(k, base_b, dir.x.neg());
                    out.set(k, base_b + 1, dir.y.neg());
                },
                Constraint::Plane(p) => {
                    let b: Body = self.bodies[p.body.0];
                    let base: usize = 2 * b.tag.0;
                    out.set(k, base, p.normal.x);
                    out.set(k, base + 1, p.normal.y);
                },
                Constraint::Pulley(p) => {
                    let ba: Body = self.bodies[p.body_a.0];
                    let bb: Body = self.bodies[p.body_b.0];
                    let dir_a: Vec2 = ba.pos.sub(p.anchor_a).unit();
                    let dir_b: Vec2 = bb.pos.sub(p.anchor_b).unit();
                    let base_a: usize = 2 * ba.tag.0;
                    let base_b: usize = 2 * bb.tag.0;
                    out.set(k, base_a, dir_a.x);
                    out.set(k, base_a + 1, dir_a.y);
                    out.set(k, base_b, dir_b.x);
                    out.set(k, base_b + 1, dir_b.y);
                },
            }
            proof {
                assert forall|col: int| 0 <= col < cols implies out.at(k as int, col)
                    == spec_j_entry(self.constraints@[k as int], self.bodies@, col) by {
                }
            }
            k = k + 1;
        }
        proof {
            assert forall|k2: int|
                0 <= k2 < mc implies rows_of(out)[k2] =~= j_rows_of(
                self.constraints@,
                self.bodies@,
            )[k2] by {
                assert forall|c2: int|
                    0 <= c2 < cols implies rows_of(out)[k2][c2] == j_rows_of(
                    self.constraints@,
                    self.bodies@,
                )[k2][c2] by {
                    assert(out.at(k2, c2) == spec_j_entry(self.constraints@[k2], self.bodies@, c2));
                }
            }
            assert(rows_of(out) =~= j_rows_of(self.constraints@, self.bodies@));
        }
        out
    }

    /// Mean absolute violation of a C vector; zero when there are no
    /// constraints.
    pub fn violation_mean_of(c: &Vec<Fix>) -> (r: Fix)
        requires
            c@.len() < 0x8000000000,
        ensures
            r@ == spec_violation_mean(c@),
    {
        let mc: usize = c.len();
        if mc == 0 {
            return Fix::zero();
        }
        let mut acc: Fix = Fix::zero();
        let mut k: usize = 0;
        while k < mc
            invariant
                mc == c@.len(),
                k <= mc,
                acc@ == abs_sum(c@, k as int),
            decreases mc - k,
        {
            acc = acc.add(c[k].abs());
            k = k + 1;
        }
        acc.div(Fix::from_int(mc as i64))
    }
}

/// Left-to-right fixed-point sum of the absolute values of the first
/// `k` entries.
pub open spec fn abs_sum(c: Seq<Fix>, k: int) -> int
    decreases k,
{
    if k <= 0 {
        0
    } else {
        spec_add(abs_sum(c, k - 1), sat64(iabs(c[k - 1]@)))
    }
}

/// Mean absolute violation of a C vector: the fixed-point sum of the
/// magnitudes, divided by the count; zero for an empty vector.
pub open spec fn spec_violation_mean(c: Seq<Fix>) -> int {
    if c.len() == 0 {
        0
    } else {
        spec_div(abs_sum(c, c.len() as int), c.len() as int * 65536)
    }
}

} // verus!
