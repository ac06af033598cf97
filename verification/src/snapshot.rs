//! The snapshot exporter: one immutable value object per tick, read by
//! the external renderer.
//!
//! Energies fold over the bodies in dense order; each constraint's
//! visualization descriptor pairs with its recorded multiplier; the
//! tick counter is monotonic between scenario switches.  Everything the
//! snapshot holds is pinned exactly.

use vstd::prelude::*;
use crate::fixed::{Fix, spec_add, spec_neg, spec_mul, spec_div, lemma_tdiv_exact};
use crate::vec2::{Vec2, spec_dot, spec_norm_sq};
use crate::body::Body;
use crate::constraints::{Constraint, ConstraintWidget};
use crate::world::{GameContent, fix};

verus! {

/// What one tick exports: positions and constraint widgets for the
/// renderer, energies and the violation mean for the plots, and the
/// tick counter and solve duration for the stats.
pub struct WorldSnapshot {
    /// Per-body position, in dense solver order.
    pub pos: Vec<Vec2>,
    /// Per-constraint visualization descriptor with its recorded
    /// multiplier, in constraint order.
    pub links: Vec<(ConstraintWidget, Fix)>,
    /// Total kinetic energy.
    pub kinetic_energy: Fix,
    /// Total potential energy.
    pub potential_energy: Fix,
    /// Total elastic energy; present only when the active scenario has
    /// soft elements, which none of the rigid catalogue does.
    pub elastic_energy: Option<Fix>,
    /// The tick this snapshot describes.
    pub date: u32,
    /// Wall-clock duration of the last solve, as supplied by the
    /// caller.
    pub calculation_time_nanos: u64,
    /// Mean absolute constraint violation from the last-evaluated C.
    pub violation_mean: Fix,
}

/// Raw kinetic energy of one body, as evaluated: ½ · mass · |v|².
pub open spec fn ke_term(b: Body) -> int {
    spec_mul(spec_mul(32768, b.mass@), spec_norm_sq(b.vel.x@, b.vel.y@))
}

/// Raw kinetic energy of the first `k` bodies, folded left to right.
pub open spec fn ke_fold(bodies: Seq<Body>, k: int) -> int
    decreases k,
{
    if k <= 0 {
        0
    } else {
        spec_add(ke_fold(bodies, k - 1), ke_term(bodies[k - 1]))
    }
}

/// Raw potential energy of one body: −mass · (g · position).
pub open spec fn pe_term(b: Body, g: Vec2) -> int {
    spec_mul(spec_neg(b.mass@), spec_dot(g.x@, g.y@, b.pos.x@, b.pos.y@))
}

/// Raw potential energy of the first `k` bodies, folded left to right.
pub open spec fn pe_fold(bodies: Seq<Body>, g: Vec2, k: int) -> int
    decreases k,
{
    if k <= 0 {
        0
    } else {
        spec_add(pe_fold(bodies, g, k - 1), pe_term(bodies[k - 1], g))
    }
}

/// The visualization descriptor of one constraint, body references
/// converted to dense indices through the tags.
pub open spec fn spec_widget_at(c: Constraint, bodies: Seq<Body>) -> ConstraintWidget {
    match c {
        Constraint::Anchor(a) => ConstraintWidget::Anchor(
            bodies[a.body.0 as int].tag.0,
            a.anchor,
        ),
        Constraint::Distance(d) => ConstraintWidget::Link(
            bodies[d.body_a.0 as int].tag.0,
            bodies[d.body_b.0 as int].tag.0,
        ),
        Constraint::Plane(p) => ConstraintWidget::Plane(p.normal, fix(spec_neg(p.origin@))),
        Constraint::Pulley(p) => ConstraintWidget::Pulley(
            bodies[p.body_a.0 as int].tag.0,
            bodies[p.body_b.0 as int].tag.0,
            p.anchor_a,
            p.anchor_b,
        ),
    }
}

impl GameContent {
    /// Records the wall-clock duration the caller measured around the
    /// last solve.
    pub fn note_calculation_time(&mut self, nanos: u64)
        ensures
            *final(self) == (GameContent { calculation_time_nanos: nanos, ..*old(self) }),
    {
        self.calculation_time_nanos = nanos;
    }

    /// Exports the current state as an immutable snapshot and advances
    /// the monotonic tick counter.
    pub fn take_snapshot(&mut self) -> (r: WorldSnapshot)
        requires
            old(self).wf(),
            old(self).index_built(),
            old(self).age < u32::MAX,
        ensures
            *final(self) == (GameContent { age: (old(self).age + 1) as u32, ..*old(self) }),
            r.date == old(self).age,
            r.kinetic_energy@ == ke_fold(old(self).bodies@, old(self).n()),
            r.potential_energy@ == pe_fold(old(self).bodies@, old(self).gravity, old(self).n()),
            r.elastic_energy is None,
            r.violation_mean == old(self).violation_mean,
            r.calculation_time_nanos == old(self).calculation_time_nanos,
            r.pos@.len() == old(self).n(),
            forall|i: int| 0 <= i < old(self).n() ==> r.pos@[i] == old(self).bodies@[i].pos,
            r.links@.len() == old(self).m(),
            forall|k: int|
                0 <= k < old(self).m()
                    ==> (#[trigger] r.links@[k]).0 == spec_widget_at(
                        old(self).constraints@[k],
                        old(self).bodies@,
                    ) && r.links@[k].1 == old(self).applied_correction@[k],
    {
        let nb: usize = self.bodies.len();
        proof {
            lemma_tdiv_exact(32768int, 131072int);
        }
        let half: Fix = Fix::from_ratio(1, 2);
        let mut kinetic: Fix = Fix::zero();
        let mut potential: Fix = Fix::zero();
        let mut i: usize = 0;
        while i < nb
            invariant
                self == old(self),
                self.wf(),
                nb == self.n(),
                i <= nb,
                half@ == 32768,
                kinetic@ == ke_fold(self.bodies@, i as int),
                potential@ == pe_fold(self.bodies@, self.gravity, i as int),
            decreases nb - i,
        {
            let b: Body = self.bodies[i];
            kinetic = kinetic.add(half.mul(b.mass).mul(b.vel.norm_sq()));
            potential = potential.add(b.mass.neg().mul(self.gravity.dot(b.pos)));
            i = i + 1;
        }
        let mut pos: Vec<Vec2> = Vec::new();
        let mut i2: usize = 0;
        while i2 < nb
            invariant
                self == old(self),
                nb == self.n(),
                i2 <= nb,
                pos@.len() == i2,
                forall|t: int| 0 <= t < i2 ==> #[trigger] pos@[t] == self.bodies@[t].pos,
            decreases nb - i2,
        {
            pos.push(self.bodies[i2].pos);
            i2 = i2 + 1;
        }
        let mc: usize = self.constraints.len();
        let mut links: Vec<(ConstraintWidget, Fix)> = Vec::new();
        let mut k: usize = 0;
        while k < mc
            invariant
                self == old(self),
                self.constraints_in_range(),
                self.index_built(),
                nb == self.n(),
                mc == self.m(),
                k <= mc,
                links@.len() == k,
                forall|t: int|
                    0 <= t < k
                        ==> (#[trigger] links@[t]).0 == spec_widget_at(
                            self.constraints@[t],
                            self.bodies@,
                        ) && links@[t].1 == self.applied_correction@[t],
            decreases mc - k,
        {
            let widget: ConstraintWidget = match self.constraints[k] {
                Constraint::Anchor(a) => ConstraintWidget::Anchor(
                    self.bodies[a.body.0].tag.0,
                    a.anchor,
                ),
                Constraint::Distance(d) => ConstraintWidget::Link(
                    self.bodies[d.body_a.0].tag.0,
                    self.bodies[d.body_b.0].tag.0,
                ),
                Constraint::Plane(p) => ConstraintWidget::Plane(p.normal, p.origin.neg()),
                Constraint::Pulley(p) => ConstraintWidget::Pulley(
                    self.bodies[p.body_a.0].tag.0,
                    self.bodies[p.body_b.0].tag.0,
                    p.anchor_a,
                    p.anchor_b,
                ),
            };
            links.push((widget, self.applied_correction[k]));
            k = k + 1;
        }
        let date: u32 = self.age;
        self.age = self.age + 1;
        WorldSnapshot {
            pos,
            links,
            kinetic_energy: kinetic,
            potential_energy: potential,
            elastic_energy: Option::None,
            date,
            calculation_time_nanos: self.calculation_time_nanos,
            violation_mean: self.violation_mean,
        }
    }
}

} // verus!
