//! The scenario catalogue: deterministic factory methods that clear the
//! state and repopulate it in a fixed, documented order.
//!
//! The insertion order decides the dense solver index and hence the
//! Jacobian's column order.  Every builder's contract pins the exact
//! population it leaves behind, so a scenario switch provably depends
//! on nothing but the configured time step: no prior body, constraint,
//! index entry or tick count survives.

use vstd::prelude::*;
use crate::fixed::{
    Fix, spec_neg, spec_sub, spec_mul, lemma_div_lower_bound, lemma_isqrt_bounds, lemma_mul_zero,
    lemma_unit_sq,
};
use crate::vec2::spec_norm_sq;
use crate::vec2::Vec2;
use crate::body::{Body, BodyId};
use crate::constraints::{
    AnchorConstraint, Constraint, DistanceConstraint, PlaneConstraint, PulleyConstraint,
    spec_gap_norm,
};
use crate::world::{GameContent, c_in_range, fix, ratio, spec_spawn, v2};

verus! {

/// The distance constraint the triangle-strip helper records for a
/// pair: the pair's current gap is measured and becomes the rest
/// length.
pub open spec fn strip_link(bodies: Seq<Body>, a: BodyId, b: BodyId) -> Constraint {
    Constraint::Distance(
        DistanceConstraint {
            body_a: a,
            body_b: b,
            distance: fix(spec_gap_norm(bodies[a.0 as int].pos, bodies[b.0 as int].pos)),
        },
    )
}

/// The constraints the triangle-strip helper appends for the first `k`
/// of the given bodies: one link for the first pair, then two links
/// from each later body back to the two before it.
pub open spec fn strip_pairs(bodies: Seq<Body>, ids: Seq<BodyId>, k: int) -> Seq<Constraint>
    decreases k,
{
    if k < 2 {
        Seq::empty()
    } else if k == 2 {
        seq![strip_link(bodies, ids[0], ids[1])]
    } else {
        strip_pairs(bodies, ids, k - 1) + seq![
            strip_link(bodies, ids[k - 1], ids[k - 3]),
            strip_link(bodies, ids[k - 1], ids[k - 2]),
        ]
    }
}

/// Standard gravity used by most scenarios.
pub open spec fn standard_gravity() -> Vec2 {
    Vec2 { x: fix(0), y: ratio(-981, 100) }
}

/// The slightly rounded gravity used by the pulley-with-rail and bridge
/// scenarios.
pub open spec fn round_gravity() -> Vec2 {
    Vec2 { x: fix(0), y: ratio(-98, 10) }
}

/// A scenario builder's reset obligations: tick counter zero, solver
/// index discarded.
pub open spec fn reset_done(s: GameContent) -> bool {
    s.age == 0 && s.physic_index_to_entity@.len() == 0
}

/// Exact population of the single-pendulum scenario.
pub open spec fn is_simple(s: GameContent) -> bool {
    &&& reset_done(s)
    &&& s.gravity == standard_gravity()
    &&& s.bodies@ =~= seq![spec_spawn(v2(65536, 0), v2(0, 786432), fix(65536), s.time_step)]
    &&& s.constraints@ =~= seq![
        Constraint::Anchor(
            AnchorConstraint { body: BodyId(0), anchor: v2(0, 0), distance: fix(65536) },
        ),
    ]
}

/// Exact population of the double-pendulum scenario.
pub open spec fn is_double(s: GameContent) -> bool {
    &&& reset_done(s)
    &&& s.gravity == standard_gravity()
    &&& s.bodies@ =~= seq![
        spec_spawn(v2(65536, 0), v2(0, 0), fix(65536), s.time_step),
        spec_spawn(v2(65536, 65536), v2(0, 0), fix(65536), s.time_step),
    ]
    &&& s.constraints@ =~= seq![
        Constraint::Distance(
            DistanceConstraint { body_a: BodyId(0), body_b: BodyId(1), distance: fix(65536) },
        ),
        Constraint::Anchor(
            AnchorConstraint { body: BodyId(0), anchor: v2(0, 0), distance: fix(65536) },
        ),
    ]
}

/// Exact population of the triple-pendulum scenario.
pub open spec fn is_triple(s: GameContent) -> bool {
    &&& reset_done(s)
    &&& s.gravity == standard_gravity()
    &&& s.bodies@ =~= seq![
        spec_spawn(v2(65536, 0), v2(0, 0), fix(65536), s.time_step),
        spec_spawn(v2(65536, 65536), v2(0, 0), fix(65536), s.time_step),
        spec_spawn(v2(131072, 65536), v2(0, 0), fix(65536), s.time_step),
    ]
    &&& s.constraints@ =~= seq![
        Constraint::Distance(
            DistanceConstraint { body_a: BodyId(0), body_b: BodyId(1), distance: fix(65536) },
        ),
        Constraint::Distance(
            DistanceConstraint { body_a: BodyId(1), body_b: BodyId(2), distance: fix(65536) },
        ),
        Constraint::Anchor(
            AnchorConstraint { body: BodyId(0), anchor: v2(0, 0), distance: fix(65536) },
        ),
    ]
}

/// Body `i` of the rope scenario: a light segment on a horizontal line,
/// thrown upward.
pub open spec fn rope_body(i: int, ts: Fix) -> Body {
    spec_spawn(
        Vec2 { x: fix(spec_sub(spec_mul(i * 65536, ratio(1, 4)@), 327680)), y: fix(0) },
        v2(0, 262144),
        ratio(1, 10),
        ts,
    )
}

/// Exact population of the rope scenario: twenty segments chained by
/// distance constraints, the last segment anchored.
pub open spec fn is_rope(s: GameContent) -> bool {
    &&& reset_done(s)
    &&& s.gravity == standard_gravity()
    &&& s.bodies@.len() == 20
    &&& (forall|i: int| 0 <= i < 20 ==> #[trigger] s.bodies@[i] == rope_body(i, s.time_step))
    &&& s.constraints@.len() == 20
    &&& (forall|k: int|
        0 <= k < 19 ==> #[trigger] s.constraints@[k] == Constraint::Distance(
            DistanceConstraint {
                body_a: BodyId(k as usize),
                body_b: BodyId((k + 1) as usize),
                distance: ratio(1, 4),
            },
        ))
    &&& s.constraints@[19] == Constraint::Anchor(
        AnchorConstraint { body: BodyId(19), anchor: v2(0, 0), distance: ratio(1, 4) },
    )
}

/// Exact population of the rail scenario: two bodies on crossed
/// sliding planes joined by a rod, with a third body hung off one end.
pub open spec fn is_rail(s: GameContent) -> bool {
    &&& reset_done(s)
    &&& s.gravity == standard_gravity()
    &&& s.bodies@ =~= seq![
        spec_spawn(v2(-65536, 65536), v2(-65536, 65536), fix(65536), s.time_step),
        spec_spawn(v2(65536, 65536), v2(0, 0), fix(65536), s.time_step),
        spec_spawn(v2(0, 65536), v2(0, 0), fix(65536), s.time_step),
    ]
    &&& s.constraints@ =~= seq![
        Constraint::Distance(
            DistanceConstraint { body_a: BodyId(0), body_b: BodyId(1), distance: fix(131072) },
        ),
        Constraint::Plane(PlaneConstraint::spec_new(BodyId(0), v2(65536, 65536), v2(-65536, 65536))),
        Constraint::Plane(PlaneConstraint::spec_new(BodyId(1), v2(-65536, 65536), v2(65536, 65536))),
        Constraint::Distance(
            DistanceConstraint { body_a: BodyId(0), body_b: BodyId(2), distance: fix(65536) },
        ),
    ]
}

/// The rest length shared by the truss scenario's short edges:
/// sqrt(2) / 4.
pub open spec fn structure_edge() -> Fix {
    fix(spec_mul(crate::fixed::spec_sqrt(131072), ratio(1, 4)@))
}

/// Exact population of the truss scenario: a braced square hung from
/// one anchor.
pub open spec fn is_structure(s: GameContent) -> bool {
    &&& reset_done(s)
    &&& s.gravity == standard_gravity()
    &&& s.bodies@ =~= seq![
        spec_spawn(v2(65536, 0), v2(0, 0), fix(65536), s.time_step),
        spec_spawn(v2(ratio(5, 4)@, ratio(1, 4)@), v2(0, 0), fix(65536), s.time_step),
        spec_spawn(v2(ratio(3, 2)@, 0), v2(0, 0), fix(65536), s.time_step),
        spec_spawn(v2(ratio(5, 4)@, ratio(-1, 4)@), v2(0, 0), fix(65536), s.time_step),
    ]
    &&& s.constraints@ =~= seq![
        Constraint::Anchor(
            AnchorConstraint {
                body: BodyId(1),
                anchor: v2(0, ratio(1, 2)@),
                distance: structure_edge(),
            },
        ),
        Constraint::Distance(
            DistanceConstraint {
                body_a: BodyId(0),
                body_b: BodyId(1),
                distance: structure_edge(),
            },
        ),
        Constraint::Distance(
            DistanceConstraint {
                body_a: BodyId(1),
                body_b: BodyId(2),
                distance: structure_edge(),
            },
        ),
        Constraint::Distance(
            DistanceConstraint {
                body_a: BodyId(2),
                body_b: BodyId(3),
                distance: structure_edge(),
            },
        ),
        Constraint::Distance(
            DistanceConstraint {
                body_a: BodyId(3),
                body_b: BodyId(0),
                distance: structure_edge(),
            },
        ),
        Constraint::Distance(
            DistanceConstraint { body_a: BodyId(0), body_b: BodyId(2), distance: fix(65536) },
        ),
    ]
}

/// Exact population of the pulley scenario: two bodies on one rope
/// over two fixed points.
pub open spec fn is_pulley(s: GameContent) -> bool {
    &&& reset_done(s)
    &&& s.gravity == standard_gravity()
    &&& s.bodies@ =~= seq![
        spec_spawn(v2(-65536, 0), v2(327680, 0), fix(65536), s.time_step),
        spec_spawn(v2(65536, 0), v2(-65536, 0), fix(65536), s.time_step),
    ]
    &&& s.constraints@ =~= seq![
        Constraint::Pulley(
            PulleyConstraint {
                body_a: BodyId(0),
                body_b: BodyId(1),
                anchor_a: v2(-65536, 65536),
                anchor_b: v2(65536, 65536),
                distance: fix(131072),
            },
        ),
    ]
}

/// Exact population of the pulley-with-rail scenario.
pub open spec fn is_pulley_and_rail(s: GameContent) -> bool {
    &&& reset_done(s)
    &&& s.gravity == round_gravity()
    &&& s.bodies@ =~= seq![
        spec_spawn(v2(-327680, 0), v2(0, 0), fix(65536), s.time_step),
        spec_spawn(v2(65536, 0), v2(327680, 0), fix(131072), s.time_step),
    ]
    &&& s.constraints@ =~= seq![
        Constraint::Plane(PlaneConstraint::spec_new(BodyId(0), v2(0, 65536), v2(0, 0))),
        Constraint::Pulley(
            PulleyConstraint {
                body_a: BodyId(0),
                body_b: BodyId(1),
                anchor_a: v2(-65536, 196608),
                anchor_b: v2(65536, 65536),
                distance: fix(393216),
            },
        ),
    ]
}

/// The twelve deck bodies of the bridge scenario, left to right.
pub open spec fn bridge_body(i: int, ts: Fix) -> Body {
    let h = ratio(1, 2)@;
    let th = ratio(3, 2)@;
    let xs = seq![
        spec_neg(th),
        -65536int,
        -65536int,
        spec_neg(h),
        spec_neg(h),
        0int,
        0int,
        h,
        h,
        65536int,
        65536int,
        th,
    ];
    let ys = seq![0int, 0int, h, 0int, h, 0int, h, 0int, h, 0int, h, 0int];
    spec_spawn(v2(xs[i], ys[i]), v2(0, 0), fix(65536), ts)
}

/// The deck handles, in insertion order.
pub open spec fn bridge_ids() -> Seq<BodyId> {
    Seq::new(12, |i: int| BodyId(i as usize))
}

/// Exact population of the bridge scenario: a twelve-body triangle
/// strip between two anchors, with a heavy load hung from its middle.
pub open spec fn is_bridge(s: GameContent) -> bool {
    &&& reset_done(s)
    &&& s.gravity == round_gravity()
    &&& s.bodies@.len() == 13
    &&& (forall|i: int| 0 <= i < 12 ==> #[trigger] s.bodies@[i] == bridge_body(i, s.time_step))
    &&& s.bodies@[12] == spec_spawn(v2(0, 65536), v2(ratio(1, 100)@, 0), fix(655360), s.time_step)
    &&& s.constraints@ =~= seq![
        Constraint::Distance(
            DistanceConstraint { body_a: BodyId(5), body_b: BodyId(12), distance: fix(65536) },
        ),
    ] + strip_pairs(s.bodies@, bridge_ids(), 12) + seq![
        Constraint::Anchor(
            AnchorConstraint {
                body: BodyId(0),
                anchor: v2(spec_neg(ratio(3, 2)@), 65536),
                distance: fix(65536),
            },
        ),
        Constraint::Anchor(
            AnchorConstraint {
                body: BodyId(11),
                anchor: v2(ratio(3, 2)@, 65536),
                distance: fix(65536),
            },
        ),
    ]
}

impl GameContent {
    /// One body anchored to the origin, thrown sideways: the single
    /// pendulum.
    pub fn simple(&mut self)
        requires
            old(self).time_step@ > 0,
        ensures
            final(self).wf(),
            is_simple(*final(self)),
            final(self).time_step == old(self).time_step,
            final(self).solver == old(self).solver,
    {
        self.clear();
        self.gravity = Vec2::new(Fix::zero(), Fix::from_ratio(-981, 100));
        let body = self.add_body(
            Vec2::new(Fix::from_int(1), Fix::zero()),
            Vec2::new(Fix::zero(), Fix::from_int(12)),
            Fix::from_int(1),
        );
        self.add_constraint(
            Constraint::Anchor(
                AnchorConstraint { body, anchor: Vec2::zero(), distance: Fix::from_int(1) },
            ),
        );
    }

    /// Two linked bodies, the first anchored: the double pendulum.
    pub fn double(&mut self)
        requires
            old(self).time_step@ > 0,
        ensures
            final(self).wf(),
            is_double(*final(self)),
            final(self).time_step == old(self).time_step,
            final(self).solver == old(self).solver,
    {
        self.clear();
        self.gravity = Vec2::new(Fix::zero(), Fix::from_ratio(-981, 100));
        let body1 = self.add_body(
            Vec2::new(Fix::from_int(1), Fix::zero()),
            Vec2::zero(),
            Fix::from_int(1),
        );
        let body2 = self.add_body(
            Vec2::new(Fix::from_int(1), Fix::from_int(1)),
            Vec2::zero(),
            Fix::from_int(1),
        );
        self.add_constraint(
            Constraint::Distance(
                DistanceConstraint { body_a: body1, body_b: body2, distance: Fix::from_int(1) },
            ),
        );
        self.add_constraint(
            Constraint::Anchor(
                AnchorConstraint { body: body1, anchor: Vec2::zero(), distance: Fix::from_int(1) },
            ),
        );
    }

    /// Three chained bodies, the first anchored: the triple pendulum.
    pub fn triple(&mut self)
        requires
            old(self).time_step@ > 0,
        ensures
            final(self).wf(),
            is_triple(*final(self)),
            final(self).time_step == old(self).time_step,
            final(self).solver == old(self).solver,
    {
        self.clear();
        self.gravity = Vec2::new(Fix::zero(), Fix::from_ratio(-981, 100));
        let body1 = self.add_body(
            Vec2::new(Fix::from_int(1), Fix::zero()),
            Vec2::zero(),
            Fix::from_int(1),
        );
        let body2 = self.add_body(
            Vec2::new(Fix::from_int(1), Fix::from_int(1)),
            Vec2::zero(),
            Fix::from_int(1),
        );
        let body3 = self.add_body(
            Vec2::new(Fix::from_int(2), Fix::from_int(1)),
            Vec2::zero(),
            Fix::from_int(1),
        );
        self.add_constraint(
            Constraint::Distance(
                DistanceConstraint { body_a: body1, body_b: body2, distance: Fix::from_int(1) },
            ),
        );
        self.add_constraint(
            Constraint::Distance(
                DistanceConstraint { body_a: body2, body_b: body3, distance: Fix::from_int(1) },
            ),
        );
        self.add_constraint(
            Constraint::Anchor(
                AnchorConstraint { body: body1, anchor: Vec2::zero(), distance: Fix::from_int(1) },
            ),
        );
    }

    /// Twenty light segments chained by distance constraints, the last
    /// anchored: the rope.
    pub fn rope(&mut self)
        requires
            old(self).time_step@ > 0,
        ensures
            final(self).wf(),
            is_rope(*final(self)),
            final(self).time_step == old(self).time_step,
            final(self).solver == old(self).solver,
    {
        self.clear();
        self.gravity = Vec2::new(Fix::zero(), Fix::from_ratio(-981, 100));
        let quarter: Fix = Fix::from_ratio(1, 4);
        let mass: Fix = Fix::from_ratio(1, 10);
        proof {
            lemma_div_lower_bound(65536int, 655360int);
        }
        let mut i: usize = 0;
        while i < 20
            invariant
                self.time_step == old(self).time_step,
                self.solver == old(self).solver,
                self.gravity == standard_gravity(),
                self.age == 0,
                self.physic_index_to_entity@.len() == 0,
                self.bodies@.len() == i,
                i <= 20,
                quarter@ == ratio(1, 4)@,
                mass@ == ratio(1, 10)@,
                0 < mass@ <= 0x100000000,
                forall|i2: int|
                    0 <= i2 < i ==> #[trigger] self.bodies@[i2] == rope_body(i2, self.time_step),
                forall|i2: int| 0 <= i2 < i ==> (#[trigger] self.bodies@[i2]).wf(),
                self.constraints@.len() == (if i == 0 { 0int } else { i - 1 }),
                forall|k: int|
                    0 <= k < self.constraints@.len() ==> #[trigger] self.constraints@[k]
                        == Constraint::Distance(
                        DistanceConstraint {
                            body_a: BodyId(k as usize),
                            body_b: BodyId((k + 1) as usize),
                            distance: ratio(1, 4),
                        },
                    ),
            decreases 20 - i,
        {
            let x: Fix = Fix::from_int(i as i64).mul(quarter).sub(Fix::from_int(5));
            let body = self.add_body(
                Vec2::new(x, Fix::zero()),
                Vec2::new(Fix::zero(), Fix::from_int(4)),
                mass,
            );
            if i > 0 {
                self.add_constraint(
                    Constraint::Distance(
                        DistanceConstraint {
                            body_a: BodyId(i - 1),
                            body_b: body,
                            distance: quarter,
                        },
                    ),
                );
            }
            i = i + 1;
        }
        self.add_constraint(
            Constraint::Anchor(
                AnchorConstraint { body: BodyId(19), anchor: Vec2::zero(), distance: quarter },
            ),
        );
        proof {
            assert forall|k: int| 0 <= k < self.m() implies c_in_range(
                #[trigger] self.constraints@[k],
                self.n(),
            ) by {
                if k < 19 {
                    assert(self.constraints@[k] == Constraint::Distance(
                        DistanceConstraint {
                            body_a: BodyId(k as usize),
                            body_b: BodyId((k + 1) as usize),
                            distance: ratio(1, 4),
                        },
                    ));
                }
            }
        }
    }

    /// Two bodies sliding on crossed planes, tied by a rod, one of them
    /// towing a third body: the rail.
    pub fn rail(&mut self)
        requires
            old(self).time_step@ > 0,
        ensures
            final(self).wf(),
            is_rail(*final(self)),
            final(self).time_step == old(self).time_step,
            final(self).solver == old(self).solver,
    {
        self.clear();
        self.gravity = Vec2::new(Fix::zero(), Fix::from_ratio(-981, 100));
        let body1 = self.add_body(
            Vec2::new(Fix::from_int(-1), Fix::from_int(1)),
            Vec2::new(Fix::from_int(-1), Fix::from_int(1)),
            Fix::from_int(1),
        );
        let body2 = self.add_body(
            Vec2::new(Fix::from_int(1), Fix::from_int(1)),
            Vec2::zero(),
            Fix::from_int(1),
        );
        self.add_constraint(
            Constraint::Distance(
                DistanceConstraint { body_a: body1, body_b: body2, distance: Fix::from_int(2) },
            ),
        );
        let body3 = self.add_body(
            Vec2::new(Fix::zero(), Fix::from_int(1)),
            Vec2::zero(),
            Fix::from_int(1),
        );
        proof {
            lemma_unit_sq(65536int);
            lemma_unit_sq(-65536int);
            assert(spec_norm_sq(65536, 65536) == 131072);
            assert(spec_norm_sq(-65536, 65536) == 131072);
            lemma_norm_131072();
        }
        self.add_constraint(
            Constraint::Plane(
                PlaneConstraint::new(
                    body1,
                    Vec2::new(Fix::from_int(1), Fix::from_int(1)),
                    Vec2::new(Fix::from_int(-1), Fix::from_int(1)),
                ),
            ),
        );
        self.add_constraint(
            Constraint::Plane(
                PlaneConstraint::new(
                    body2,
                    Vec2::new(Fix::from_int(-1), Fix::from_int(1)),
                    Vec2::new(Fix::from_int(1), Fix::from_int(1)),
                ),
            ),
        );
        self.add_constraint(
            Constraint::Distance(
                DistanceConstraint { body_a: body1, body_b: body3, distance: Fix::from_int(1) },
            ),
        );
    }

    /// A braced square hung from a single anchor: the truss.
    pub fn structure(&mut self)
        requires
            old(self).time_step@ > 0,
        ensures
            final(self).wf(),
            is_structure(*final(self)),
            final(self).time_step == old(self).time_step,
            final(self).solver == old(self).solver,
    {
        self.clear();
        self.gravity = Vec2::new(Fix::zero(), Fix::from_ratio(-981, 100));
        let b1 = self.add_body(
            Vec2::new(Fix::from_int(1), Fix::zero()),
            Vec2::zero(),
            Fix::from_int(1),
        );
        let b2 = self.add_body(
            Vec2::new(Fix::from_ratio(5, 4), Fix::from_ratio(1, 4)),
            Vec2::zero(),
            Fix::from_int(1),
        );
        let b3 = self.add_body(
            Vec2::new(Fix::from_ratio(3, 2), Fix::zero()),
            Vec2::zero(),
            Fix::from_int(1),
        );
        let b4 = self.add_body(
            Vec2::new(Fix::from_ratio(5, 4), Fix::from_ratio(-1, 4)),
            Vec2::zero(),
            Fix::from_int(1),
        );
        let r2: Fix = Fix::from_int(2).sqrt().mul(Fix::from_ratio(1, 4));
        self.add_constraint(
            Constraint::Anchor(
                AnchorConstraint {
                    body: b2,
                    anchor: Vec2::new(Fix::zero(), Fix::from_ratio(1, 2)),
                    distance: r2,
                },
            ),
        );
        self.add_constraint(
            Constraint::Distance(DistanceConstraint { body_a: b1, body_b: b2, distance: r2 }),
        );
        self.add_constraint(
            Constraint::Distance(DistanceConstraint { body_a: b2, body_b: b3, distance: r2 }),
        );
        self.add_constraint(
            Constraint::Distance(DistanceConstraint { body_a: b3, body_b: b4, distance: r2 }),
        );
        self.add_constraint(
            Constraint::Distance(DistanceConstraint { body_a: b4, body_b: b1, distance: r2 }),
        );
        self.add_constraint(
            Constraint::Distance(
                DistanceConstraint { body_a: b1, body_b: b3, distance: Fix::from_int(1) },
            ),
        );
    }

    /// Two bodies on one rope over two fixed points: the pulley.
    pub fn pulley(&mut self)
        requires
            old(self).time_step@ > 0,
        ensures
            final(self).wf(),
            is_pulley(*final(self)),
            final(self).time_step == old(self).time_step,
            final(self).solver == old(self).solver,
    {
        self.clear();
        self.gravity = Vec2::new(Fix::zero(), Fix::from_ratio(-981, 100));
        let b1 = self.add_body(
            Vec2::new(Fix::from_int(-1), Fix::zero()),
            Vec2::new(Fix::from_int(5), Fix::zero()),
            Fix::from_int(1),
        );
        let b2 = self.add_body(
            Vec2::new(Fix::from_int(1), Fix::zero()),
            Vec2::new(Fix::from_int(-1), Fix::zero()),
            Fix::from_int(1),
        );
        self.add_constraint(
            Constraint::Pulley(
                PulleyConstraint {
                    body_a: b1,
                    body_b: b2,
                    anchor_a: Vec2::new(Fix::from_int(-1), Fix::from_int(1)),
                    anchor_b: Vec2::new(Fix::from_int(1), Fix::from_int(1)),
                    distance: Fix::from_int(2),
                },
            ),
        );
    }

    /// One body on a horizontal rail, roped over a pulley to a heavier
    /// body.
    pub fn pulley_and_rail(&mut self)
        requires
            old(self).time_step@ > 0,
        ensures
            final(self).wf(),
            is_pulley_and_rail(*final(self)),
            final(self).time_step == old(self).time_step,
            final(self).solver == old(self).solver,
    {
        self.clear();
        self.gravity = Vec2::new(Fix::zero(), Fix::from_ratio(-98, 10));
        let b1 = self.add_body(
            Vec2::new(Fix::from_int(-5), Fix::zero()),
            Vec2::zero(),
            Fix::from_int(1),
        );
        let b2 = self.add_body(
            Vec2::new(Fix::from_int(1), Fix::zero()),
            Vec2::new(Fix::from_int(5), Fix::zero()),
            Fix::from_int(2),
        );
        proof {
            lemma_unit_sq(65536int);
            lemma_mul_zero(0);
            assert(spec_norm_sq(0, 65536) == 65536);
            lemma_norm_65536();
        }
        self.add_constraint(
            Constraint::Plane(
                PlaneConstraint::new(b1, Vec2::new(Fix::zero(), Fix::from_int(1)), Vec2::zero()),
            ),
        );
        self.add_constraint(
            Constraint::Pulley(
                PulleyConstraint {
                    body_a: b1,
                    body_b: b2,
                    anchor_a: Vec2::new(Fix::from_int(-1), Fix::from_int(3)),
                    anchor_b: Vec2::new(Fix::from_int(1), Fix::from_int(1)),
                    distance: Fix::from_int(6),
                },
            ),
        );
    }

    /// Appends a strip of distance constraints over the given bodies,
    /// measuring each pair's current gap as its rest length.
    pub fn add_triangle_strip(&mut self, entities: &Vec<BodyId>)
        requires
            entities@.len() < usize::MAX,
            forall|i: int|
                0 <= i < entities@.len() ==> (#[trigger] entities@[i]).0 < old(self).bodies@.len(),
        ensures
            final(self).constraints@ == old(self).constraints@ + strip_pairs(
                old(self).bodies@,
                entities@,
                entities@.len() as int,
            ),
            final(self).bodies@ == old(self).bodies@,
            final(self).physic_index_to_entity@ == old(self).physic_index_to_entity@,
            final(self).applied_correction@ == old(self).applied_correction@,
            final(self).gravity == old(self).gravity,
            final(self).time_step == old(self).time_step,
            final(self).solver == old(self).solver,
            final(self).age == old(self).age,
            final(self).calculation_time_nanos == old(self).calculation_time_nanos,
            final(self).violation_mean == old(self).violation_mean,
    {
        if entities.len() < 2 {
            proof {
                assert(self.constraints@ =~= old(self).constraints@ + strip_pairs(
                    old(self).bodies@,
                    entities@,
                    entities@.len() as int,
                ));
            }
            return ;
        }
        let d01: Fix = self.gap(entities[0], entities[1]);
        self.add_constraint(
            Constraint::Distance(
                DistanceConstraint { body_a: entities[0], body_b: entities[1], distance: d01 },
            ),
        );
        let mut k: usize = 3;
        while k <= entities.len()
            invariant
                3 <= k <= entities@.len() + 1,
                entities@.len() >= 2,
                entities@.len() < usize::MAX,
                forall|i: int|
                    0 <= i < entities@.len() ==> (#[trigger] entities@[i]).0
                        < old(self).bodies@.len(),
                self.bodies@ == old(self).bodies@,
                self.physic_index_to_entity@ == old(self).physic_index_to_entity@,
                self.applied_correction@ == old(self).applied_correction@,
                self.gravity == old(self).gravity,
                self.time_step == old(self).time_step,
                self.solver == old(self).solver,
                self.age == old(self).age,
                self.calculation_time_nanos == old(self).calculation_time_nanos,
                self.violation_mean == old(self).violation_mean,
                self.constraints@ == old(self).constraints@ + strip_pairs(
                    old(self).bodies@,
                    entities@,
                    k - 1,
                ),
            decreases entities@.len() + 1 - k,
        {
            let da: Fix = self.gap(entities[k - 1], entities[k - 3]);
            self.add_constraint(
                Constraint::Distance(
                    DistanceConstraint {
                        body_a: entities[k - 1],
                        body_b: entities[k - 3],
                        distance: da,
                    },
                ),
            );
            let db: Fix = self.gap(entities[k - 1], entities[k - 2]);
            self.add_constraint(
                Constraint::Distance(
                    DistanceConstraint {
                        body_a: entities[k - 1],
                        body_b: entities[k - 2],
                        distance: db,
                    },
                ),
            );
            k = k + 1;
        }
    }

    /// The current distance between two bodies.
    fn gap(&self, a: BodyId, b: BodyId) -> (r: Fix)
        requires
            a.0 < self.bodies@.len(),
            b.0 < self.bodies@.len(),
        ensures
            r@ == spec_gap_norm(self.bodies@[a.0 as int].pos, self.bodies@[b.0 as int].pos),
    {
        self.bodies[a.0].pos.sub(self.bodies[b.0].pos).norm()
    }

    /// A twelve-body deck strip between two anchors with a heavy load
    /// hung from the middle: the bridge.
    pub fn bridge(&mut self)
        requires
            old(self).time_step@ > 0,
        ensures
            final(self).wf(),
            is_bridge(*final(self)),
            final(self).time_step == old(self).time_step,
            final(self).solver == old(self).solver,
    {
        self.clear();
        self.gravity = Vec2::new(Fix::zero(), Fix::from_ratio(-98, 10));
        let half: Fix = Fix::from_ratio(1, 2);
        let threehalf: Fix = Fix::from_ratio(3, 2);
        let mut bodies: Vec<BodyId> = Vec::new();
        bodies.push(self.add_body(Vec2::new(threehalf.neg(), Fix::zero()), Vec2::zero(), Fix::from_int(1)));
        bodies.push(self.add_body(Vec2::new(Fix::from_int(-1), Fix::zero()), Vec2::zero(), Fix::from_int(1)));
        bodies.push(self.add_body(Vec2::new(Fix::from_int(-1), half), Vec2::zero(), Fix::from_int(1)));
        bodies.push(self.add_body(Vec2::new(half.neg(), Fix::zero()), Vec2::zero(), Fix::from_int(1)));
        bodies.push(self.add_body(Vec2::new(half.neg(), half), Vec2::zero(), Fix::from_int(1)));
        bodies.push(self.add_body(Vec2::new(Fix::zero(), Fix::zero()), Vec2::zero(), Fix::from_int(1)));
        bodies.push(self.add_body(Vec2::new(Fix::zero(), half), Vec2::zero(), Fix::from_int(1)));
        bodies.push(self.add_body(Vec2::new(half, Fix::zero()), Vec2::zero(), Fix::from_int(1)));
        bodies.push(self.add_body(Vec2::new(half, half), Vec2::zero(), Fix::from_int(1)));
        bodies.push(self.add_body(Vec2::new(Fix::from_int(1), Fix::zero()), Vec2::zero(), Fix::from_int(1)));
        bodies.push(self.add_body(Vec2::new(Fix::from_int(1), half), Vec2::zero(), Fix::from_int(1)));
        bodies.push(self.add_body(Vec2::new(threehalf, Fix::zero()), Vec2::zero(), Fix::from_int(1)));
        let load = self.add_body(
            Vec2::new(Fix::zero(), Fix::from_int(1)),
            Vec2::new(Fix::from_ratio(1, 100), Fix::zero()),
            Fix::from_int(10),
        );
        self.add_constraint(
            Constraint::Distance(
                DistanceConstraint { body_a: bodies[5], body_b: load, distance: Fix::from_int(1) },
            ),
        );
        proof {
            assert(bodies@ =~= bridge_ids());
        }
        self.add_triangle_strip(&bodies);
        self.add_constraint(
            Constraint::Anchor(
                AnchorConstraint {
                    body: bodies[0],
                    anchor: Vec2::new(threehalf.neg(), Fix::from_int(1)),
                    distance: Fix::from_int(1),
                },
            ),
        );
        self.add_constraint(
            Constraint::Anchor(
                AnchorConstraint {
                    body: bodies[11],
                    anchor: Vec2::new(threehalf, Fix::from_int(1)),
                    distance: Fix::from_int(1),
                },
            ),
        );
        proof {
            lemma_strip_len(self.bodies@, bridge_ids(), 12);
            lemma_strip_in_range(self.bodies@, bridge_ids(), 12, 13);
            assert(self.constraints@ =~= seq![
                Constraint::Distance(
                    DistanceConstraint {
                        body_a: BodyId(5),
                        body_b: BodyId(12),
                        distance: fix(65536),
                    },
                ),
            ] + strip_pairs(self.bodies@, bridge_ids(), 12) + seq![
                Constraint::Anchor(
                    AnchorConstraint {
                        body: BodyId(0),
                        anchor: v2(spec_neg(ratio(3, 2)@), 65536),
                        distance: fix(65536),
                    },
                ),
                Constraint::Anchor(
                    AnchorConstraint {
                        body: BodyId(11),
                        anchor: v2(ratio(3, 2)@, 65536),
                        distance: fix(65536),
                    },
                ),
            ]);
            assert forall|k: int| 0 <= k < self.m() implies c_in_range(
                #[trigger] self.constraints@[k],
                self.n(),
            ) by {
                if 1 <= k < 22 {
                    assert(self.constraints@[k] == strip_pairs(self.bodies@, bridge_ids(), 12)[k
                        - 1]);
                }
            }
        }
    }

    /// The soft variant of the bridge.  Its elastic elements need a
    /// strategy that understands softness; the rigid strategies here
    /// treat it as the rigid bridge, so it is populated identically.
    pub fn bridge_soft(&mut self)
        requires
            old(self).time_step@ > 0,
        ensures
            final(self).wf(),
            is_bridge(*final(self)),
            final(self).time_step == old(self).time_step,
            final(self).solver == old(self).solver,
    {
        self.bridge();
    }
}

/// Length of the strip over the first `k` bodies: one link for the
/// first pair and two for every later body.
pub proof fn lemma_strip_len(bodies: Seq<Body>, ids: Seq<BodyId>, k: int)
    requires
        k >= 2,
    ensures
        strip_pairs(bodies, ids, k).len() == 2 * k - 3,
    decreases k,
{
    if k > 2 {
        lemma_strip_len(bodies, ids, k - 1);
    }
}

/// Every strip constraint references only the given bodies.
pub proof fn lemma_strip_in_range(bodies: Seq<Body>, ids: Seq<BodyId>, k: int, n: int)
    requires
        forall|i: int| 0 <= i < ids.len() ==> (#[trigger] ids[i]).0 < n,
        k <= ids.len(),
    ensures
        forall|t: int|
            0 <= t < strip_pairs(bodies, ids, k).len() ==> c_in_range(
                #[trigger] strip_pairs(bodies, ids, k)[t],
                n,
            ),
    decreases k,
{
    if k == 2 {
        assert(strip_pairs(bodies, ids, 2)[0] == strip_link(bodies, ids[0], ids[1]));
    } else if k > 2 {
        lemma_strip_in_range(bodies, ids, k - 1, n);
        assert forall|t: int|
            0 <= t < strip_pairs(bodies, ids, k).len() implies c_in_range(
            #[trigger] strip_pairs(bodies, ids, k)[t],
            n,
        ) by {
            let pre = strip_pairs(bodies, ids, k - 1);
            if t < pre.len() {
                assert(strip_pairs(bodies, ids, k)[t] == pre[t]);
            } else if t == pre.len() {
                assert(strip_pairs(bodies, ids, k)[t] == strip_link(bodies, ids[k - 1], ids[k - 3]));
            } else {
                assert(strip_pairs(bodies, ids, k)[t] == strip_link(bodies, ids[k - 1], ids[k - 2]));
            }
        }
    }
}

/// The squared norm 131072 (two units squared, as raw value 2.0) has a
/// nonzero fixed-point square root.
proof fn lemma_norm_131072()
    ensures
        crate::fixed::spec_sqrt(131072) >= 1,
{
    lemma_isqrt_bounds((131072 * 65536) as int);
}

/// The squared norm 65536 (1.0) has a nonzero fixed-point square root.
proof fn lemma_norm_65536()
    ensures
        crate::fixed::spec_sqrt(65536) >= 1,
{
    lemma_isqrt_bounds((65536 * 65536) as int);
}

} // verus!
