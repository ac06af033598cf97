//! The simulation state: body store, constraint set, solver selection
//! and the derived dense solver index.
//!
//! Bodies live in an arena in insertion order; a [`BodyId`] is a slot.
//! The dense solver index (slot per body, recorded both as a permutation
//! vector and as a per-body tag) lays out all vectors and matrices; it
//! is rebuilt lazily, the first time a tick finds it empty after a
//! scenario switch.

use vstd::prelude::*;
use crate::fixed::{Fix, spec_sub, spec_mul, spec_div};
use crate::vec2::Vec2;
use crate::body::{Body, BodyId, SubjectToPhysic};
use crate::constraints::Constraint;
use crate::matrix::vec_zeros;

verus! {

/// The nine interchangeable correction strategies.
#[derive(Clone, Copy, PartialEq, Eq, Structural, Hash, Debug)]
pub enum Solver {
    FirstOrder,
    SecondOrder,
    FirstOrderWithPrepass,
    HybridV2,
    HybridV3,
    HybridV3cgm,
    HybridV4,
    Pbd,
    HybridV3Pbd,
}

impl Solver {
    /// Every strategy, in menu order.
    pub fn list() -> (r: Vec<Solver>)
        ensures
            r@ =~= seq![
                Solver::FirstOrder,
                Solver::SecondOrder,
                Solver::FirstOrderWithPrepass,
                Solver::HybridV2,
                Solver::HybridV3,
                Solver::HybridV3cgm,
                Solver::HybridV4,
                Solver::Pbd,
                Solver::HybridV3Pbd,
            ],
    {
        let mut v: Vec<Solver> = Vec::new();
        v.push(Solver::FirstOrder);
        v.push(Solver::SecondOrder);
        v.push(Solver::FirstOrderWithPrepass);
        v.push(Solver::HybridV2);
        v.push(Solver::HybridV3);
        v.push(Solver::HybridV3cgm);
        v.push(Solver::HybridV4);
        v.push(Solver::Pbd);
        v.push(Solver::HybridV3Pbd);
        v
    }
}

/// Why a tick failed.  A failed tick is fatal for that tick: no partial
/// correction is applied and nothing is retried.
#[derive(Clone, Copy, PartialEq, Eq, Structural, Debug)]
pub enum SolveError {
    /// The effective mass matrix K = J·M⁻¹·Jᵗ is singular or not
    /// positive definite (redundant or conflicting constraints).
    SingularSystem,
    /// The iterative solve hit its iteration cap before its residual
    /// threshold.
    NonConvergent,
    /// A constraint's geometry makes one of its exact fixed-point
    /// divisors zero (for instance two coincident bodies).
    DegenerateConstraint,
}

/// A `Fix` with the given raw value; raw values out of the `i64` range
/// wrap, but every produced value in this crate is already saturated.
pub open spec fn fix(raw: int) -> Fix {
    Fix { raw: raw as i64 }
}

/// The planar vector with the given raw components.
pub open spec fn v2(x: int, y: int) -> Vec2 {
    Vec2 { x: fix(x), y: fix(y) }
}

/// The `Fix` that `Fix::from_ratio(num, den)` yields.
pub open spec fn ratio(num: int, den: int) -> Fix {
    fix(spec_div(num * 65536, den * 65536))
}

/// The body that `add_body` spawns for the given state.
pub open spec fn spec_spawn(pos: Vec2, vel: Vec2, mass: Fix, dt: Fix) -> Body {
    Body {
        pos,
        last_tick: Vec2 {
            x: fix(spec_sub(pos.x@, spec_mul(vel.x@, dt@))),
            y: fix(spec_sub(pos.y@, spec_mul(vel.y@, dt@))),
        },
        vel,
        accel: v2(0, 0),
        mass,
        inv_mass: fix(spec_div(65536, mass@)),
        tag: SubjectToPhysic(0),
    }
}

/// Whether a constraint references only bodies below `n`.
pub open spec fn c_in_range(c: Constraint, n: int) -> bool {
    match c {
        Constraint::Anchor(a) => a.body.0 < n,
        Constraint::Distance(d) => d.body_a.0 < n && d.body_b.0 < n,
        Constraint::Plane(p) => p.body.0 < n,
        Constraint::Pulley(p) => p.body_a.0 < n && p.body_b.0 < n,
    }
}

/// The whole simulation state owned by the solver worker.
pub struct GameContent {
    /// The body arena, in insertion order.
    pub bodies: Vec<Body>,
    /// Dense solver index -> body handle; stale when shorter than the
    /// body population.
    pub physic_index_to_entity: Vec<BodyId>,
    /// The ordered constraint set.
    pub constraints: Vec<Constraint>,
    /// Per-constraint multiplier recorded by the last solve, in the
    /// force convention, for visualization.
    pub applied_correction: Vec<Fix>,
    /// Gravitational acceleration applied to every body.
    pub gravity: Vec2,
    /// Fixed time step of one tick.
    pub time_step: Fix,
    /// Monotonic tick counter, reset by scenario switches.
    pub age: u32,
    /// Wall-clock duration of the last solve, supplied by the caller.
    pub calculation_time_nanos: u64,
    /// Mean absolute positional violation from the last-evaluated C.
    pub violation_mean: Fix,
    /// The active correction strategy.
    pub solver: Solver,
}

impl GameContent {
    /// Body count.
    pub open spec fn n(self) -> int {
        self.bodies@.len() as int
    }

    /// Constraint count.
    pub open spec fn m(self) -> int {
        self.constraints@.len() as int
    }

    /// Every body has positive inverse mass.
    pub open spec fn bodies_wf(self) -> bool {
        forall|i: int| 0 <= i < self.n() ==> (#[trigger] self.bodies@[i]).wf()
    }

    /// Every constraint references only live bodies.
    pub open spec fn constraints_in_range(self) -> bool {
        forall|k: int| 0 <= k < self.m() ==> c_in_range(#[trigger] self.constraints@[k], self.n())
    }

    /// The state invariant every public operation preserves.
    pub open spec fn wf(self) -> bool {
        self.bodies_wf() && self.constraints_in_range() && self.time_step@ > 0
    }

    /// The dense solver index is current: slot i holds body i, every
    /// body is tagged with its slot, and the recorded multiplier vector
    /// has one entry per constraint.
    pub open spec fn index_built(self) -> bool {
        self.physic_index_to_entity@.len() == self.n()
        && (forall|i: int|
            0 <= i < self.n() ==> #[trigger] self.physic_index_to_entity@[i] == BodyId(i as usize))
        && (forall|i: int|
            0 <= i < self.n() ==> (#[trigger] self.bodies@[i]).tag == SubjectToPhysic(i as usize))
        && self.applied_correction@.len() == self.m()
    }

    /// Gravity is zero and every body is at rest.
    pub open spec fn at_rest(self) -> bool {
        self.gravity.x@ == 0 && self.gravity.y@ == 0 && (forall|i: int|
            0 <= i < self.n()
                ==> (#[trigger] self.bodies@[i]).vel.x@ == 0 && self.bodies@[i].vel.y@ == 0)
    }

    /// `b` has the same positions and velocities as `a`, body by body.
    pub open spec fn holds_station(a: GameContent, b: GameContent) -> bool {
        b.n() == a.n() && (forall|i: int|
            0 <= i < a.n()
                ==> (#[trigger] b.bodies@[i]).pos == a.bodies@[i].pos
                    && b.bodies@[i].vel == a.bodies@[i].vel)
    }

    /// The parts of the state a solve never touches: the populations,
    /// the masses and tags, the selection, the clock.
    pub open spec fn same_population(a: GameContent, b: GameContent) -> bool {
        b.n() == a.n()
        && b.constraints@ == a.constraints@
        && b.gravity == a.gravity
        && b.time_step == a.time_step
        && b.solver == a.solver
        && b.age == a.age
        && b.calculation_time_nanos == a.calculation_time_nanos
        && b.physic_index_to_entity@ == a.physic_index_to_entity@
        && (forall|i: int|
            0 <= i < a.n()
                ==> (#[trigger] b.bodies@[i]).mass == a.bodies@[i].mass
                    && b.bodies@[i].inv_mass == a.bodies@[i].inv_mass
                    && b.bodies@[i].tag == a.bodies@[i].tag)
    }

    /// A fresh, empty state with the given fixed time step.
    pub fn empty(time_step: Fix) -> (r: GameContent)
        requires
            time_step@ > 0,
        ensures
            r.wf(),
            r.n() == 0,
            r.m() == 0,
            r.age == 0,
            r.time_step == time_step,
            r.solver == Solver::HybridV3,
            r.gravity == (Vec2 { x: fix(0), y: ratio(-981, 100) }),
            r.physic_index_to_entity@.len() == 0,
            r.applied_correction@.len() == 0,
            r.violation_mean@ == 0,
            r.calculation_time_nanos == 0,
    {
        GameContent {
            bodies: Vec::new(),
            physic_index_to_entity: Vec::new(),
            constraints: Vec::new(),
            applied_correction: Vec::new(),
            gravity: Vec2::new(Fix::zero(), Fix::from_ratio(-981, 100)),
            time_step,
            age: 0,
            calculation_time_nanos: 0,
            violation_mean: Fix::zero(),
            solver: Solver::HybridV3,
        }
    }

    /// Removes every body, constraint and index entry and resets the
    /// tick counter; the time step, gravity and strategy survive.
    pub fn clear(&mut self)
        ensures
            final(self).n() == 0,
            final(self).m() == 0,
            final(self).physic_index_to_entity@.len() == 0,
            final(self).age == 0,
            final(self).time_step == old(self).time_step,
            final(self).solver == old(self).solver,
            final(self).gravity == old(self).gravity,
            final(self).applied_correction@ == old(self).applied_correction@,
            final(self).violation_mean == old(self).violation_mean,
            final(self).calculation_time_nanos == old(self).calculation_time_nanos,
    {
        self.bodies.clear();
        self.physic_index_to_entity.clear();
        self.constraints.clear();
        self.age = 0;
    }

    /// Spawns a body with the given state; the previous-tick position
    /// is back-projected by one time step for the Verlet variants.
    /// Mass is capped so the inverse mass stays positive.
    pub fn add_body(&mut self, pos: Vec2, velocity: Vec2, mass: Fix) -> (r: BodyId)
        requires
            0 < mass@ <= 0x100000000,
        ensures
            final(self).bodies@ == old(self).bodies@.push(
                spec_spawn(pos, velocity, mass, old(self).time_step),
            ),
            r == BodyId(old(self).bodies@.len() as usize),
            final(self).bodies@[r.0 as int].wf(),
            final(self).constraints@ == old(self).constraints@,
            final(self).physic_index_to_entity@ == old(self).physic_index_to_entity@,
            final(self).applied_correction@ == old(self).applied_correction@,
            final(self).gravity == old(self).gravity,
            final(self).time_step == old(self).time_step,
            final(self).solver == old(self).solver,
            final(self).age == old(self).age,
            final(self).calculation_time_nanos == old(self).calculation_time_nanos,
            final(self).violation_mean == old(self).violation_mean,
    {
        let id = BodyId(self.bodies.len());
        let last_tick = pos.sub(velocity.scale(self.time_step));
        let inv_mass = Fix::one().div(mass);
        proof {
            crate::fixed::lemma_div_lower_bound(65536int, mass@);
        }
        self.bodies.push(
            Body {
                pos,
                last_tick,
                vel: velocity,
                accel: Vec2::zero(),
                mass,
                inv_mass,
                tag: SubjectToPhysic(0),
            },
        );
        id
    }

    /// Appends a constraint to the ordered set.
    pub fn add_constraint(&mut self, constraint: Constraint)
        ensures
            final(self).constraints@ == old(self).constraints@.push(constraint),
            final(self).bodies@ == old(self).bodies@,
            final(self).physic_index_to_entity@ == old(self).physic_index_to_entity@,
            final(self).applied_correction@ == old(self).applied_correction@,
            final(self).gravity == old(self).gravity,
            final(self).time_step == old(self).time_step,
            final(self).solver == old(self).solver,
            final(self).age == old(self).age,
            final(self).calculation_time_nanos == old(self).calculation_time_nanos,
            final(self).violation_mean == old(self).violation_mean,
    {
        self.constraints.push(constraint);
    }

    /// Rebuilds the dense solver index: body i gets slot i, in
    /// insertion order, and the recorded multiplier vector is reset to
    /// one zero per constraint.
    pub fn update_solver_index(&mut self)
        ensures
            final(self).index_built(),
            final(self).n() == old(self).n(),
            final(self).constraints@ == old(self).constraints@,
            final(self).gravity == old(self).gravity,
            final(self).time_step == old(self).time_step,
            final(self).solver == old(self).solver,
            final(self).age == old(self).age,
            final(self).calculation_time_nanos == old(self).calculation_time_nanos,
            final(self).violation_mean == old(self).violation_mean,
            forall|i: int|
                0 <= i < old(self).n()
                    ==> (#[trigger] final(self).bodies@[i]) == (Body {
                        tag: SubjectToPhysic(i as usize),
                        ..old(self).bodies@[i]
                    }),
            forall|i: int|
                0 <= i < final(self).m() ==> (#[trigger] final(self).applied_correction@[i])@ == 0,
    {
        let n: usize = self.bodies.len();
        self.physic_index_to_entity.clear();
        let mut i: usize = 0;
        while i < n
            invariant
                n == self.bodies@.len(),
                i <= n,
                self.physic_index_to_entity@.len() == i,
                self.constraints@ == old(self).constraints@,
                self.gravity == old(self).gravity,
                self.time_step == old(self).time_step,
                self.solver == old(self).solver,
                self.age == old(self).age,
                self.calculation_time_nanos == old(self).calculation_time_nanos,
                self.violation_mean == old(self).violation_mean,
                self.applied_correction@ == old(self).applied_correction@,
                forall|i2: int|
                    0 <= i2 < i ==> #[trigger] self.physic_index_to_entity@[i2]
                        == BodyId(i2 as usize),
                forall|i2: int|
                    0 <= i2 < i ==> (#[trigger] self.bodies@[i2]) == (Body {
                        tag: SubjectToPhysic(i2 as usize),
                        ..old(self).bodies@[i2]
                    }),
                forall|i2: int|
                    i <= i2 < n ==> (#[trigger] self.bodies@[i2]) == old(self).bodies@[i2],
            decreases n - i,
        {
            let mut b: Body = self.bodies[i];
            b.tag = SubjectToPhysic(i);
            self.bodies.set(i, b);
            self.physic_index_to_entity.push(BodyId(i));
            i = i + 1;
        }
        self.applied_correction = vec_zeros(self.constraints.len());
    }
}

} // verus!
