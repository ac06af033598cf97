//! State integrators: the per-body update loops shared by the solver
//! strategies.  Each helper pins every body's new state exactly as a
//! function of the old state and the correction vector handed in.

use vstd::prelude::*;
use crate::fixed::{Fix, spec_add, spec_sub, spec_mul, spec_div};
use crate::vec2::Vec2;
use crate::body::Body;
use crate::world::{GameContent, fix};

verus! {

/// The body after its velocity picks up gravity for one step.
pub open spec fn spec_grav_kick(b: Body, g: Vec2, dt: int) -> Body {
    Body {
        vel: Vec2 {
            x: fix(spec_add(b.vel.x@, spec_mul(g.x@, dt))),
            y: fix(spec_add(b.vel.y@, spec_mul(g.y@, dt))),
        },
        ..b
    }
}

/// The body after an impulse correction distributed by inverse mass,
/// followed by an explicit Euler position update.
pub open spec fn spec_momentum_move(b: Body, mx: int, my: int, dt: int) -> Body {
    let vx = spec_add(b.vel.x@, spec_mul(mx, b.inv_mass@));
    let vy = spec_add(b.vel.y@, spec_mul(my, b.inv_mass@));
    Body {
        vel: Vec2 { x: fix(vx), y: fix(vy) },
        pos: Vec2 {
            x: fix(spec_add(b.pos.x@, spec_mul(vx, dt))),
            y: fix(spec_add(b.pos.y@, spec_mul(vy, dt))),
        },
        ..b
    }
}

/// The body after an impulse correction alone: velocity changes, the
/// position stays.
pub open spec fn spec_momentum_kick(b: Body, mx: int, my: int) -> Body {
    Body {
        vel: Vec2 {
            x: fix(spec_add(b.vel.x@, spec_mul(mx, b.inv_mass@))),
            y: fix(spec_add(b.vel.y@, spec_mul(my, b.inv_mass@))),
        },
        ..b
    }
}

/// The body after a force-level correction: the force becomes an
/// acceleration by the inverse mass, the velocity integrates it, and
/// the position advances by a second-order Taylor step.
pub open spec fn spec_force_move(b: Body, fx_: int, fy_: int, dt: int) -> Body {
    let ax = spec_mul(fx_, b.inv_mass@);
    let ay = spec_mul(fy_, b.inv_mass@);
    let vx = spec_add(b.vel.x@, spec_mul(ax, dt));
    let vy = spec_add(b.vel.y@, spec_mul(ay, dt));
    let s = spec_mul(spec_mul(32768, dt), dt);
    Body {
        vel: Vec2 { x: fix(vx), y: fix(vy) },
        pos: Vec2 {
            x: fix(spec_add(spec_add(b.pos.x@, spec_mul(vx, dt)), spec_mul(ax, s))),
            y: fix(spec_add(spec_add(b.pos.y@, spec_mul(vy, dt)), spec_mul(ay, s))),
        },
        ..b
    }
}

/// The body after a force-level correction applied to the velocity
/// alone, by explicit Euler.
pub open spec fn spec_force_kick(b: Body, fx_: int, fy_: int, dt: int) -> Body {
    Body {
        vel: Vec2 {
            x: fix(spec_add(b.vel.x@, spec_mul(spec_mul(fx_, b.inv_mass@), dt))),
            y: fix(spec_add(b.vel.y@, spec_mul(spec_mul(fy_, b.inv_mass@), dt))),
        },
        ..b
    }
}

/// The body after an impulse correction plus a position update that
/// keeps a second-order Taylor term from an earlier force pass.
pub open spec fn spec_prepass_move(b: Body, mx: int, my: int, fx_: int, fy_: int, dt: int) -> Body {
    let vx = spec_add(b.vel.x@, spec_mul(mx, b.inv_mass@));
    let vy = spec_add(b.vel.y@, spec_mul(my, b.inv_mass@));
    let ax = spec_mul(fx_, b.inv_mass@);
    let ay = spec_mul(fy_, b.inv_mass@);
    let s = spec_mul(spec_mul(32768, dt), dt);
    Body {
        vel: Vec2 { x: fix(vx), y: fix(vy) },
        pos: Vec2 {
            x: fix(spec_add(spec_add(b.pos.x@, spec_mul(vx, dt)), spec_mul(ax, s))),
            y: fix(spec_add(spec_add(b.pos.y@, spec_mul(vy, dt)), spec_mul(ay, s))),
        },
        ..b
    }
}

/// The body after a Verlet step under a force-level correction: the
/// new position extrapolates through the previous-tick position, and
/// the velocity is the central difference over two steps.
pub open spec fn spec_verlet_move(b: Body, fx_: int, fy_: int, dt: int) -> Body {
    let ax = spec_mul(fx_, b.inv_mass@);
    let ay = spec_mul(fy_, b.inv_mass@);
    let px = spec_add(
        spec_sub(spec_add(b.pos.x@, b.pos.x@), b.last_tick.x@),
        spec_mul(spec_mul(ax, dt), dt),
    );
    let py = spec_add(
        spec_sub(spec_add(b.pos.y@, b.pos.y@), b.last_tick.y@),
        spec_mul(spec_mul(ay, dt), dt),
    );
    let two_dt = spec_mul(131072, dt);
    Body {
        pos: Vec2 { x: fix(px), y: fix(py) },
        last_tick: b.pos,
        vel: Vec2 {
            x: fix(spec_div(spec_sub(px, b.last_tick.x@), two_dt)),
            y: fix(spec_div(spec_sub(py, b.last_tick.y@), two_dt)),
        },
        ..b
    }
}

/// The body after a position-based Verlet prediction under gravity.
pub open spec fn spec_pbd_predict(b: Body, g: Vec2, dt: int) -> Body {
    let s = spec_mul(dt, dt);
    Body {
        pos: Vec2 {
            x: fix(spec_add(spec_sub(spec_mul(b.pos.x@, 131072), b.last_tick.x@), spec_mul(g.x@, s))),
            y: fix(spec_add(spec_sub(spec_mul(b.pos.y@, 131072), b.last_tick.y@), spec_mul(g.y@, s))),
        },
        last_tick: b.pos,
        ..b
    }
}

/// The body after a direct positional correction, the velocity derived
/// after the fact from the position delta over the step:
/// (new − previous) / Δt.
pub open spec fn spec_pbd_correct(b: Body, mx: int, my: int, dt: int) -> Body {
    let px = spec_add(b.pos.x@, spec_mul(mx, b.inv_mass@));
    let py = spec_add(b.pos.y@, spec_mul(my, b.inv_mass@));
    Body {
        pos: Vec2 { x: fix(px), y: fix(py) },
        vel: Vec2 {
            x: fix(spec_div(spec_sub(px, b.last_tick.x@), dt)),
            y: fix(spec_div(spec_sub(py, b.last_tick.y@), dt)),
        },
        ..b
    }
}

/// The body after a direct positional correction alone.
pub open spec fn spec_pos_patch(b: Body, mx: int, my: int) -> Body {
    Body {
        pos: Vec2 {
            x: fix(spec_add(b.pos.x@, spec_mul(mx, b.inv_mass@))),
            y: fix(spec_add(b.pos.y@, spec_mul(my, b.inv_mass@))),
        },
        ..b
    }
}

/// A body sequence after the gravity kick.
pub open spec fn grav_kicked(bodies: Seq<Body>, g: Vec2, dt: int) -> Seq<Body> {
    Seq::new(bodies.len(), |i: int| spec_grav_kick(bodies[i], g, dt))
}

/// A body sequence after an impulse correction and Euler integration.
pub open spec fn momentum_moved(bodies: Seq<Body>, mom: Seq<Fix>, dt: int) -> Seq<Body> {
    Seq::new(bodies.len(), |i: int| spec_momentum_move(bodies[i], mom[2 * i]@, mom[2 * i + 1]@, dt))
}

/// A body sequence after an impulse correction alone.
pub open spec fn momentum_kicked(bodies: Seq<Body>, mom: Seq<Fix>) -> Seq<Body> {
    Seq::new(bodies.len(), |i: int| spec_momentum_kick(bodies[i], mom[2 * i]@, mom[2 * i + 1]@))
}

/// A body sequence after a force-level correction and Taylor step.
pub open spec fn force_moved(bodies: Seq<Body>, f: Seq<Fix>, dt: int) -> Seq<Body> {
    Seq::new(bodies.len(), |i: int| spec_force_move(bodies[i], f[2 * i]@, f[2 * i + 1]@, dt))
}

/// A body sequence after a force-level velocity kick.
pub open spec fn force_kicked(bodies: Seq<Body>, f: Seq<Fix>, dt: int) -> Seq<Body> {
    Seq::new(bodies.len(), |i: int| spec_force_kick(bodies[i], f[2 * i]@, f[2 * i + 1]@, dt))
}

/// A body sequence after the prepass correction and Taylor step.
pub open spec fn prepass_moved(bodies: Seq<Body>, mom: Seq<Fix>, f: Seq<Fix>, dt: int) -> Seq<
    Body,
> {
    Seq::new(
        bodies.len(),
        |i: int|
            spec_prepass_move(bodies[i], mom[2 * i]@, mom[2 * i + 1]@, f[2 * i]@, f[2 * i + 1]@, dt),
    )
}

/// A body sequence after a Verlet step under a force-level correction.
pub open spec fn verlet_moved(bodies: Seq<Body>, f: Seq<Fix>, dt: int) -> Seq<Body> {
    Seq::new(bodies.len(), |i: int| spec_verlet_move(bodies[i], f[2 * i]@, f[2 * i + 1]@, dt))
}

/// A body sequence after the position-based Verlet prediction.
pub open spec fn pbd_predicted(bodies: Seq<Body>, g: Vec2, dt: int) -> Seq<Body> {
    Seq::new(bodies.len(), |i: int| spec_pbd_predict(bodies[i], g, dt))
}

/// A body sequence after a positional correction with derived
/// velocities.
pub open spec fn pbd_corrected(bodies: Seq<Body>, mom: Seq<Fix>, dt: int) -> Seq<Body> {
    Seq::new(bodies.len(), |i: int| spec_pbd_correct(bodies[i], mom[2 * i]@, mom[2 * i + 1]@, dt))
}

/// A body sequence after a positional correction alone.
pub open spec fn pos_patched(bodies: Seq<Body>, mom: Seq<Fix>) -> Seq<Body> {
    Seq::new(bodies.len(), |i: int| spec_pos_patch(bodies[i], mom[2 * i]@, mom[2 * i + 1]@))
}

/// The parts of the state no correction pass touches: populations,
/// masses, tags, selections, counters.
pub open spec fn pass_frame(a: GameContent, b: GameContent) -> bool {
    &&& b.n() == a.n()
    &&& b.constraints@ == a.constraints@
    &&& b.gravity == a.gravity
    &&& b.time_step == a.time_step
    &&& b.solver == a.solver
    &&& b.age == a.age
    &&& b.calculation_time_nanos == a.calculation_time_nanos
    &&& b.physic_index_to_entity@ == a.physic_index_to_entity@
    &&& b.applied_correction@ == a.applied_correction@
    &&& b.violation_mean == a.violation_mean
    &&& forall|i: int|
        0 <= i < a.n()
            ==> (#[trigger] b.bodies@[i]).mass == a.bodies@[i].mass && b.bodies@[i].inv_mass
                == a.bodies@[i].inv_mass && b.bodies@[i].tag == a.bodies@[i].tag
}

impl GameContent {
    /// Integrates gravity into every velocity by explicit Euler.
    pub fn integrate_gravity(&mut self)
        ensures
            pass_frame(*old(self), *final(self)),
            forall|i: int|
                0 <= i < old(self).n()
                    ==> (#[trigger] final(self).bodies@[i]) == spec_grav_kick(
                        old(self).bodies@[i],
                        old(self).gravity,
                        old(self).time_step@,
                    ),
            final(self).bodies@ == grav_kicked(old(self).bodies@, old(self).gravity, old(self).time_step@),
    {
        let nb: usize = self.bodies.len();
        let kick: Vec2 = self.gravity.scale(self.time_step);
        let mut i: usize = 0;
        while i < nb
            invariant
                nb == self.n(),
                i <= nb,
                pass_frame(*old(self), *self),
                kick.x@ == spec_mul(old(self).gravity.x@, old(self).time_step@),
                kick.y@ == spec_mul(old(self).gravity.y@, old(self).time_step@),
                forall|i2: int|
                    0 <= i2 < i
                        ==> (#[trigger] self.bodies@[i2]) == spec_grav_kick(
                            old(self).bodies@[i2],
                            old(self).gravity,
                            old(self).time_step@,
                        ),
                forall|i2: int| i <= i2 < nb ==> #[trigger] self.bodies@[i2]
                    == old(self).bodies@[i2],
            decreases nb - i,
        {
            let mut b: Body = self.bodies[i];
            b.vel = b.vel.add(kick);
            self.bodies.set(i, b);
            i = i + 1;
        }
        proof {
            assert(self.bodies@ =~= grav_kicked(old(self).bodies@, old(self).gravity, old(self).time_step@));
        }
    }

    /// Applies a momentum correction vector and integrates positions by
    /// explicit Euler.
    pub fn apply_momentum_euler(&mut self, momentum: &Vec<Fix>)
        requires
            momentum@.len() == 2 * old(self).n(),
            old(self).n() * 2 < usize::MAX,
        ensures
            pass_frame(*old(self), *final(self)),
            forall|i: int|
                0 <= i < old(self).n()
                    ==> (#[trigger] final(self).bodies@[i]) == spec_momentum_move(
                        old(self).bodies@[i],
                        momentum@[2 * i]@,
                        momentum@[2 * i + 1]@,
                        old(self).time_step@,
                    ),
            final(self).bodies@ == momentum_moved(old(self).bodies@, momentum@, old(self).time_step@),
    {
        let nb: usize = self.bodies.len();
        let mut i: usize = 0;
        while i < nb
            invariant
                nb == self.n(),
                i <= nb,
                2 * nb < usize::MAX,
                momentum@.len() == 2 * nb,
                pass_frame(*old(self), *self),
                self.time_step == old(self).time_step,
                forall|i2: int|
                    0 <= i2 < i
                        ==> (#[trigger] self.bodies@[i2]) == spec_momentum_move(
                            old(self).bodies@[i2],
                            momentum@[2 * i2]@,
                            momentum@[2 * i2 + 1]@,
                            old(self).time_step@,
                        ),
                forall|i2: int| i <= i2 < nb ==> #[trigger] self.bodies@[i2]
                    == old(self).bodies@[i2],
            decreases nb - i,
        {
            let mut b: Body = self.bodies[i];
            let m: Vec2 = Vec2::new(momentum[2 * i], momentum[2 * i + 1]);
            b.vel = b.vel.add(m.scale(b.inv_mass));
            b.pos = b.pos.add(b.vel.scale(self.time_step));
            self.bodies.set(i, b);
            i = i + 1;
        }
        proof {
            assert(self.bodies@ =~= momentum_moved(old(self).bodies@, momentum@, old(self).time_step@));
        }
    }

    /// Applies a momentum correction vector to the velocities alone.
    pub fn apply_momentum_kick(&mut self, momentum: &Vec<Fix>)
        requires
            momentum@.len() == 2 * old(self).n(),
            old(self).n() * 2 < usize::MAX,
        ensures
            pass_frame(*old(self), *final(self)),
            forall|i: int|
                0 <= i < old(self).n()
                    ==> (#[trigger] final(self).bodies@[i]) == spec_momentum_kick(
                        old(self).bodies@[i],
                        momentum@[2 * i]@,
                        momentum@[2 * i + 1]@,
                    ),
            final(self).bodies@ == momentum_kicked(old(self).bodies@, momentum@),
    {
        let nb: usize = self.bodies.len();
        let mut i: usize = 0;
        while i < nb
            invariant
                nb == self.n(),
                i <= nb,
                2 * nb < usize::MAX,
                momentum@.len() == 2 * nb,
                pass_frame(*old(self), *self),
                forall|i2: int|
                    0 <= i2 < i
                        ==> (#[trigger] self.bodies@[i2]) == spec_momentum_kick(
                            old(self).bodies@[i2],
                            momentum@[2 * i2]@,
                            momentum@[2 * i2 + 1]@,
                        ),
                forall|i2: int| i <= i2 < nb ==> #[trigger] self.bodies@[i2]
                    == old(self).bodies@[i2],
            decreases nb - i,
        {
            let mut b: Body = self.bodies[i];
            let m: Vec2 = Vec2::new(momentum[2 * i], momentum[2 * i + 1]);
            b.vel = b.vel.add(m.scale(b.inv_mass));
            self.bodies.set(i, b);
            i = i + 1;
        }
        proof {
            assert(self.bodies@ =~= momentum_kicked(old(self).bodies@, momentum@));
        }
    }

    /// Applies a force-level correction and integrates by a
    /// second-order Taylor step.
    pub fn apply_force_taylor(&mut self, force: &Vec<Fix>)
        requires
            force@.len() == 2 * old(self).n(),
            old(self).n() * 2 < usize::MAX,
        ensures
            pass_frame(*old(self), *final(self)),
            forall|i: int|
                0 <= i < old(self).n()
                    ==> (#[trigger] final(self).bodies@[i]) == spec_force_move(
                        old(self).bodies@[i],
                        force@[2 * i]@,
                        force@[2 * i + 1]@,
                        old(self).time_step@,
                    ),
            final(self).bodies@ == force_moved(old(self).bodies@, force@, old(self).time_step@),
    {
        let nb: usize = self.bodies.len();
        proof {
            crate::fixed::lemma_tdiv_exact(32768int, 131072int);
        }
        let half_dt_sq: Fix = Fix::from_ratio(1, 2).mul(self.time_step).mul(self.time_step);
        let mut i: usize = 0;
        while i < nb
            invariant
                nb == self.n(),
                i <= nb,
                2 * nb < usize::MAX,
                force@.len() == 2 * nb,
                pass_frame(*old(self), *self),
                self.time_step == old(self).time_step,
                half_dt_sq@ == spec_mul(
                    spec_mul(32768, old(self).time_step@),
                    old(self).time_step@,
                ),
                forall|i2: int|
                    0 <= i2 < i
                        ==> (#[trigger] self.bodies@[i2]) == spec_force_move(
                            old(self).bodies@[i2],
                            force@[2 * i2]@,
                            force@[2 * i2 + 1]@,
                            old(self).time_step@,
                        ),
                forall|i2: int| i <= i2 < nb ==> #[trigger] self.bodies@[i2]
                    == old(self).bodies@[i2],
            decreases nb - i,
        {
            let mut b: Body = self.bodies[i];
            let f: Vec2 = Vec2::new(force[2 * i], force[2 * i + 1]);
            let a: Vec2 = f.scale(b.inv_mass);
            b.vel = b.vel.add(a.scale(self.time_step));
            b.pos = b.pos.add(b.vel.scale(self.time_step)).add(a.scale(half_dt_sq));
            self.bodies.set(i, b);
            i = i + 1;
        }
        proof {
            assert(self.bodies@ =~= force_moved(old(self).bodies@, force@, old(self).time_step@));
        }
    }

    /// Applies a force-level correction to the velocities alone.
    pub fn apply_force_kick(&mut self, force: &Vec<Fix>)
        requires
            force@.len() == 2 * old(self).n(),
            old(self).n() * 2 < usize::MAX,
        ensures
            pass_frame(*old(self), *final(self)),
            forall|i: int|
                0 <= i < old(self).n()
                    ==> (#[trigger] final(self).bodies@[i]) == spec_force_kick(
                        old(self).bodies@[i],
                        force@[2 * i]@,
                        force@[2 * i + 1]@,
                        old(self).time_step@,
                    ),
            final(self).bodies@ == force_kicked(old(self).bodies@, force@, old(self).time_step@),
    {
        let nb: usize = self.bodies.len();
        let mut i: usize = 0;
        while i < nb
            invariant
                nb == self.n(),
                i <= nb,
                2 * nb < usize::MAX,
                force@.len() == 2 * nb,
                pass_frame(*old(self), *self),
                self.time_step == old(self).time_step,
                forall|i2: int|
                    0 <= i2 < i
                        ==> (#[trigger] self.bodies@[i2]) == spec_force_kick(
                            old(self).bodies@[i2],
                            force@[2 * i2]@,
                            force@[2 * i2 + 1]@,
                            old(self).time_step@,
                        ),
                forall|i2: int| i <= i2 < nb ==> #[trigger] self.bodies@[i2]
                    == old(self).bodies@[i2],
            decreases nb - i,
        {
            let mut b: Body = self.bodies[i];
            let f: Vec2 = Vec2::new(force[2 * i], force[2 * i + 1]);
            b.vel = b.vel.add(f.scale(b.inv_mass).scale(self.time_step));
            self.bodies.set(i, b);
            i = i + 1;
        }
        proof {
            assert(self.bodies@ =~= force_kicked(old(self).bodies@, force@, old(self).time_step@));
        }
    }

    /// Applies a momentum correction and integrates positions keeping a
    /// second-order Taylor term from an earlier force pass.
    pub fn apply_prepass_move(&mut self, momentum: &Vec<Fix>, force: &Vec<Fix>)
        requires
            momentum@.len() == 2 * old(self).n(),
            force@.len() == 2 * old(self).n(),
            old(self).n() * 2 < usize::MAX,
        ensures
            pass_frame(*old(self), *final(self)),
            forall|i: int|
                0 <= i < old(self).n()
                    ==> (#[trigger] final(self).bodies@[i]) == spec_prepass_move(
                        old(self).bodies@[i],
                        momentum@[2 * i]@,
                        momentum@[2 * i + 1]@,
                        force@[2 * i]@,
                        force@[2 * i + 1]@,
                        old(self).time_step@,
                    ),
            final(self).bodies@ == prepass_moved(old(self).bodies@, momentum@, force@, old(self).time_step@),
    {
        let nb: usize = self.bodies.len();
        proof {
            crate::fixed::lemma_tdiv_exact(32768int, 131072int);
        }
        let half_dt_sq: Fix = Fix::from_ratio(1, 2).mul(self.time_step).mul(self.time_step);
        let mut i: usize = 0;
        while i < nb
            invariant
                nb == self.n(),
                i <= nb,
                2 * nb < usize::MAX,
                momentum@.len() == 2 * nb,
                force@.len() == 2 * nb,
                pass_frame(*old(self), *self),
                self.time_step == old(self).time_step,
                half_dt_sq@ == spec_mul(
                    spec_mul(32768, old(self).time_step@),
                    old(self).time_step@,
                ),
                forall|i2: int|
                    0 <= i2 < i
                        ==> (#[trigger] self.bodies@[i2]) == spec_prepass_move(
                            old(self).bodies@[i2],
                            momentum@[2 * i2]@,
                            momentum@[2 * i2 + 1]@,
                            force@[2 * i2]@,
                            force@[2 * i2 + 1]@,
                            old(self).time_step@,
                        ),
                forall|i2: int| i <= i2 < nb ==> #[trigger] self.bodies@[i2]
                    == old(self).bodies@[i2],
            decreases nb - i,
        {
            let mut b: Body = self.bodies[i];
            let m: Vec2 = Vec2::new(momentum[2 * i], momentum[2 * i + 1]);
            let f: Vec2 = Vec2::new(force[2 * i], force[2 * i + 1]);
            let a: Vec2 = f.scale(b.inv_mass);
            b.vel = b.vel.add(m.scale(b.inv_mass));
            b.pos = b.pos.add(b.vel.scale(self.time_step)).add(a.scale(half_dt_sq));
            self.bodies.set(i, b);
            i = i + 1;
        }
        proof {
            assert(self.bodies@ =~= prepass_moved(old(self).bodies@, momentum@, force@, old(self).time_step@));
        }
    }

    /// Applies a force-level correction by a Verlet step.
    pub fn apply_verlet(&mut self, force: &Vec<Fix>)
        requires
            force@.len() == 2 * old(self).n(),
            spec_mul(131072, old(self).time_step@) != 0,
            old(self).n() * 2 < usize::MAX,
        ensures
            pass_frame(*old(self), *final(self)),
            forall|i: int|
                0 <= i < old(self).n()
                    ==> (#[trigger] final(self).bodies@[i]) == spec_verlet_move(
                        old(self).bodies@[i],
                        force@[2 * i]@,
                        force@[2 * i + 1]@,
                        old(self).time_step@,
                    ),
            final(self).bodies@ == verlet_moved(old(self).bodies@, force@, old(self).time_step@),
    {
        let nb: usize = self.bodies.len();
        let two_dt: Fix = Fix::from_int(2).mul(self.time_step);
        let mut i: usize = 0;
        while i < nb
            invariant
                nb == self.n(),
                i <= nb,
                2 * nb < usize::MAX,
                force@.len() == 2 * nb,
                pass_frame(*old(self), *self),
                self.time_step == old(self).time_step,
                two_dt@ == spec_mul(131072, old(self).time_step@),
                two_dt@ != 0,
                forall|i2: int|
                    0 <= i2 < i
                        ==> (#[trigger] self.bodies@[i2]) == spec_verlet_move(
                            old(self).bodies@[i2],
                            force@[2 * i2]@,
                            force@[2 * i2 + 1]@,
                            old(self).time_step@,
                        ),
                forall|i2: int| i <= i2 < nb ==> #[trigger] self.bodies@[i2]
                    == old(self).bodies@[i2],
            decreases nb - i,
        {
            let mut b: Body = self.bodies[i];
            let f: Vec2 = Vec2::new(force[2 * i], force[2 * i + 1]);
            let a: Vec2 = f.scale(b.inv_mass);
            let temp: Vec2 = b.pos;
            let old_last: Vec2 = b.last_tick;
            b.pos = b.pos.add(b.pos).sub(b.last_tick).add(a.scale(self.time_step).scale(
                self.time_step,
            ));
            b.last_tick = temp;
            b.vel = Vec2::new(
                b.pos.x.sub(old_last.x).div(two_dt),
                b.pos.y.sub(old_last.y).div(two_dt),
            );
            self.bodies.set(i, b);
            i = i + 1;
        }
        proof {
            assert(self.bodies@ =~= verlet_moved(old(self).bodies@, force@, old(self).time_step@));
        }
    }

    /// Predicts every position by a Verlet step under gravity alone.
    pub fn pbd_predict(&mut self)
        ensures
            pass_frame(*old(self), *final(self)),
            forall|i: int|
                0 <= i < old(self).n()
                    ==> (#[trigger] final(self).bodies@[i]) == spec_pbd_predict(
                        old(self).bodies@[i],
                        old(self).gravity,
                        old(self).time_step@,
                    ),
            final(self).bodies@ == pbd_predicted(old(self).bodies@, old(self).gravity, old(self).time_step@),
    {
        let nb: usize = self.bodies.len();
        let two: Fix = Fix::from_int(2);
        let g_step: Vec2 = self.gravity.scale(self.time_step.mul(self.time_step));
        let mut i: usize = 0;
        while i < nb
            invariant
                nb == self.n(),
                i <= nb,
                pass_frame(*old(self), *self),
                two@ == 131072,
                g_step.x@ == spec_mul(
                    old(self).gravity.x@,
                    spec_mul(old(self).time_step@, old(self).time_step@),
                ),
                g_step.y@ == spec_mul(
                    old(self).gravity.y@,
                    spec_mul(old(self).time_step@, old(self).time_step@),
                ),
                forall|i2: int|
                    0 <= i2 < i
                        ==> (#[trigger] self.bodies@[i2]) == spec_pbd_predict(
                            old(self).bodies@[i2],
                            old(self).gravity,
                            old(self).time_step@,
                        ),
                forall|i2: int| i <= i2 < nb ==> #[trigger] self.bodies@[i2]
                    == old(self).bodies@[i2],
            decreases nb - i,
        {
            let mut b: Body = self.bodies[i];
            let new_pos: Vec2 = b.pos.scale(two).sub(b.last_tick).add(g_step);
            b.last_tick = b.pos;
            b.pos = new_pos;
            self.bodies.set(i, b);
            i = i + 1;
        }
        proof {
            assert(self.bodies@ =~= pbd_predicted(old(self).bodies@, old(self).gravity, old(self).time_step@));
        }
    }

    /// Applies a direct positional correction and derives velocities
    /// from the position deltas.
    pub fn apply_pbd_correct(&mut self, momentum: &Vec<Fix>)
        requires
            momentum@.len() == 2 * old(self).n(),
            old(self).time_step@ != 0,
            old(self).n() * 2 < usize::MAX,
        ensures
            pass_frame(*old(self), *final(self)),
            forall|i: int|
                0 <= i < old(self).n()
                    ==> (#[trigger] final(self).bodies@[i]) == spec_pbd_correct(
                        old(self).bodies@[i],
                        momentum@[2 * i]@,
                        momentum@[2 * i + 1]@,
                        old(self).time_step@,
                    ),
            final(self).bodies@ == pbd_corrected(old(self).bodies@, momentum@, old(self).time_step@),
    {
        let nb: usize = self.bodies.len();
        let mut i: usize = 0;
        while i < nb
            invariant
                nb == self.n(),
                i <= nb,
                2 * nb < usize::MAX,
                momentum@.len() == 2 * nb,
                pass_frame(*old(self), *self),
                self.time_step == old(self).time_step,
                self.time_step@ != 0,
                forall|i2: int|
                    0 <= i2 < i
                        ==> (#[trigger] self.bodies@[i2]) == spec_pbd_correct(
                            old(self).bodies@[i2],
                            momentum@[2 * i2]@,
                            momentum@[2 * i2 + 1]@,
                            old(self).time_step@,
                        ),
                forall|i2: int| i <= i2 < nb ==> #[trigger] self.bodies@[i2]
                    == old(self).bodies@[i2],
            decreases nb - i,
        {
            let mut b: Body = self.bodies[i];
            let m: Vec2 = Vec2::new(momentum[2 * i], momentum[2 * i + 1]);
            b.pos = b.pos.add(m.scale(b.inv_mass));
            b.vel = Vec2::new(
                b.pos.x.sub(b.last_tick.x).div(self.time_step),
                b.pos.y.sub(b.last_tick.y).div(self.time_step),
            );
            self.bodies.set(i, b);
            i = i + 1;
        }
        proof {
            assert(self.bodies@ =~= pbd_corrected(old(self).bodies@, momentum@, old(self).time_step@));
        }
    }

    /// Applies a direct positional correction alone.
    pub fn apply_pos_patch(&mut self, momentum: &Vec<Fix>)
        requires
            momentum@.len() == 2 * old(self).n(),
            old(self).n() * 2 < usize::MAX,
        ensures
            pass_frame(*old(self), *final(self)),
            forall|i: int|
                0 <= i < old(self).n()
                    ==> (#[trigger] final(self).bodies@[i]) == spec_pos_patch(
                        old(self).bodies@[i],
                        momentum@[2 * i]@,
                        momentum@[2 * i + 1]@,
                    ),
            final(self).bodies@ == pos_patched(old(self).bodies@, momentum@),
    {
        let nb: usize = self.bodies.len();
        let mut i: usize = 0;
        while i < nb
            invariant
                nb == self.n(),
                i <= nb,
                2 * nb < usize::MAX,
                momentum@.len() == 2 * nb,
                pass_frame(*old(self), *self),
                forall|i2: int|
                    0 <= i2 < i
                        ==> (#[trigger] self.bodies@[i2]) == spec_pos_patch(
                            old(self).bodies@[i2],
                            momentum@[2 * i2]@,
                            momentum@[2 * i2 + 1]@,
                        ),
                forall|i2: int| i <= i2 < nb ==> #[trigger] self.bodies@[i2]
                    == old(self).bodies@[i2],
            decreases nb - i,
        {
            let mut b: Body = self.bodies[i];
            let m: Vec2 = Vec2::new(momentum[2 * i], momentum[2 * i + 1]);
            b.pos = b.pos.add(m.scale(b.inv_mass));
            self.bodies.set(i, b);
            i = i + 1;
        }
        proof {
            assert(self.bodies@ =~= pos_patched(old(self).bodies@, momentum@));
        }
    }
}

} // verus!
