//! Scenario-level behaviour of the solver strategies: constraint
//! satisfaction, energy drift, steady state, determinism, and the
//! failure modes.

use the_game::fixed::Fix;
use the_game::vec2::Vec2;
use the_game::body::BodyId;
use the_game::constraints::{AnchorConstraint, Constraint};
use the_game::world::{GameContent, SolveError, Solver};

fn fresh(den: i64) -> GameContent {
    GameContent::empty(Fix::from_ratio(1, den))
}

/// With zero gravity and a single anchored body, the distance to the
/// anchor stays at the rest distance within solver tolerance, however
/// long the body orbits.
#[test]
fn anchored_body_keeps_rest_distance() {
    let mut w = fresh(64);
    w.simple();
    w.gravity = Vec2::zero();
    let mut worst: i64 = 0;
    for _ in 0..200 {
        w.solve().unwrap();
        let d = w.bodies[0].pos.norm().raw;
        worst = worst.max((d - 65536).abs());
    }
    assert!(worst <= 3277, "worst deviation {worst} raw exceeds 0.05");
}

/// The half-step strategy conserves mechanical energy to a small
/// bounded drift over a thousand ticks of the single pendulum.
#[test]
fn hybrid_v3_energy_drift_is_bounded() {
    let mut w = fresh(256);
    w.simple();
    w.solve().unwrap();
    let s0 = w.take_snapshot();
    let e0 = s0.kinetic_energy.add(s0.potential_energy).raw;
    for _ in 0..999 {
        w.solve().unwrap();
    }
    let s1 = w.take_snapshot();
    let e1 = s1.kinetic_energy.add(s1.potential_energy).raw;
    let drift = (e1 - e0).abs();
    // About 72 energy units in play; the drift stays under 2 units.
    assert!(e0 > 4_500_000 && e0 < 4_900_000, "unexpected initial energy {e0}");
    assert!(drift < 131072, "energy drift {drift} raw exceeds 2.0");
}

/// The baseline strategy drifts too, within a looser bound.
#[test]
fn first_order_energy_drift_is_bounded() {
    let mut w = fresh(256);
    w.simple();
    w.solver = Solver::FirstOrder;
    w.solve().unwrap();
    let s0 = w.take_snapshot();
    let e0 = s0.kinetic_energy.add(s0.potential_energy).raw;
    for _ in 0..999 {
        w.solve().unwrap();
    }
    let s1 = w.take_snapshot();
    let e1 = s1.kinetic_energy.add(s1.potential_energy).raw;
    let drift = (e1 - e0).abs();
    // An order of magnitude looser than the half-step strategy's bound.
    assert!(drift < 3_500_000, "energy drift {drift} raw exceeds 53.4");
}

/// The double scenario at rest under zero gravity stays exactly at
/// rest: no spurious energy is injected, bit for bit.
#[test]
fn resting_double_stays_at_rest() {
    let mut w = fresh(64);
    w.double();
    w.gravity = Vec2::zero();
    let before: Vec<_> = w.bodies.iter().map(|b| (b.pos, b.vel)).collect();
    for _ in 0..100 {
        w.solve().unwrap();
    }
    let after: Vec<_> = w.bodies.iter().map(|b| (b.pos, b.vel)).collect();
    assert_eq!(before, after);
    for b in w.bodies.iter() {
        assert_eq!((b.vel.x.raw, b.vel.y.raw), (0, 0));
    }
}

/// The same holds for the baseline strategy.
#[test]
fn resting_double_stays_at_rest_first_order() {
    let mut w = fresh(64);
    w.double();
    w.gravity = Vec2::zero();
    w.solver = Solver::FirstOrder;
    let before: Vec<_> = w.bodies.iter().map(|b| (b.pos, b.vel)).collect();
    for _ in 0..100 {
        w.solve().unwrap();
    }
    let after: Vec<_> = w.bodies.iter().map(|b| (b.pos, b.vel)).collect();
    assert_eq!(before, after);
}

/// Every strategy keeps the resting double scenario exactly at rest:
/// the built state has coincident previous-tick positions and satisfied
/// constraints, so even the Verlet, position-based and iterative
/// strategies inject nothing.
#[test]
fn resting_double_stays_at_rest_all_strategies() {
    for solver in Solver::list() {
        let mut w = fresh(64);
        w.double();
        w.gravity = Vec2::zero();
        w.solver = solver;
        let before: Vec<_> = w.bodies.iter().map(|b| (b.pos, b.vel)).collect();
        for t in 0..50 {
            let r = w.solve();
            assert!(r.is_ok(), "{solver:?} failed at tick {t}: {r:?}");
        }
        let after: Vec<_> = w.bodies.iter().map(|b| (b.pos, b.vel)).collect();
        assert_eq!(before, after, "{solver:?} moved a resting system");
    }
}

/// Two independent runs with identical scenario, strategy, time step
/// and tick count produce bit-for-bit identical snapshots.
#[test]
fn identical_runs_are_bit_identical() {
    let run = || {
        let mut w = fresh(64);
        w.triple();
        let mut last = None;
        for _ in 0..50 {
            w.solve().unwrap();
            last = Some(w.take_snapshot());
        }
        last.unwrap()
    };
    let a = run();
    let b = run();
    assert_eq!(a.date, b.date);
    assert_eq!(a.kinetic_energy, b.kinetic_energy);
    assert_eq!(a.potential_energy, b.potential_energy);
    assert_eq!(a.violation_mean, b.violation_mean);
    assert_eq!(a.pos, b.pos);
    for (x, y) in a.links.iter().zip(b.links.iter()) {
        assert_eq!(x.0, y.0);
        assert_eq!(x.1, y.1);
    }
}

/// The rope keeps its per-segment rest distances within tolerance.
#[test]
fn rope_segments_hold_their_length() {
    let mut w = fresh(128);
    w.rope();
    for _ in 0..600 {
        w.solve().unwrap();
    }
    let mut worst: i64 = 0;
    for k in 0..19 {
        let d = w.bodies[k].pos.sub(w.bodies[k + 1].pos).norm().raw;
        worst = worst.max((d - 16384).abs());
    }
    assert!(worst <= 9000, "worst segment deviation {worst} raw exceeds 0.137");
}

/// Redundant constraints make the effective-mass matrix singular,
/// which is fatal for the tick.
#[test]
fn redundant_constraints_are_singular() {
    let mut w = fresh(64);
    w.simple();
    // Anchor the same body to the same point a second time.
    w.add_constraint(Constraint::Anchor(AnchorConstraint {
        body: BodyId(0),
        anchor: Vec2::zero(),
        distance: Fix::from_int(1),
    }));
    assert_eq!(w.solve(), Err(SolveError::SingularSystem));
}

/// A body sitting exactly on its anchor point makes the constraint's
/// divisors vanish, which is reported as degenerate geometry.
#[test]
fn coincident_anchor_is_degenerate() {
    let mut w = fresh(64);
    w.simple();
    let mut b = w.bodies[0];
    b.pos = Vec2::zero();
    w.bodies[0] = b;
    assert_eq!(w.solve(), Err(SolveError::DegenerateConstraint));
}

/// Every strategy completes ticks of the double pendulum.
#[test]
fn all_strategies_run() {
    for solver in Solver::list() {
        let mut w = fresh(64);
        w.double();
        w.solver = solver;
        for t in 0..30 {
            let r = w.solve();
            assert!(r.is_ok(), "{solver:?} failed at tick {t}: {r:?}");
        }
    }
}

/// Every scenario completes ticks under the default strategy.
#[test]
fn all_scenarios_run() {
    let mut names = Vec::new();
    for sc in the_game::session::SimulationContent::list() {
        let mut w = fresh(128);
        w.build_scenario(sc);
        for t in 0..20 {
            let r = w.solve();
            assert!(r.is_ok(), "{sc:?} failed at tick {t}: {r:?}");
        }
        names.push(sc);
    }
    assert_eq!(names.len(), 10);
}
