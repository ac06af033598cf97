//! The nine interchangeable correction strategies.
//!
//! All strategies share the assembly stage and differ only in which
//! bias terms enter the right-hand side and in how the corrected state
//! integrates.  Every strategy's contract pins the whole tick: the
//! multiplier it solves for and the corrected bodies are spec-level
//! functions of the starting state (the iterative strategy instead
//! binds its accepted multiplier existentially, with its residual
//! bound); failures — degenerate geometry, a singular effective-mass
//! matrix, a non-convergent iteration — are classified exactly and are
//! fatal for the tick, never retried; and the baseline and default
//! strategies carry the steady-state law: a state at rest under zero
//! gravity stays exactly where it is.

use vstd::prelude::*;
use crate::fixed::{
    Fix, spec_mul, lemma_add_zero, lemma_div_zero, lemma_mul_zero, lemma_tdiv_exact,
};
use crate::body::Body;
use crate::constraints::Constraint;
use crate::vec2::Vec2;
use crate::matrix::{
    Matrix, all_zero, dot_fold, lemma_dot_fold_zero_right, vec_add, vec_div, vec_neg, vec_scale,
    vec_sub,
};
use crate::linsolve::{
    cg_converges, cg_result, cg_solve, cholesky_factor, solve_factored,
};
use crate::world::{GameContent, SolveError, Solver};
use crate::assembly::{
    c_of, cdot_of, charged_bodies, ddot_of, force_of, j_rows_of, jdq_of, lemma_c_positions_only,
    qdot_of, spec_c_seq, spec_jdq_at, spec_jerk_posed_at, spec_violation_mean, spec_well_posed_at,
    wp_of,
    w_rows_of,
};
use crate::integrate::{
    force_kicked, force_moved, grav_kicked, momentum_kicked, momentum_moved, pbd_corrected,
    pbd_predicted, pos_patched, prepass_moved, spec_grav_kick, spec_momentum_move, verlet_moved,
};
use crate::linsolve::{chol_ok, chol_rows, solve_of};
use crate::matrix::{matmul_of, matvec_of, rows_of, seq_add, seq_div, seq_neg, seq_scale, seq_sub, transpose_of};
use crate::world::ratio;

verus! {

/// The parts of the state no solve touches: populations, masses, tags,
/// selections and counters.
pub open spec fn solve_frame(a: GameContent, b: GameContent) -> bool {
    &&& b.n() == a.n()
    &&& b.constraints@ == a.constraints@
    &&& b.gravity == a.gravity
    &&& b.time_step == a.time_step
    &&& b.solver == a.solver
    &&& b.age == a.age
    &&& b.calculation_time_nanos == a.calculation_time_nanos
    &&& b.physic_index_to_entity@ == a.physic_index_to_entity@
    &&& forall|i: int|
        0 <= i < a.n()
            ==> (#[trigger] b.bodies@[i]).mass == a.bodies@[i].mass && b.bodies@[i].inv_mass
                == a.bodies@[i].inv_mass && b.bodies@[i].tag == a.bodies@[i].tag
}

/// The effective constraint-space mass of a geometry:
/// K = (J·M⁻¹)·Jᵗ, with every product folded exactly as computed.
pub open spec fn k_of(cs: Seq<Constraint>, bodies: Seq<Body>) -> Seq<Seq<Fix>> {
    let n2 = 2 * bodies.len() as int;
    let jr = j_rows_of(cs, bodies);
    matmul_of(matmul_of(jr, w_rows_of(bodies), n2, n2), transpose_of(jr, n2), n2, cs.len() as int)
}

/// J·M⁻¹ of a geometry.
pub open spec fn jw_of(cs: Seq<Constraint>, bodies: Seq<Body>) -> Seq<Seq<Fix>> {
    let n2 = 2 * bodies.len() as int;
    matmul_of(j_rows_of(cs, bodies), w_rows_of(bodies), n2, n2)
}

/// Jᵗ·λ of a geometry: the correction distributed back to the bodies.
pub open spec fn jt_lambda_of(cs: Seq<Constraint>, bodies: Seq<Body>, lam: Seq<Fix>) -> Seq<Fix> {
    let n2 = 2 * bodies.len() as int;
    matvec_of(transpose_of(j_rows_of(cs, bodies), n2), lam, cs.len() as int)
}

/// The baseline right-hand side −J·q̇ − 0·C over a geometry and the
/// kicked velocities; the stabilization coefficient is zero.
pub open spec fn velocity_bias_of(
    cs: Seq<Constraint>,
    bodies: Seq<Body>,
    kicked: Seq<Body>,
) -> Seq<Fix> {
    let n2 = 2 * bodies.len() as int;
    seq_sub(
        seq_neg(matvec_of(j_rows_of(cs, bodies), qdot_of(kicked), n2)),
        seq_scale(c_of(cs, kicked), 0),
    )
}

/// The force-level right-hand side −J·M⁻¹·F − J̇·q̇ − 0·Ċ − 0·C over a
/// geometry; both stabilization coefficients are zero.
pub open spec fn force_bias_of(cs: Seq<Constraint>, bodies: Seq<Body>, g: Vec2) -> Seq<Fix> {
    let n2 = 2 * bodies.len() as int;
    seq_sub(
        seq_sub(
            seq_sub(
                seq_neg(matvec_of(jw_of(cs, bodies), force_of(bodies, g), n2)),
                jdq_of(cs, bodies),
            ),
            seq_scale(cdot_of(cs, bodies), 0),
        ),
        seq_scale(c_of(cs, bodies), 0),
    )
}

/// The half-step right-hand side −J·q̇ − ½·Δt·J̇·q̇ over a geometry and
/// the kicked state.
pub open spec fn halfstep_bias_of(
    cs: Seq<Constraint>,
    bodies: Seq<Body>,
    kicked: Seq<Body>,
    dt: int,
) -> Seq<Fix> {
    let n2 = 2 * bodies.len() as int;
    seq_sub(
        seq_neg(matvec_of(j_rows_of(cs, bodies), qdot_of(kicked), n2)),
        seq_scale(seq_scale(jdq_of(cs, kicked), dt), ratio(1, 2)@),
    )
}

/// The baseline strategy's multiplier: the direct solve of the
/// velocity-bias system.
pub open spec fn fo_lambda(cs: Seq<Constraint>, bodies: Seq<Body>, g: Vec2, dt: int) -> Seq<Fix> {
    solve_of(
        chol_rows(k_of(cs, bodies)),
        velocity_bias_of(cs, bodies, grav_kicked(bodies, g, dt)),
    )
}

/// The baseline strategy's corrected bodies.
pub open spec fn fo_bodies(cs: Seq<Constraint>, bodies: Seq<Body>, g: Vec2, dt: int) -> Seq<Body> {
    momentum_moved(
        grav_kicked(bodies, g, dt),
        jt_lambda_of(cs, bodies, fo_lambda(cs, bodies, g, dt)),
        dt,
    )
}

/// The force-level strategy's multiplier.
pub open spec fn so_lambda(cs: Seq<Constraint>, bodies: Seq<Body>, g: Vec2) -> Seq<Fix> {
    solve_of(chol_rows(k_of(cs, bodies)), force_bias_of(cs, bodies, g))
}

/// The force-level strategy's corrected bodies.
pub open spec fn so_bodies(cs: Seq<Constraint>, bodies: Seq<Body>, g: Vec2, dt: int) -> Seq<Body> {
    force_moved(
        bodies,
        seq_add(jt_lambda_of(cs, bodies, so_lambda(cs, bodies, g)), force_of(bodies, g)),
        dt,
    )
}

/// The prepass strategy's force-pass acceleration vector.
pub open spec fn pp_accel(cs: Seq<Constraint>, bodies: Seq<Body>, g: Vec2) -> Seq<Fix> {
    seq_add(jt_lambda_of(cs, bodies, so_lambda(cs, bodies, g)), force_of(bodies, g))
}

/// The prepass strategy's velocity-pass multiplier, solved against the
/// same factor with the force pass already in the velocities.
pub open spec fn pp_lambda2(cs: Seq<Constraint>, bodies: Seq<Body>, g: Vec2, dt: int) -> Seq<Fix> {
    let kicked = force_kicked(bodies, pp_accel(cs, bodies, g), dt);
    let b2 = seq_sub(
        seq_neg(matvec_of(j_rows_of(cs, bodies), qdot_of(kicked), 2 * bodies.len() as int)),
        seq_scale(c_of(cs, bodies), 0),
    );
    solve_of(chol_rows(k_of(cs, bodies)), b2)
}

/// The prepass strategy's corrected bodies.
pub open spec fn pp_bodies(cs: Seq<Constraint>, bodies: Seq<Body>, g: Vec2, dt: int) -> Seq<Body> {
    prepass_moved(
        force_kicked(bodies, pp_accel(cs, bodies, g), dt),
        jt_lambda_of(cs, bodies, pp_lambda2(cs, bodies, g, dt)),
        pp_accel(cs, bodies, g),
        dt,
    )
}

/// The reordered strategy's first-pass multiplier: velocity validity
/// before forces.
pub open spec fn v2_lambda1(cs: Seq<Constraint>, bodies: Seq<Body>) -> Seq<Fix> {
    solve_of(chol_rows(k_of(cs, bodies)), velocity_bias_of(cs, bodies, bodies))
}

/// The reordered strategy's bodies after the velocity-validity pass.
pub open spec fn v2_kicked(cs: Seq<Constraint>, bodies: Seq<Body>) -> Seq<Body> {
    momentum_kicked(bodies, jt_lambda_of(cs, bodies, v2_lambda1(cs, bodies)))
}

/// The reordered strategy's force-pass multiplier at the corrected
/// velocities.
pub open spec fn v2_lambda2(cs: Seq<Constraint>, bodies: Seq<Body>, g: Vec2) -> Seq<Fix> {
    let kicked = v2_kicked(cs, bodies);
    let n2 = 2 * bodies.len() as int;
    let b2 = seq_sub(
        seq_sub(
            seq_sub(
                seq_neg(matvec_of(jw_of(cs, bodies), force_of(kicked, g), n2)),
                jdq_of(cs, kicked),
            ),
            seq_scale(cdot_of(cs, kicked), 0),
        ),
        seq_scale(c_of(cs, bodies), 0),
    );
    solve_of(chol_rows(k_of(cs, bodies)), b2)
}

/// The reordered strategy's corrected bodies after the Verlet step.
pub open spec fn v2_bodies(cs: Seq<Constraint>, bodies: Seq<Body>, g: Vec2, dt: int) -> Seq<Body> {
    let kicked = v2_kicked(cs, bodies);
    verlet_moved(
        kicked,
        seq_add(jt_lambda_of(cs, bodies, v2_lambda2(cs, bodies, g)), force_of(kicked, g)),
        dt,
    )
}

/// The half-step strategy's multiplier.
pub open spec fn v3_lambda(cs: Seq<Constraint>, bodies: Seq<Body>, g: Vec2, dt: int) -> Seq<Fix> {
    solve_of(
        chol_rows(k_of(cs, bodies)),
        halfstep_bias_of(cs, bodies, grav_kicked(bodies, g, dt), dt),
    )
}

/// The half-step strategy's corrected bodies.
pub open spec fn v3_bodies(cs: Seq<Constraint>, bodies: Seq<Body>, g: Vec2, dt: int) -> Seq<Body> {
    momentum_moved(
        grav_kicked(bodies, g, dt),
        jt_lambda_of(cs, bodies, v3_lambda(cs, bodies, g, dt)),
        dt,
    )
}

/// The jerk strategy's right-hand side: the half-step bias minus the
/// second-derivative term scaled by Δt²/6.
pub open spec fn v4_bias(cs: Seq<Constraint>, bodies: Seq<Body>, g: Vec2, dt: int) -> Seq<Fix> {
    let kicked = grav_kicked(bodies, g, dt);
    seq_sub(
        halfstep_bias_of(cs, bodies, kicked, dt),
        seq_scale(
            ddot_of(cs, charged_bodies(kicked, g)),
            spec_mul(spec_mul(ratio(1, 6)@, dt), dt),
        ),
    )
}

/// The jerk strategy's multiplier.
pub open spec fn v4_lambda(cs: Seq<Constraint>, bodies: Seq<Body>, g: Vec2, dt: int) -> Seq<Fix> {
    solve_of(chol_rows(k_of(cs, bodies)), v4_bias(cs, bodies, g, dt))
}

/// The jerk strategy's corrected bodies; the acceleration accumulators
/// stay charged.
pub open spec fn v4_bodies(cs: Seq<Constraint>, bodies: Seq<Body>, g: Vec2, dt: int) -> Seq<Body> {
    momentum_moved(
        charged_bodies(grav_kicked(bodies, g, dt), g),
        jt_lambda_of(cs, bodies, v4_lambda(cs, bodies, g, dt)),
        dt,
    )
}

/// The position-based strategy's multiplier over the predicted
/// positions.
pub open spec fn pb_lambda(cs: Seq<Constraint>, bodies: Seq<Body>, g: Vec2, dt: int) -> Seq<Fix> {
    let pred = pbd_predicted(bodies, g, dt);
    solve_of(chol_rows(k_of(cs, pred)), seq_neg(c_of(cs, pred)))
}

/// The position-based strategy's corrected bodies.
pub open spec fn pb_bodies(cs: Seq<Constraint>, bodies: Seq<Body>, g: Vec2, dt: int) -> Seq<Body> {
    let pred = pbd_predicted(bodies, g, dt);
    pbd_corrected(pred, jt_lambda_of(cs, pred, pb_lambda(cs, bodies, g, dt)), dt)
}

/// The two-stage strategy's positional-patch multiplier over the
/// half-step stage's result.
pub open spec fn v3p_lambda2(cs: Seq<Constraint>, bodies: Seq<Body>, g: Vec2, dt: int) -> Seq<
    Fix,
> {
    let mid = v3_bodies(cs, bodies, g, dt);
    solve_of(chol_rows(k_of(cs, mid)), seq_neg(c_of(cs, mid)))
}

/// The two-stage strategy's corrected bodies.
pub open spec fn v3p_bodies(cs: Seq<Constraint>, bodies: Seq<Body>, g: Vec2, dt: int) -> Seq<
    Body,
> {
    let mid = v3_bodies(cs, bodies, g, dt);
    pos_patched(mid, jt_lambda_of(cs, mid, v3p_lambda2(cs, bodies, g, dt)))
}

/// Whether the iterative strategy's warm-started conjugate-gradient
/// solve of the half-step system converges from the given start.
pub open spec fn cgm_converges(
    cs: Seq<Constraint>,
    bodies: Seq<Body>,
    g: Vec2,
    dt: int,
    applied: Seq<Fix>,
) -> bool {
    cg_converges(
        k_of(cs, bodies),
        halfstep_bias_of(cs, bodies, grav_kicked(bodies, g, dt), dt),
        seq_scale(applied, dt),
        cs.len() as int,
    )
}

/// The iterative strategy's accepted multiplier.
pub open spec fn cgm_lambda(
    cs: Seq<Constraint>,
    bodies: Seq<Body>,
    g: Vec2,
    dt: int,
    applied: Seq<Fix>,
) -> Seq<Fix> {
    cg_result(
        k_of(cs, bodies),
        halfstep_bias_of(cs, bodies, grav_kicked(bodies, g, dt), dt),
        seq_scale(applied, dt),
        cs.len() as int,
    )
}

/// The iterative strategy's corrected bodies.
pub open spec fn cgm_bodies(
    cs: Seq<Constraint>,
    bodies: Seq<Body>,
    g: Vec2,
    dt: int,
    applied: Seq<Fix>,
) -> Seq<Body> {
    momentum_moved(
        grav_kicked(bodies, g, dt),
        jt_lambda_of(cs, bodies, cgm_lambda(cs, bodies, g, dt, applied)),
        dt,
    )
}

/// The body sequence with every tag replaced by its slot, as the lazy
/// index rebuild leaves it.
pub open spec fn retagged(bodies: Seq<Body>) -> Seq<Body> {
    Seq::new(
        bodies.len(),
        |i: int| Body { tag: crate::body::SubjectToPhysic(i as usize), ..bodies[i] },
    )
}

/// The all-zero multiplier record of `n` constraints.
pub open spec fn zero_fixes(n: nat) -> Seq<Fix> {
    Seq::new(n, |k: int| Fix { raw: 0 })
}

/// The body sequence a tick works on: the lazily rebuilt solver index
/// retags every body with its slot; an index already built leaves them
/// as they are.
pub open spec fn fresh_bodies(s: GameContent) -> Seq<Body> {
    if s.physic_index_to_entity@.len() == 0 {
        retagged(s.bodies@)
    } else {
        s.bodies@
    }
}

/// The recorded multiplier a tick starts from: the lazy rebuild resets
/// it to one zero per constraint.
pub open spec fn fresh_applied(s: GameContent) -> Seq<Fix> {
    if s.physic_index_to_entity@.len() == 0 {
        zero_fixes(s.constraints@.len())
    } else {
        s.applied_correction@
    }
}

/// What the selected strategy owes: success exactly when its geometry
/// checks, factorizations and (for the iterative one) convergence all
/// go through.
pub open spec fn strategy_ok(
    sv: Solver,
    cs: Seq<Constraint>,
    bodies: Seq<Body>,
    g: Vec2,
    dt: int,
    applied: Seq<Fix>,
) -> bool {
    match sv {
        Solver::FirstOrder => wp_of(cs, bodies) && chol_ok(k_of(cs, bodies)),
        Solver::SecondOrder => wp_of(cs, bodies) && chol_ok(k_of(cs, bodies)),
        Solver::FirstOrderWithPrepass => wp_of(cs, bodies) && chol_ok(k_of(cs, bodies)),
        Solver::HybridV2 => wp_of(cs, bodies) && chol_ok(k_of(cs, bodies)),
        Solver::HybridV3 => wp_of(cs, bodies) && chol_ok(k_of(cs, bodies)),
        Solver::HybridV3cgm => wp_of(cs, bodies) && cgm_converges(cs, bodies, g, dt, applied),
        Solver::HybridV4 => wp_of(cs, bodies) && crate::assembly::jp_of(cs, bodies) && chol_ok(
            k_of(cs, bodies),
        ),
        Solver::Pbd => wp_of(cs, pbd_predicted(bodies, g, dt)) && chol_ok(
            k_of(cs, pbd_predicted(bodies, g, dt)),
        ),
        Solver::HybridV3Pbd => wp_of(cs, bodies) && chol_ok(k_of(cs, bodies)) && wp_of(
            cs,
            v3_bodies(cs, bodies, g, dt),
        ) && chol_ok(k_of(cs, v3_bodies(cs, bodies, g, dt))),
    }
}

/// When the selected strategy reports degenerate geometry.
pub open spec fn strategy_degenerate(
    sv: Solver,
    cs: Seq<Constraint>,
    bodies: Seq<Body>,
    g: Vec2,
    dt: int,
) -> bool {
    match sv {
        Solver::HybridV4 => !(wp_of(cs, bodies) && crate::assembly::jp_of(cs, bodies)),
        Solver::Pbd => !wp_of(cs, pbd_predicted(bodies, g, dt)),
        Solver::HybridV3Pbd => !wp_of(cs, bodies) || (wp_of(cs, bodies) && chol_ok(
            k_of(cs, bodies),
        ) && !wp_of(cs, v3_bodies(cs, bodies, g, dt))),
        _ => !wp_of(cs, bodies),
    }
}

/// When the selected strategy reports a singular system.
pub open spec fn strategy_singular(
    sv: Solver,
    cs: Seq<Constraint>,
    bodies: Seq<Body>,
    g: Vec2,
    dt: int,
) -> bool {
    match sv {
        Solver::HybridV3cgm => false,
        Solver::HybridV4 => wp_of(cs, bodies) && crate::assembly::jp_of(cs, bodies) && !chol_ok(
            k_of(cs, bodies),
        ),
        Solver::Pbd => wp_of(cs, pbd_predicted(bodies, g, dt)) && !chol_ok(
            k_of(cs, pbd_predicted(bodies, g, dt)),
        ),
        Solver::HybridV3Pbd => wp_of(cs, bodies) && (!chol_ok(k_of(cs, bodies)) || (chol_ok(
            k_of(cs, bodies),
        ) && wp_of(cs, v3_bodies(cs, bodies, g, dt)) && !chol_ok(
            k_of(cs, v3_bodies(cs, bodies, g, dt)),
        ))),
        _ => wp_of(cs, bodies) && !chol_ok(k_of(cs, bodies)),
    }
}

/// When the selected strategy fails to converge: only the iterative
/// one can.
pub open spec fn strategy_nonconvergent(
    sv: Solver,
    cs: Seq<Constraint>,
    bodies: Seq<Body>,
    g: Vec2,
    dt: int,
    applied: Seq<Fix>,
) -> bool {
    match sv {
        Solver::HybridV3cgm => wp_of(cs, bodies) && !cgm_converges(cs, bodies, g, dt, applied),
        _ => false,
    }
}

/// The corrected bodies of the selected strategy on a successful tick.
pub open spec fn strategy_bodies(
    sv: Solver,
    cs: Seq<Constraint>,
    bodies: Seq<Body>,
    g: Vec2,
    dt: int,
    applied: Seq<Fix>,
) -> Seq<Body> {
    match sv {
        Solver::FirstOrder => fo_bodies(cs, bodies, g, dt),
        Solver::SecondOrder => so_bodies(cs, bodies, g, dt),
        Solver::FirstOrderWithPrepass => pp_bodies(cs, bodies, g, dt),
        Solver::HybridV2 => v2_bodies(cs, bodies, g, dt),
        Solver::HybridV3 => v3_bodies(cs, bodies, g, dt),
        Solver::HybridV3cgm => cgm_bodies(cs, bodies, g, dt, applied),
        Solver::HybridV4 => v4_bodies(cs, bodies, g, dt),
        Solver::Pbd => pb_bodies(cs, bodies, g, dt),
        Solver::HybridV3Pbd => v3p_bodies(cs, bodies, g, dt),
    }
}

/// The recorded multiplier of the selected strategy on a successful
/// tick; the prepass and reordered strategies record none and keep the
/// prior vector.
pub open spec fn strategy_applied(
    sv: Solver,
    cs: Seq<Constraint>,
    bodies: Seq<Body>,
    g: Vec2,
    dt: int,
    applied: Seq<Fix>,
) -> Seq<Fix> {
    match sv {
        Solver::FirstOrder => seq_div(fo_lambda(cs, bodies, g, dt), dt),
        Solver::SecondOrder => so_lambda(cs, bodies, g),
        Solver::FirstOrderWithPrepass => applied,
        Solver::HybridV2 => applied,
        Solver::HybridV3 => seq_div(v3_lambda(cs, bodies, g, dt), dt),
        Solver::HybridV3cgm => seq_div(cgm_lambda(cs, bodies, g, dt, applied), dt),
        Solver::HybridV4 => seq_div(v4_lambda(cs, bodies, g, dt), dt),
        Solver::Pbd => seq_div(pb_lambda(cs, bodies, g, dt), spec_mul(dt, dt)),
        Solver::HybridV3Pbd => seq_add(
            seq_div(v3_lambda(cs, bodies, g, dt), dt),
            seq_div(v3p_lambda2(cs, bodies, g, dt), spec_mul(dt, dt)),
        ),
    }
}

/// Twice a positive raw time step is not zero, saturation included.
proof fn lemma_double_nonzero(dt: int)
    requires
        1 <= dt <= i64::MAX,
    ensures
        spec_mul(131072, dt) != 0,
{
    lemma_tdiv_exact(2 * dt, 65536);
    assert(65536 * (2 * dt) == 131072 * dt) by (nonlinear_arith);
}

/// A vector whose even/odd pairs are all zero is all zero.
proof fn lemma_pairs_zero(q: Seq<Fix>, n: int)
    requires
        n >= 0,
        q.len() == 2 * n,
        forall|i: int| 0 <= i < n ==> (#[trigger] q[2 * i])@ == 0 && q[2 * i + 1]@ == 0,
    ensures
        all_zero(q),
{
    assert forall|t: int| 0 <= t < q.len() implies (#[trigger] q[t])@ == 0 by {
        let i = t / 2;
        assert(t == 2 * i || t == 2 * i + 1);
        assert(0 <= i < n);
        assert((q[2 * i])@ == 0 && q[2 * i + 1]@ == 0);
    }
}

/// A matrix applied to an all-zero vector folds to the zero vector.
proof fn lemma_matvec_zero(m: Matrix, v: Seq<Fix>, out: Seq<Fix>)
    requires
        m.wf(),
        v.len() == m.cols,
        all_zero(v),
        out.len() == m.rows(),
        forall|i: int|
            0 <= i < out.len() ==> (#[trigger] out[i])@ == dot_fold(
                m.data@[i]@,
                v,
                m.cols as int,
            ),
    ensures
        all_zero(out),
{
    assert forall|i: int| 0 <= i < out.len() implies (#[trigger] out[i])@ == 0 by {
        lemma_dot_fold_zero_right(m.data@[i]@, v, m.cols as int);
    }
}

/// Well-posedness depends on positions alone, so passes that only move
/// velocities keep it.
proof fn lemma_well_posed_stable(a: GameContent, b: GameContent)
    requires
        a.constraints_in_range(),
        a.all_well_posed(),
        b.constraints@ == a.constraints@,
        b.n() == a.n(),
        forall|i: int| 0 <= i < a.n() ==> (#[trigger] b.bodies@[i]).pos == a.bodies@[i].pos,
    ensures
        b.all_well_posed(),
        b.constraints_in_range(),
{
    assert forall|k: int|
        0 <= k < b.m() implies spec_well_posed_at(#[trigger] b.constraints@[k], b.bodies@) by {
        match a.constraints@[k] {
            Constraint::Anchor(an) => {
                assert(b.bodies@[an.body.0 as int].pos == a.bodies@[an.body.0 as int].pos);
            },
            Constraint::Distance(d) => {
                assert(b.bodies@[d.body_a.0 as int].pos == a.bodies@[d.body_a.0 as int].pos);
                assert(b.bodies@[d.body_b.0 as int].pos == a.bodies@[d.body_b.0 as int].pos);
            },
            Constraint::Plane(_) => {},
            Constraint::Pulley(p) => {
                assert(b.bodies@[p.body_a.0 as int].pos == a.bodies@[p.body_a.0 as int].pos);
                assert(b.bodies@[p.body_b.0 as int].pos == a.bodies@[p.body_b.0 as int].pos);
            },
        }
    }
}

/// Constraint ranges depend only on the populations, which no pass
/// changes.
proof fn lemma_in_range_stable(a: GameContent, b: GameContent)
    requires
        a.constraints_in_range(),
        b.constraints@ == a.constraints@,
        b.n() == a.n(),
    ensures
        b.constraints_in_range(),
{
    assert forall|k: int|
        0 <= k < b.m() implies crate::world::c_in_range(#[trigger] b.constraints@[k], b.n()) by {
        assert(crate::world::c_in_range(a.constraints@[k], a.n()));
    }
}

/// Jerk-term well-posedness likewise depends on positions alone.
proof fn lemma_jerk_posed_stable(a: GameContent, b: GameContent)
    requires
        a.constraints_in_range(),
        a.all_jerk_posed(),
        b.constraints@ == a.constraints@,
        b.n() == a.n(),
        forall|i: int| 0 <= i < a.n() ==> (#[trigger] b.bodies@[i]).pos == a.bodies@[i].pos,
    ensures
        b.all_jerk_posed(),
{
    assert forall|k: int|
        0 <= k < b.m() implies spec_jerk_posed_at(#[trigger] b.constraints@[k], b.bodies@) by {
        match a.constraints@[k] {
            Constraint::Anchor(an) => {
                assert(b.bodies@[an.body.0 as int].pos == a.bodies@[an.body.0 as int].pos);
            },
            Constraint::Distance(d) => {
                assert(b.bodies@[d.body_a.0 as int].pos == a.bodies@[d.body_a.0 as int].pos);
                assert(b.bodies@[d.body_b.0 as int].pos == a.bodies@[d.body_b.0 as int].pos);
            },
            Constraint::Plane(_) => {},
            Constraint::Pulley(_) => {},
        }
    }
}

/// At rest, every analytic J̇·q̇ term evaluates to exactly zero.
proof fn lemma_jdq_vec_zero(s: GameContent, v: Seq<Fix>)
    requires
        s.at_rest(),
        s.constraints_in_range(),
        s.all_well_posed(),
        v.len() == s.m(),
        forall|k: int|
            0 <= k < s.m() ==> (#[trigger] v[k])@ == spec_jdq_at(s.constraints@[k], s.bodies@),
    ensures
        all_zero(v),
{
    assert forall|k: int| 0 <= k < v.len() implies (#[trigger] v[k])@ == 0 by {
        assert(spec_well_posed_at(s.constraints@[k], s.bodies@));
        match s.constraints@[k] {
            Constraint::Anchor(an) => {
                let b = s.bodies@[an.body.0 as int];
                assert(b.vel.x@ == 0 && b.vel.y@ == 0);
                lemma_mul_zero(crate::assembly::gx(b.pos, an.anchor));
                lemma_mul_zero(crate::assembly::gy(b.pos, an.anchor));
                lemma_mul_zero(0);
                lemma_div_zero(
                    crate::constraints::spec_pow32(
                        crate::constraints::spec_gap_norm_sq(b.pos, an.anchor),
                    ),
                );
            },
            Constraint::Distance(d) => {
                let ba = s.bodies@[d.body_a.0 as int];
                let bb = s.bodies@[d.body_b.0 as int];
                assert(ba.vel.x@ == 0 && ba.vel.y@ == 0 && bb.vel.x@ == 0 && bb.vel.y@ == 0);
                lemma_mul_zero(crate::assembly::gx(ba.pos, bb.pos));
                lemma_mul_zero(crate::assembly::gy(ba.pos, bb.pos));
                lemma_mul_zero(0);
                lemma_div_zero(
                    crate::constraints::spec_pow32(
                        crate::constraints::spec_gap_norm_sq(ba.pos, bb.pos),
                    ),
                );
            },
            Constraint::Plane(_) => {},
            Constraint::Pulley(p) => {
                let ba = s.bodies@[p.body_a.0 as int];
                let bb = s.bodies@[p.body_b.0 as int];
                assert(ba.vel.x@ == 0 && ba.vel.y@ == 0 && bb.vel.x@ == 0 && bb.vel.y@ == 0);
                lemma_mul_zero(crate::assembly::gx(ba.pos, p.anchor_a));
                lemma_mul_zero(crate::assembly::gy(ba.pos, p.anchor_a));
                lemma_mul_zero(crate::assembly::gx(bb.pos, p.anchor_b));
                lemma_mul_zero(crate::assembly::gy(bb.pos, p.anchor_b));
                lemma_mul_zero(0);
                lemma_div_zero(
                    crate::constraints::spec_pow32(
                        crate::constraints::spec_gap_norm_sq(ba.pos, p.anchor_a),
                    ),
                );
                lemma_div_zero(
                    crate::constraints::spec_pow32(
                        crate::constraints::spec_gap_norm_sq(bb.pos, p.anchor_b),
                    ),
                );
            },
        }
    }
}

/// A gravity kick under zero gravity changes nothing.
proof fn lemma_grav_kick_still(a: GameContent, b: GameContent)
    requires
        a.at_rest(),
        b.n() == a.n(),
        forall|i: int|
            0 <= i < a.n() ==> (#[trigger] b.bodies@[i]) == spec_grav_kick(
                a.bodies@[i],
                a.gravity,
                a.time_step@,
            ),
    ensures
        forall|i: int| 0 <= i < a.n() ==> #[trigger] b.bodies@[i] == a.bodies@[i],
{
    assert forall|i: int| 0 <= i < a.n() implies #[trigger] b.bodies@[i] == a.bodies@[i] by {
        lemma_mul_zero(a.time_step@);
        lemma_add_zero(a.bodies@[i].vel.x@);
        lemma_add_zero(a.bodies@[i].vel.y@);
    }
}

/// A momentum move with a zero correction vector leaves a resting body
/// exactly in place.
proof fn lemma_momentum_still(a: GameContent, b: GameContent, mom: Seq<Fix>, dt: int)
    requires
        a.at_rest(),
        b.n() == a.n(),
        mom.len() == 2 * a.n(),
        all_zero(mom),
        forall|i: int|
            0 <= i < a.n() ==> (#[trigger] b.bodies@[i]) == spec_momentum_move(
                a.bodies@[i],
                mom[2 * i]@,
                mom[2 * i + 1]@,
                dt,
            ),
    ensures
        forall|i: int|
            0 <= i < a.n()
                ==> (#[trigger] b.bodies@[i]).pos == a.bodies@[i].pos && b.bodies@[i].vel
                    == a.bodies@[i].vel,
{
    assert forall|i: int|
        0 <= i < a.n() implies (#[trigger] b.bodies@[i]).pos == a.bodies@[i].pos
            && b.bodies@[i].vel == a.bodies@[i].vel by {
        assert(mom[2 * i]@ == 0 && mom[2 * i + 1]@ == 0);
        lemma_mul_zero(a.bodies@[i].inv_mass@);
        lemma_add_zero(a.bodies@[i].vel.x@);
        lemma_add_zero(a.bodies@[i].vel.y@);
        lemma_mul_zero(dt);
        lemma_add_zero(a.bodies@[i].pos.x@);
        lemma_add_zero(a.bodies@[i].pos.y@);
    }
}

/// Under zero gravity the external force vector is exactly zero.
proof fn lemma_force_of_zero(bodies: Seq<Body>, g: Vec2)
    requires
        g.x@ == 0,
        g.y@ == 0,
    ensures
        all_zero(force_of(bodies, g)),
{
    assert forall|t: int| 0 <= t < force_of(bodies, g).len() implies (#[trigger] force_of(
        bodies,
        g,
    )[t])@ == 0 by {
        let h = t / 2;
        assert(t == 2 * h || t == 2 * h + 1);
        lemma_mul_zero(bodies[h].mass@);
    }
}

/// A force-level Taylor move with a zero force vector leaves a resting
/// body exactly in place.
proof fn lemma_force_move_still(a: GameContent, b: GameContent, f: Seq<Fix>, dt: int)
    requires
        a.at_rest(),
        b.n() == a.n(),
        f.len() == 2 * a.n(),
        all_zero(f),
        forall|i: int|
            0 <= i < a.n() ==> (#[trigger] b.bodies@[i]) == crate::integrate::spec_force_move(
                a.bodies@[i],
                f[2 * i]@,
                f[2 * i + 1]@,
                dt,
            ),
    ensures
        forall|i: int|
            0 <= i < a.n()
                ==> (#[trigger] b.bodies@[i]).pos == a.bodies@[i].pos && b.bodies@[i].vel
                    == a.bodies@[i].vel,
{
    assert forall|i: int|
        0 <= i < a.n() implies (#[trigger] b.bodies@[i]).pos == a.bodies@[i].pos
            && b.bodies@[i].vel == a.bodies@[i].vel by {
        assert(f[2 * i]@ == 0 && f[2 * i + 1]@ == 0);
        lemma_mul_zero(a.bodies@[i].inv_mass@);
        lemma_mul_zero(dt);
        lemma_mul_zero(spec_mul(spec_mul(32768, dt), dt));
        lemma_add_zero(a.bodies@[i].vel.x@);
        lemma_add_zero(a.bodies@[i].vel.y@);
        lemma_add_zero(a.bodies@[i].pos.x@);
        lemma_add_zero(a.bodies@[i].pos.y@);
    }
}

/// A prepass move with zero momentum and zero force leaves a resting
/// body exactly in place.
proof fn lemma_prepass_move_still(
    a: GameContent,
    b: GameContent,
    mom: Seq<Fix>,
    f: Seq<Fix>,
    dt: int,
)
    requires
        a.at_rest(),
        b.n() == a.n(),
        mom.len() == 2 * a.n(),
        f.len() == 2 * a.n(),
        all_zero(mom),
        all_zero(f),
        forall|i: int|
            0 <= i < a.n() ==> (#[trigger] b.bodies@[i]) == crate::integrate::spec_prepass_move(
                a.bodies@[i],
                mom[2 * i]@,
                mom[2 * i + 1]@,
                f[2 * i]@,
                f[2 * i + 1]@,
                dt,
            ),
    ensures
        forall|i: int|
            0 <= i < a.n()
                ==> (#[trigger] b.bodies@[i]).pos == a.bodies@[i].pos && b.bodies@[i].vel
                    == a.bodies@[i].vel,
{
    assert forall|i: int|
        0 <= i < a.n() implies (#[trigger] b.bodies@[i]).pos == a.bodies@[i].pos
            && b.bodies@[i].vel == a.bodies@[i].vel by {
        assert(mom[2 * i]@ == 0 && mom[2 * i + 1]@ == 0);
        assert(f[2 * i]@ == 0 && f[2 * i + 1]@ == 0);
        lemma_mul_zero(a.bodies@[i].inv_mass@);
        lemma_mul_zero(dt);
        lemma_mul_zero(spec_mul(spec_mul(32768, dt), dt));
        lemma_add_zero(a.bodies@[i].vel.x@);
        lemma_add_zero(a.bodies@[i].vel.y@);
        lemma_add_zero(a.bodies@[i].pos.x@);
        lemma_add_zero(a.bodies@[i].pos.y@);
    }
}

/// A force-level velocity kick with a zero vector changes nothing.
proof fn lemma_force_kick_still(a: GameContent, b: GameContent, f: Seq<Fix>, dt: int)
    requires
        b.n() == a.n(),
        f.len() == 2 * a.n(),
        all_zero(f),
        forall|i: int|
            0 <= i < a.n() ==> (#[trigger] b.bodies@[i]) == crate::integrate::spec_force_kick(
                a.bodies@[i],
                f[2 * i]@,
                f[2 * i + 1]@,
                dt,
            ),
    ensures
        forall|i: int| 0 <= i < a.n() ==> #[trigger] b.bodies@[i] == a.bodies@[i],
{
    assert forall|i: int| 0 <= i < a.n() implies #[trigger] b.bodies@[i] == a.bodies@[i] by {
        assert(f[2 * i]@ == 0 && f[2 * i + 1]@ == 0);
        lemma_mul_zero(a.bodies@[i].inv_mass@);
        lemma_mul_zero(dt);
        lemma_add_zero(a.bodies@[i].vel.x@);
        lemma_add_zero(a.bodies@[i].vel.y@);
    }
}

impl GameContent {
    /// Everything a tick needs of its state: the invariant, a current
    /// solver index, and room for the dense layout.
    pub open spec fn ready(self) -> bool {
        self.wf() && self.index_built() && self.n() * 2 < usize::MAX && self.m() < 0x8000000000
    }

    /// The solver index is either current or discarded, waiting for its
    /// lazy rebuild.
    pub open spec fn index_fresh(self) -> bool {
        self.physic_index_to_entity@.len() == 0 || self.index_built()
    }
}

/// Restores `ready` after a pass that kept the frame and left one
/// multiplier entry per constraint.
proof fn lemma_ready_restore(a: GameContent, b: GameContent)
    requires
        a.ready(),
        solve_frame(a, b),
        b.applied_correction@.len() == b.m(),
    ensures
        b.ready(),
{
    assert forall|i: int| 0 <= i < b.n() implies (#[trigger] b.bodies@[i]).wf() by {
        assert(b.bodies@[i].inv_mass == a.bodies@[i].inv_mass);
        assert(a.bodies@[i].wf());
    }
    assert(b.index_built()) by {
        assert forall|i: int|
            0 <= i < b.n() implies #[trigger] b.physic_index_to_entity@[i] == crate::body::BodyId(
            i as usize,
        ) by {
            assert(a.physic_index_to_entity@[i] == crate::body::BodyId(i as usize));
        }
        assert forall|i: int|
            0 <= i < b.n() implies (#[trigger] b.bodies@[i]).tag == crate::body::SubjectToPhysic(
            i as usize,
        ) by {
            assert(a.bodies@[i].tag == crate::body::SubjectToPhysic(i as usize));
        }
    }
}

impl GameContent {
    /// Baseline impulse solver: solve K·λ = −J·q̇ after gravity enters
    /// the velocities, correct the velocities with Jᵗ·λ distributed by
    /// inverse mass, then integrate positions by explicit Euler.
    pub fn solve_1st_order(&mut self) -> (r: Result<(), SolveError>)
        requires
            old(self).ready(),
        ensures
            solve_frame(*old(self), *final(self)),
            final(self).ready(),
            r is Err ==> *final(self) == *old(self),
            r is Ok ==> final(self).applied_correction@.len() == old(self).m(),
            old(self).at_rest() && r is Ok ==> GameContent::holds_station(
                *old(self),
                *final(self),
            ) && final(self).at_rest(),
            r is Ok ==> final(self).violation_mean@ == spec_violation_mean(
                spec_c_seq(*old(self)),
            ),
            r == Result::<(), SolveError>::Err(SolveError::DegenerateConstraint) <==> !old(
                self,
            ).all_well_posed(),
            r != Result::<(), SolveError>::Err(SolveError::NonConvergent),
            r is Ok ==> final(self).bodies@ == fo_bodies(
                old(self).constraints@,
                old(self).bodies@,
                old(self).gravity,
                old(self).time_step@,
            ) && final(self).applied_correction@ == seq_div(
                fo_lambda(
                    old(self).constraints@,
                    old(self).bodies@,
                    old(self).gravity,
                    old(self).time_step@,
                ),
                old(self).time_step@,
            ),
            r == Result::<(), SolveError>::Err(SolveError::SingularSystem) <==> old(
                self,
            ).all_well_posed() && !chol_ok(k_of(old(self).constraints@, old(self).bodies@)),
    {
        if !self.check_well_posed() {
            return Err(SolveError::DegenerateConstraint);
        }
        let w: Matrix = self.inv_mass_matrix();
        let jm: Matrix = self.j_matrix();
        let jt: Matrix = jm.transpose();
        let km: Matrix = jm.mul(&w).mul(&jt);
        let l: Matrix = match cholesky_factor(&km) {
            Option::None => {
                return Err(SolveError::SingularSystem);
            },
            Option::Some(l) => l,
        };
        let ghost pre = *self;
        self.integrate_gravity();
        proof {
            if pre.at_rest() {
                lemma_grav_kick_still(pre, *self);
            }
            lemma_well_posed_stable(pre, *self);
        }
        let q_dot: Vec<Fix> = self.q_dot_vector();
        let c: Vec<Fix> = self.c_vector();
        proof {
            lemma_c_positions_only(pre, *self);
            assert(c@ =~= spec_c_seq(*self));
        }
        // The stabilization coefficient on C is zero: no Baumgarte term.
        let zero_bias: Fix = Fix::zero();
        let jq: Vec<Fix> = jm.mul_vec(&q_dot);
        let b: Vec<Fix> = vec_sub(&vec_neg(&jq), &vec_scale(&c, zero_bias));
        proof {
            if pre.at_rest() {
                assert forall|i: int|
                    0 <= i < pre.n() implies (#[trigger] q_dot@[2 * i])@ == 0 && q_dot@[2 * i
                    + 1]@ == 0 by {
                    assert(self.bodies@[i] == pre.bodies@[i]);
                }
                lemma_pairs_zero(q_dot@, pre.n());
                lemma_matvec_zero(jm, q_dot@, jq@);
                assert forall|t: int| 0 <= t < b@.len() implies (#[trigger] b@[t])@ == 0 by {
                    lemma_mul_zero(c@[t]@);
                }
            }
        }
        let lambda: Vec<Fix> = solve_factored(&l, &b);
        self.applied_correction = vec_div(&lambda, self.time_step);
        let momentum: Vec<Fix> = jt.mul_vec(&lambda);
        proof {
            if pre.at_rest() {
                lemma_matvec_zero(jt, lambda@, momentum@);
            }
        }
        let ghost mid = *self;
        self.apply_momentum_euler(&momentum);
        proof {
            assert(self.bodies@ == fo_bodies(
                old(self).constraints@,
                old(self).bodies@,
                old(self).gravity,
                old(self).time_step@,
            ));
        }
        proof {
            if pre.at_rest() {
                lemma_momentum_still(mid, *self, momentum@, pre.time_step@);
            }
            lemma_ready_restore(*old(self), *self);
        }
        self.violation_mean = Self::violation_mean_of(&c);
        Ok(())
    }

    /// Force-level solver: solve K·λ = −J·M⁻¹·F − J̇·q̇ and integrate by
    /// a second-order Taylor step.
    pub fn solve_2nd_order(&mut self) -> (r: Result<(), SolveError>)
        requires
            old(self).ready(),
        ensures
            solve_frame(*old(self), *final(self)),
            final(self).ready(),
            r is Err ==> *final(self) == *old(self),
            r is Ok ==> final(self).applied_correction@.len() == old(self).m(),
            r is Ok ==> final(self).violation_mean@ == spec_violation_mean(
                spec_c_seq(*old(self)),
            ),
            r == Result::<(), SolveError>::Err(SolveError::DegenerateConstraint) <==> !old(
                self,
            ).all_well_posed(),
            r != Result::<(), SolveError>::Err(SolveError::NonConvergent),
            r is Ok ==> final(self).bodies@ == so_bodies(
                old(self).constraints@,
                old(self).bodies@,
                old(self).gravity,
                old(self).time_step@,
            ) && final(self).applied_correction@ == so_lambda(
                old(self).constraints@,
                old(self).bodies@,
                old(self).gravity,
            ),
            r == Result::<(), SolveError>::Err(SolveError::SingularSystem) <==> old(
                self,
            ).all_well_posed() && !chol_ok(k_of(old(self).constraints@, old(self).bodies@)),
            old(self).at_rest() && r is Ok ==> GameContent::holds_station(
                *old(self),
                *final(self),
            ) && final(self).at_rest(),
    {
        if !self.check_well_posed() {
            return Err(SolveError::DegenerateConstraint);
        }
        let w: Matrix = self.inv_mass_matrix();
        let jm: Matrix = self.j_matrix();
        let jt: Matrix = jm.transpose();
        let jw: Matrix = jm.mul(&w);
        let km: Matrix = jw.mul(&jt);
        let l: Matrix = match cholesky_factor(&km) {
            Option::None => {
                return Err(SolveError::SingularSystem);
            },
            Option::Some(l) => l,
        };
        let force: Vec<Fix> = self.force_vector();
        let jwf: Vec<Fix> = jw.mul_vec(&force);
        let jdq: Vec<Fix> = self.j_dot_q_dot();
        let c_dot: Vec<Fix> = self.c_dot_vector();
        let c: Vec<Fix> = self.c_vector();
        proof {
            assert(c@ =~= spec_c_seq(*self));
        }
        // Both stabilization coefficients are zero: no Baumgarte terms.
        let zero_bias: Fix = Fix::zero();
        let b: Vec<Fix> = vec_sub(
            &vec_sub(&vec_sub(&vec_neg(&jwf), &jdq), &vec_scale(&c_dot, zero_bias)),
            &vec_scale(&c, zero_bias),
        );
        let lambda: Vec<Fix> = solve_factored(&l, &b);
        proof {
            if old(self).at_rest() {
                lemma_force_of_zero(self.bodies@, self.gravity);
                lemma_matvec_zero(jw, force@, jwf@);
                lemma_jdq_vec_zero(*self, jdq@);
                assert forall|t: int| 0 <= t < b@.len() implies (#[trigger] b@[t])@ == 0 by {
                    lemma_mul_zero(c_dot@[t]@);
                    lemma_mul_zero(c@[t]@);
                }
            }
        }
        let jt_lambda: Vec<Fix> = jt.mul_vec(&lambda);
        let applied_force: Vec<Fix> = vec_add(&jt_lambda, &force);
        // This solver works in forces, so the multiplier is recorded as is.
        self.applied_correction = lambda;
        let ghost pre2 = *self;
        self.apply_force_taylor(&applied_force);
        proof {
            if old(self).at_rest() {
                lemma_matvec_zero(jt, lambda@, jt_lambda@);
                assert forall|t: int|
                    0 <= t < applied_force@.len() implies (#[trigger] applied_force@[t])@ == 0 by {}
                lemma_force_move_still(pre2, *self, applied_force@, old(self).time_step@);
            }
        }
        proof {
            assert(self.bodies@ == so_bodies(
                old(self).constraints@,
                old(self).bodies@,
                old(self).gravity,
                old(self).time_step@,
            ));
        }
        proof {
            lemma_ready_restore(*old(self), *self);
        }
        self.violation_mean = Self::violation_mean_of(&c);
        Ok(())
    }

    /// Force pass first, then an impulse pass reusing the same
    /// factorization, with explicit Euler integration keeping the force
    /// pass's Taylor term.
    pub fn solve_with_prepass(&mut self) -> (r: Result<(), SolveError>)
        requires
            old(self).ready(),
        ensures
            solve_frame(*old(self), *final(self)),
            final(self).ready(),
            r is Err ==> *final(self) == *old(self),
            r is Ok ==> final(self).applied_correction@ == old(self).applied_correction@,
            r is Ok ==> final(self).violation_mean@ == spec_violation_mean(
                spec_c_seq(*old(self)),
            ),
            r == Result::<(), SolveError>::Err(SolveError::DegenerateConstraint) <==> !old(
                self,
            ).all_well_posed(),
            r != Result::<(), SolveError>::Err(SolveError::NonConvergent),
            r is Ok ==> final(self).bodies@ == pp_bodies(
                old(self).constraints@,
                old(self).bodies@,
                old(self).gravity,
                old(self).time_step@,
            ),
            r == Result::<(), SolveError>::Err(SolveError::SingularSystem) <==> old(
                self,
            ).all_well_posed() && !chol_ok(k_of(old(self).constraints@, old(self).bodies@)),
            old(self).at_rest() && r is Ok ==> GameContent::holds_station(
                *old(self),
                *final(self),
            ) && final(self).at_rest(),
    {
        if !self.check_well_posed() {
            return Err(SolveError::DegenerateConstraint);
        }
        let w: Matrix = self.inv_mass_matrix();
        let jm: Matrix = self.j_matrix();
        let jt: Matrix = jm.transpose();
        let jw: Matrix = jm.mul(&w);
        let km: Matrix = jw.mul(&jt);
        let l: Matrix = match cholesky_factor(&km) {
            Option::None => {
                return Err(SolveError::SingularSystem);
            },
            Option::Some(l) => l,
        };
        // Force pass.
        let force: Vec<Fix> = self.force_vector();
        let jwf: Vec<Fix> = jw.mul_vec(&force);
        let jdq: Vec<Fix> = self.j_dot_q_dot();
        let c_dot: Vec<Fix> = self.c_dot_vector();
        let c: Vec<Fix> = self.c_vector();
        proof {
            assert(c@ =~= spec_c_seq(*self));
        }
        let zero_bias: Fix = Fix::zero();
        let b1: Vec<Fix> = vec_sub(
            &vec_sub(&vec_sub(&vec_neg(&jwf), &jdq), &vec_scale(&c_dot, zero_bias)),
            &vec_scale(&c, zero_bias),
        );
        let lambda1: Vec<Fix> = solve_factored(&l, &b1);
        proof {
            if old(self).at_rest() {
                lemma_force_of_zero(self.bodies@, self.gravity);
                lemma_matvec_zero(jw, force@, jwf@);
                lemma_jdq_vec_zero(*self, jdq@);
                assert forall|t: int| 0 <= t < b1@.len() implies (#[trigger] b1@[t])@ == 0 by {
                    lemma_mul_zero(c_dot@[t]@);
                    lemma_mul_zero(c@[t]@);
                }
            }
        }
        let jt_lambda1: Vec<Fix> = jt.mul_vec(&lambda1);
        let applied_acceleration: Vec<Fix> = vec_add(&jt_lambda1, &force);
        let ghost pre = *self;
        self.apply_force_kick(&applied_acceleration);
        proof {
            lemma_well_posed_stable(pre, *self);
            if old(self).at_rest() {
                lemma_matvec_zero(jt, lambda1@, jt_lambda1@);
                assert forall|t: int|
                    0 <= t < applied_acceleration@.len() implies (#[trigger] applied_acceleration@[t])@
                    == 0 by {}
                lemma_force_kick_still(pre, *self, applied_acceleration@, old(self).time_step@);
                assert forall|i2: int|
                    0 <= i2 < self.n() implies #[trigger] self.bodies@[i2] == old(self).bodies@[i2]
                    by {}
            }
        }
        // Velocity pass against the constraint-violating velocities.
        let q_dot: Vec<Fix> = self.q_dot_vector();
        let jq2: Vec<Fix> = jm.mul_vec(&q_dot);
        let b2: Vec<Fix> = vec_sub(&vec_neg(&jq2), &vec_scale(&c, zero_bias));
        proof {
            if old(self).at_rest() {
                assert forall|i2: int|
                    0 <= i2 < old(self).n() implies (#[trigger] q_dot@[2 * i2])@ == 0 && q_dot@[2
                    * i2 + 1]@ == 0 by {
                    assert(self.bodies@[i2] == old(self).bodies@[i2]);
                }
                lemma_pairs_zero(q_dot@, old(self).n());
                lemma_matvec_zero(jm, q_dot@, jq2@);
                assert forall|t: int| 0 <= t < b2@.len() implies (#[trigger] b2@[t])@ == 0 by {
                    lemma_mul_zero(c@[t]@);
                }
            }
        }
        let lambda2: Vec<Fix> = solve_factored(&l, &b2);
        let applied_momentum: Vec<Fix> = jt.mul_vec(&lambda2);
        proof {
            if old(self).at_rest() {
                lemma_matvec_zero(jt, lambda2@, applied_momentum@);
            }
        }
        let ghost pre3 = *self;
        self.apply_prepass_move(&applied_momentum, &applied_acceleration);
        proof {
            if old(self).at_rest() {
                lemma_prepass_move_still(
                    pre3,
                    *self,
                    applied_momentum@,
                    applied_acceleration@,
                    old(self).time_step@,
                );
            }
        }
        proof {
            assert(self.bodies@ == pp_bodies(
                old(self).constraints@,
                old(self).bodies@,
                old(self).gravity,
                old(self).time_step@,
            ));
        }
        proof {
            lemma_ready_restore(*old(self), *self);
        }
        self.violation_mean = Self::violation_mean_of(&c);
        Ok(())
    }

    /// Velocity-validity pass first, then a force pass at the corrected
    /// velocities, integrated by a Verlet step.
    pub fn hybrid_v2(&mut self) -> (r: Result<(), SolveError>)
        requires
            old(self).ready(),
        ensures
            solve_frame(*old(self), *final(self)),
            final(self).ready(),
            r is Err ==> *final(self) == *old(self),
            r is Ok ==> final(self).applied_correction@ == old(self).applied_correction@,
            r is Ok ==> final(self).violation_mean@ == spec_violation_mean(
                spec_c_seq(*old(self)),
            ),
            r == Result::<(), SolveError>::Err(SolveError::DegenerateConstraint) <==> !old(
                self,
            ).all_well_posed(),
            r != Result::<(), SolveError>::Err(SolveError::NonConvergent),
            r is Ok ==> final(self).bodies@ == v2_bodies(
                old(self).constraints@,
                old(self).bodies@,
                old(self).gravity,
                old(self).time_step@,
            ),
            r == Result::<(), SolveError>::Err(SolveError::SingularSystem) <==> old(
                self,
            ).all_well_posed() && !chol_ok(k_of(old(self).constraints@, old(self).bodies@)),
    {
        if !self.check_well_posed() {
            return Err(SolveError::DegenerateConstraint);
        }
        let w: Matrix = self.inv_mass_matrix();
        let jm: Matrix = self.j_matrix();
        let jt: Matrix = jm.transpose();
        let jw: Matrix = jm.mul(&w);
        let km: Matrix = jw.mul(&jt);
        let l: Matrix = match cholesky_factor(&km) {
            Option::None => {
                return Err(SolveError::SingularSystem);
            },
            Option::Some(l) => l,
        };
        let c: Vec<Fix> = self.c_vector();
        proof {
            assert(c@ =~= spec_c_seq(*self));
        }
        // First make the velocities valid at this position.
        let q_dot: Vec<Fix> = self.q_dot_vector();
        let zero_bias: Fix = Fix::zero();
        let b1: Vec<Fix> = vec_sub(&vec_neg(&jm.mul_vec(&q_dot)), &vec_scale(&c, zero_bias));
        let lambda1: Vec<Fix> = solve_factored(&l, &b1);
        let applied_momentum: Vec<Fix> = jt.mul_vec(&lambda1);
        let ghost pre = *self;
        self.apply_momentum_kick(&applied_momentum);
        proof {
            lemma_well_posed_stable(pre, *self);
        }
        // Now apply forces at this location.
        let force: Vec<Fix> = self.force_vector();
        let jwf: Vec<Fix> = jw.mul_vec(&force);
        let jdq: Vec<Fix> = self.j_dot_q_dot();
        let c_dot: Vec<Fix> = self.c_dot_vector();
        let b2: Vec<Fix> = vec_sub(
            &vec_sub(&vec_sub(&vec_neg(&jwf), &jdq), &vec_scale(&c_dot, zero_bias)),
            &vec_scale(&c, zero_bias),
        );
        let lambda2: Vec<Fix> = solve_factored(&l, &b2);
        let applied_force: Vec<Fix> = vec_add(&jt.mul_vec(&lambda2), &force);
        proof {
            lemma_double_nonzero(self.time_step@);
        }
        self.apply_verlet(&applied_force);
        proof {
            assert(self.bodies@ == v2_bodies(
                old(self).constraints@,
                old(self).bodies@,
                old(self).gravity,
                old(self).time_step@,
            ));
        }
        proof {
            lemma_ready_restore(*old(self), *self);
        }
        self.violation_mean = Self::violation_mean_of(&c);
        Ok(())
    }

    /// The most accurate variant: solve K·λ = −J·q̇ − ½·Δt·J̇·q̇, a
    /// half-step Taylor term folded into the velocity-space bias, then
    /// integrate by explicit Euler.
    pub fn hybrid_v3(&mut self) -> (r: Result<(), SolveError>)
        requires
            old(self).ready(),
        ensures
            solve_frame(*old(self), *final(self)),
            final(self).ready(),
            r is Err ==> *final(self) == *old(self),
            r is Ok ==> final(self).applied_correction@.len() == old(self).m(),
            old(self).at_rest() && r is Ok ==> GameContent::holds_station(
                *old(self),
                *final(self),
            ) && final(self).at_rest(),
            r is Ok ==> final(self).violation_mean@ == spec_violation_mean(
                spec_c_seq(*old(self)),
            ),
            r == Result::<(), SolveError>::Err(SolveError::DegenerateConstraint) <==> !old(
                self,
            ).all_well_posed(),
            r != Result::<(), SolveError>::Err(SolveError::NonConvergent),
            r is Ok ==> final(self).bodies@ == v3_bodies(
                old(self).constraints@,
                old(self).bodies@,
                old(self).gravity,
                old(self).time_step@,
            ) && final(self).applied_correction@ == seq_div(
                v3_lambda(
                    old(self).constraints@,
                    old(self).bodies@,
                    old(self).gravity,
                    old(self).time_step@,
                ),
                old(self).time_step@,
            ),
            r == Result::<(), SolveError>::Err(SolveError::SingularSystem) <==> old(
                self,
            ).all_well_posed() && !chol_ok(k_of(old(self).constraints@, old(self).bodies@)),
    {
        if !self.check_well_posed() {
            return Err(SolveError::DegenerateConstraint);
        }
        let w: Matrix = self.inv_mass_matrix();
        let jm: Matrix = self.j_matrix();
        let jt: Matrix = jm.transpose();
        let km: Matrix = jm.mul(&w).mul(&jt);
        let l: Matrix = match cholesky_factor(&km) {
            Option::None => {
                return Err(SolveError::SingularSystem);
            },
            Option::Some(l) => l,
        };
        let ghost pre = *self;
        self.integrate_gravity();
        proof {
            if pre.at_rest() {
                lemma_grav_kick_still(pre, *self);
            }
            lemma_well_posed_stable(pre, *self);
        }
        let q_dot: Vec<Fix> = self.q_dot_vector();
        let jdq: Vec<Fix> = self.j_dot_q_dot();
        let c: Vec<Fix> = self.c_vector();
        proof {
            lemma_c_positions_only(pre, *self);
            assert(c@ =~= spec_c_seq(*self));
        }
        let half: Fix = Fix::from_ratio(1, 2);
        let jq: Vec<Fix> = jm.mul_vec(&q_dot);
        let bias: Vec<Fix> = vec_scale(&vec_scale(&jdq, self.time_step), half);
        let b: Vec<Fix> = vec_sub(&vec_neg(&jq), &bias);
        proof {
            if pre.at_rest() {
                assert forall|i: int|
                    0 <= i < pre.n() implies (#[trigger] q_dot@[2 * i])@ == 0 && q_dot@[2 * i
                    + 1]@ == 0 by {
                    assert(self.bodies@[i] == pre.bodies@[i]);
                }
                assert(self.at_rest());
                lemma_pairs_zero(q_dot@, pre.n());
                lemma_matvec_zero(jm, q_dot@, jq@);
                lemma_jdq_vec_zero(*self, jdq@);
                assert forall|t: int| 0 <= t < b@.len() implies (#[trigger] b@[t])@ == 0 by {
                    lemma_mul_zero(self.time_step@);
                    lemma_mul_zero(half@);
                }
            }
        }
        let lambda: Vec<Fix> = solve_factored(&l, &b);
        // Momentum convention: dividing by the step recovers a force.
        self.applied_correction = vec_div(&lambda, self.time_step);
        let momentum: Vec<Fix> = jt.mul_vec(&lambda);
        proof {
            if pre.at_rest() {
                lemma_matvec_zero(jt, lambda@, momentum@);
            }
        }
        let ghost mid = *self;
        self.apply_momentum_euler(&momentum);
        proof {
            assert(self.bodies@ == v3_bodies(
                old(self).constraints@,
                old(self).bodies@,
                old(self).gravity,
                old(self).time_step@,
            ));
        }
        proof {
            if pre.at_rest() {
                lemma_momentum_still(mid, *self, momentum@, pre.time_step@);
            }
            lemma_ready_restore(*old(self), *self);
        }
        self.violation_mean = Self::violation_mean_of(&c);
        Ok(())
    }

    /// The same system as the half-step variant, solved iteratively by
    /// conjugate gradient with a warm start from the previous tick's
    /// multiplier; hitting the iteration cap fails the tick.
    #[verifier::rlimit(100)]
    pub fn hydrid_v3_cgm(&mut self) -> (r: Result<(), SolveError>)
        requires
            old(self).ready(),
        ensures
            solve_frame(*old(self), *final(self)),
            final(self).ready(),
            r is Err ==> forall|i: int|
                0 <= i < old(self).n() ==> (#[trigger] final(self).bodies@[i]).pos == old(
                    self,
                ).bodies@[i].pos,
            r is Ok ==> final(self).applied_correction@.len() == old(self).m(),
            r is Ok ==> final(self).violation_mean@ == spec_violation_mean(
                spec_c_seq(*old(self)),
            ),
            r == Result::<(), SolveError>::Err(SolveError::DegenerateConstraint) <==> !old(
                self,
            ).all_well_posed(),
            r != Result::<(), SolveError>::Err(SolveError::SingularSystem),
            r == Result::<(), SolveError>::Err(SolveError::NonConvergent) <==> old(
                self,
            ).all_well_posed() && !cgm_converges(
                old(self).constraints@,
                old(self).bodies@,
                old(self).gravity,
                old(self).time_step@,
                old(self).applied_correction@,
            ),
            r is Ok <==> old(self).all_well_posed() && cgm_converges(
                old(self).constraints@,
                old(self).bodies@,
                old(self).gravity,
                old(self).time_step@,
                old(self).applied_correction@,
            ),
            r is Ok ==> final(self).bodies@ == cgm_bodies(
                old(self).constraints@,
                old(self).bodies@,
                old(self).gravity,
                old(self).time_step@,
                old(self).applied_correction@,
            ) && final(self).applied_correction@ == seq_div(
                cgm_lambda(
                    old(self).constraints@,
                old(self).bodies@,
                old(self).gravity,
                old(self).time_step@,
                old(self).applied_correction@,
                ),
                old(self).time_step@,
            ),
    {
        if !self.check_well_posed() {
            return Err(SolveError::DegenerateConstraint);
        }
        let w: Matrix = self.inv_mass_matrix();
        let jm: Matrix = self.j_matrix();
        let jt: Matrix = jm.transpose();
        let km: Matrix = jm.mul(&w).mul(&jt);
        let ghost pre = *self;
        self.integrate_gravity();
        proof {
            lemma_well_posed_stable(pre, *self);
        }
        let q_dot: Vec<Fix> = self.q_dot_vector();
        let jdq: Vec<Fix> = self.j_dot_q_dot();
        let c: Vec<Fix> = self.c_vector();
        proof {
            lemma_c_positions_only(pre, *self);
            assert(c@ =~= spec_c_seq(*self));
        }
        let half: Fix = Fix::from_ratio(1, 2);
        let b: Vec<Fix> = vec_sub(
            &vec_neg(&jm.mul_vec(&q_dot)),
            &vec_scale(&vec_scale(&jdq, self.time_step), half),
        );
        // The previous multiplier, rescaled, is a better guess than zero.
        let guess: Vec<Fix> = vec_scale(&self.applied_correction, self.time_step);
        let lambda: Vec<Fix> = match cg_solve(&km, &b, &guess) {
            Option::None => {
                proof {
                    lemma_ready_restore(*old(self), *self);
                }
                return Err(SolveError::NonConvergent);
            },
            Option::Some(x) => x,
        };
        self.applied_correction = vec_div(&lambda, self.time_step);
        let momentum: Vec<Fix> = jt.mul_vec(&lambda);
        self.apply_momentum_euler(&momentum);
        proof {
            lemma_ready_restore(*old(self), *self);
        }
        self.violation_mean = Self::violation_mean_of(&c);
        proof {
            assert(self.bodies@ == cgm_bodies(
                old(self).constraints@,
                old(self).bodies@,
                old(self).gravity,
                old(self).time_step@,
                old(self).applied_correction@,
            ));
        }
        Ok(())
    }

    /// Adds an experimental second-derivative (jerk) correction term
    /// scaled by Δt²/6 to the half-step bias.
    pub fn hybrid_v4(&mut self) -> (r: Result<(), SolveError>)
        requires
            old(self).ready(),
        ensures
            solve_frame(*old(self), *final(self)),
            final(self).ready(),
            r is Err ==> *final(self) == *old(self),
            r is Ok ==> final(self).applied_correction@.len() == old(self).m(),
            r is Ok ==> final(self).violation_mean@ == spec_violation_mean(
                spec_c_seq(*final(self)),
            ),
            r == Result::<(), SolveError>::Err(SolveError::DegenerateConstraint) <==> !(old(
                self,
            ).all_well_posed() && old(self).all_jerk_posed()),
            r != Result::<(), SolveError>::Err(SolveError::NonConvergent),
            r is Ok ==> final(self).bodies@ == v4_bodies(
                old(self).constraints@,
                old(self).bodies@,
                old(self).gravity,
                old(self).time_step@,
            ) && final(self).applied_correction@ == seq_div(
                v4_lambda(
                    old(self).constraints@,
                    old(self).bodies@,
                    old(self).gravity,
                    old(self).time_step@,
                ),
                old(self).time_step@,
            ),
            r == Result::<(), SolveError>::Err(SolveError::SingularSystem) <==> old(
                self,
            ).all_well_posed() && old(self).all_jerk_posed() && !chol_ok(
                k_of(old(self).constraints@, old(self).bodies@),
            ),
    {
        if !self.check_well_posed() {
            return Err(SolveError::DegenerateConstraint);
        }
        if !self.check_jerk_posed() {
            return Err(SolveError::DegenerateConstraint);
        }
        let w: Matrix = self.inv_mass_matrix();
        let jm: Matrix = self.j_matrix();
        let jt: Matrix = jm.transpose();
        let km: Matrix = jm.mul(&w).mul(&jt);
        let l: Matrix = match cholesky_factor(&km) {
            Option::None => {
                return Err(SolveError::SingularSystem);
            },
            Option::Some(l) => l,
        };
        let ghost pre = *self;
        self.integrate_gravity();
        proof {
            lemma_well_posed_stable(pre, *self);
            lemma_jerk_posed_stable(pre, *self);
        }
        let q_dot: Vec<Fix> = self.q_dot_vector();
        let jdq: Vec<Fix> = self.j_dot_q_dot();
        let ghost kicked = *self;
        let jerk: Vec<Fix> = self.compute_ddot_q_dot_plus_j_dot_q_ddot();
        let half: Fix = Fix::from_ratio(1, 2);
        let sixth_dt_sq: Fix = Fix::from_ratio(1, 6).mul(self.time_step).mul(self.time_step);
        let jq4: Vec<Fix> = jm.mul_vec(&q_dot);
        let b: Vec<Fix> = vec_sub(
            &vec_sub(&vec_neg(&jq4), &vec_scale(&vec_scale(&jdq, self.time_step), half)),
            &vec_scale(&jerk, sixth_dt_sq),
        );
        let lambda: Vec<Fix> = solve_factored(&l, &b);
        self.applied_correction = vec_div(&lambda, self.time_step);
        let momentum: Vec<Fix> = jt.mul_vec(&lambda);
        self.apply_momentum_euler(&momentum);
        proof {
            assert(self.bodies@ == v4_bodies(
                old(self).constraints@,
                old(self).bodies@,
                old(self).gravity,
                old(self).time_step@,
            ));
        }
        let ghost moved = *self;
        proof {
            lemma_in_range_stable(kicked, moved);
        }
        let c: Vec<Fix> = self.c_vector();
        self.violation_mean = Self::violation_mean_of(&c);
        proof {
            assert(c@ =~= spec_c_seq(*self));
        }
        proof {
            lemma_ready_restore(*old(self), *self);
        }
        Ok(())
    }

    /// Position-based correction: predict by Verlet, solve K·λ = −C,
    /// patch the positions directly and derive velocities afterwards.
    pub fn pdb(&mut self) -> (r: Result<(), SolveError>)
        requires
            old(self).ready(),
            spec_mul(old(self).time_step@, old(self).time_step@) != 0,
        ensures
            solve_frame(*old(self), *final(self)),
            final(self).ready(),
            r is Ok ==> final(self).applied_correction@.len() == old(self).m(),
            r is Ok ==> final(self).violation_mean@ == spec_violation_mean(
                spec_c_seq(*final(self)),
            ),
            r != Result::<(), SolveError>::Err(SolveError::NonConvergent),
            r == Result::<(), SolveError>::Err(SolveError::DegenerateConstraint) <==> !wp_of(
                old(self).constraints@,
                pbd_predicted(old(self).bodies@, old(self).gravity, old(self).time_step@),
            ),
            r == Result::<(), SolveError>::Err(SolveError::SingularSystem) <==> wp_of(
                old(self).constraints@,
                pbd_predicted(old(self).bodies@, old(self).gravity, old(self).time_step@),
            ) && !chol_ok(
                k_of(
                    old(self).constraints@,
                    pbd_predicted(old(self).bodies@, old(self).gravity, old(self).time_step@),
                ),
            ),
            r is Ok ==> final(self).bodies@ == pb_bodies(
                old(self).constraints@,
                old(self).bodies@,
                old(self).gravity,
                old(self).time_step@,
            ) && final(self).applied_correction@ == seq_div(
                pb_lambda(
                    old(self).constraints@,
                    old(self).bodies@,
                    old(self).gravity,
                    old(self).time_step@,
                ),
                spec_mul(old(self).time_step@, old(self).time_step@),
            ),
    {
        self.pbd_predict();
        if !self.check_well_posed() {
            proof {
                lemma_ready_restore(*old(self), *self);
            }
            return Err(SolveError::DegenerateConstraint);
        }
        let w: Matrix = self.inv_mass_matrix();
        let jm: Matrix = self.j_matrix();
        let jt: Matrix = jm.transpose();
        let km: Matrix = jm.mul(&w).mul(&jt);
        let l: Matrix = match cholesky_factor(&km) {
            Option::None => {
                proof {
                    lemma_ready_restore(*old(self), *self);
                }
                return Err(SolveError::SingularSystem);
            },
            Option::Some(l) => l,
        };
        let c: Vec<Fix> = self.c_vector();
        let b: Vec<Fix> = vec_neg(&c);
        let lambda: Vec<Fix> = solve_factored(&l, &b);
        let dt_sq: Fix = self.time_step.mul(self.time_step);
        // Positional convention: dividing by the squared step recovers
        // a force.
        self.applied_correction = vec_div(&lambda, dt_sq);
        let integrated_momentum: Vec<Fix> = jt.mul_vec(&lambda);
        self.apply_pbd_correct(&integrated_momentum);
        proof {
            assert(self.bodies@ == pb_bodies(
                old(self).constraints@,
                old(self).bodies@,
                old(self).gravity,
                old(self).time_step@,
            ));
        }
        proof {
            lemma_ready_restore(*old(self), *self);
        }
        let c_after: Vec<Fix> = self.c_vector();
        self.violation_mean = Self::violation_mean_of(&c_after);
        proof {
            assert(c_after@ =~= spec_c_seq(*self));
        }
        Ok(())
    }

    /// Two-stage refinement: the half-step velocity correction, then a
    /// position-based patch on the result.
    pub fn hybrid_v3_pbd(&mut self) -> (r: Result<(), SolveError>)
        requires
            old(self).ready(),
            spec_mul(old(self).time_step@, old(self).time_step@) != 0,
        ensures
            solve_frame(*old(self), *final(self)),
            final(self).ready(),
            r is Ok ==> final(self).applied_correction@.len() == old(self).m(),
            r is Ok ==> final(self).violation_mean@ == spec_violation_mean(
                spec_c_seq(*final(self)),
            ),
            r == Result::<(), SolveError>::Err(SolveError::DegenerateConstraint) <==> !old(
                self,
            ).all_well_posed() || (old(self).all_well_posed() && chol_ok(
                k_of(old(self).constraints@, old(self).bodies@),
            ) && !wp_of(
                old(self).constraints@,
                v3_bodies(
                    old(self).constraints@,
                    old(self).bodies@,
                    old(self).gravity,
                    old(self).time_step@,
                ),
            )),
            r == Result::<(), SolveError>::Err(SolveError::SingularSystem) <==> old(
                self,
            ).all_well_posed() && (!chol_ok(k_of(old(self).constraints@, old(self).bodies@)) || (
            chol_ok(k_of(old(self).constraints@, old(self).bodies@)) && wp_of(
                old(self).constraints@,
                v3_bodies(
                    old(self).constraints@,
                    old(self).bodies@,
                    old(self).gravity,
                    old(self).time_step@,
                ),
            ) && !chol_ok(
                k_of(
                    old(self).constraints@,
                    v3_bodies(
                        old(self).constraints@,
                        old(self).bodies@,
                        old(self).gravity,
                        old(self).time_step@,
                    ),
                ),
            ))),
            r != Result::<(), SolveError>::Err(SolveError::NonConvergent),
            r is Ok ==> final(self).bodies@ == v3p_bodies(
                old(self).constraints@,
                old(self).bodies@,
                old(self).gravity,
                old(self).time_step@,
            ) && final(self).applied_correction@ == seq_add(
                seq_div(
                    v3_lambda(
                        old(self).constraints@,
                        old(self).bodies@,
                        old(self).gravity,
                        old(self).time_step@,
                    ),
                    old(self).time_step@,
                ),
                seq_div(
                    v3p_lambda2(
                        old(self).constraints@,
                        old(self).bodies@,
                        old(self).gravity,
                        old(self).time_step@,
                    ),
                    spec_mul(old(self).time_step@, old(self).time_step@),
                ),
            ),
    {
        if !self.check_well_posed() {
            return Err(SolveError::DegenerateConstraint);
        }
        let w: Matrix = self.inv_mass_matrix();
        let jm: Matrix = self.j_matrix();
        let jt: Matrix = jm.transpose();
        let km: Matrix = jm.mul(&w).mul(&jt);
        let l: Matrix = match cholesky_factor(&km) {
            Option::None => {
                return Err(SolveError::SingularSystem);
            },
            Option::Some(l) => l,
        };
        let ghost pre = *self;
        self.integrate_gravity();
        proof {
            lemma_well_posed_stable(pre, *self);
        }
        let q_dot: Vec<Fix> = self.q_dot_vector();
        let jdq: Vec<Fix> = self.j_dot_q_dot();
        let c: Vec<Fix> = self.c_vector();
        let half: Fix = Fix::from_ratio(1, 2);
        let b: Vec<Fix> = vec_sub(
            &vec_neg(&jm.mul_vec(&q_dot)),
            &vec_scale(&vec_scale(&jdq, self.time_step), half),
        );
        let lambda: Vec<Fix> = solve_factored(&l, &b);
        self.applied_correction = vec_div(&lambda, self.time_step);
        let momentum: Vec<Fix> = jt.mul_vec(&lambda);
        self.apply_momentum_euler(&momentum);
        // Positional patch on the moved state.
        if !self.check_well_posed() {
            proof {
                lemma_ready_restore(*old(self), *self);
            }
            return Err(SolveError::DegenerateConstraint);
        }
        let w2: Matrix = self.inv_mass_matrix();
        let jm2: Matrix = self.j_matrix();
        let jt2: Matrix = jm2.transpose();
        let km2: Matrix = jm2.mul(&w2).mul(&jt2);
        let l2: Matrix = match cholesky_factor(&km2) {
            Option::None => {
                proof {
                    lemma_ready_restore(*old(self), *self);
                }
                return Err(SolveError::SingularSystem);
            },
            Option::Some(l2) => l2,
        };
        let c2: Vec<Fix> = self.c_vector();
        let b2: Vec<Fix> = vec_neg(&c2);
        let lambda2: Vec<Fix> = solve_factored(&l2, &b2);
        let dt_sq: Fix = self.time_step.mul(self.time_step);
        let patched: Vec<Fix> = vec_add(&self.applied_correction, &vec_div(&lambda2, dt_sq));
        self.applied_correction = patched;
        let integrated_momentum: Vec<Fix> = jt2.mul_vec(&lambda2);
        self.apply_pos_patch(&integrated_momentum);
        proof {
            assert(self.bodies@ == v3p_bodies(
                old(self).constraints@,
                old(self).bodies@,
                old(self).gravity,
                old(self).time_step@,
            ));
        }
        proof {
            lemma_ready_restore(*old(self), *self);
        }
        let c_after: Vec<Fix> = self.c_vector();
        self.violation_mean = Self::violation_mean_of(&c_after);
        proof {
            assert(c_after@ =~= spec_c_seq(*self));
        }
        Ok(())
    }

    /// One tick: rebuild the solver index if it was discarded, then
    /// dispatch to the selected strategy.
    ///
    /// The steady-state clause covers the strategies that integrate by
    /// explicit Euler or Taylor steps from the velocities alone.  The
    /// remaining strategies' rest behaviour depends on more of the
    /// state — the Verlet and position-based ones on the previous-tick
    /// position and on already-satisfied constraints, the iterative one
    /// on its warm-start multiplier — so for them it follows from the
    /// pinned per-tick functions on those inputs rather than from a
    /// blanket clause.
    pub fn solve(&mut self) -> (r: Result<(), SolveError>)
        requires
            old(self).wf(),
            old(self).index_fresh(),
            old(self).n() * 2 < usize::MAX,
            old(self).m() < 0x8000000000,
            (old(self).solver == Solver::Pbd || old(self).solver == Solver::HybridV3Pbd)
                ==> spec_mul(old(self).time_step@, old(self).time_step@) != 0,
        ensures
            final(self).ready(),
            final(self).n() == old(self).n(),
            final(self).constraints@ == old(self).constraints@,
            final(self).gravity == old(self).gravity,
            final(self).time_step == old(self).time_step,
            final(self).solver == old(self).solver,
            final(self).age == old(self).age,
            final(self).calculation_time_nanos == old(self).calculation_time_nanos,
            forall|i: int|
                0 <= i < old(self).n()
                    ==> (#[trigger] final(self).bodies@[i]).mass == old(self).bodies@[i].mass
                        && final(self).bodies@[i].inv_mass == old(self).bodies@[i].inv_mass,
            old(self).at_rest() && r is Ok && (old(self).solver == Solver::FirstOrder || old(
                self,
            ).solver == Solver::SecondOrder || old(self).solver == Solver::FirstOrderWithPrepass
                || old(self).solver == Solver::HybridV3) ==> GameContent::holds_station(
                *old(self),
                *final(self),
            ) && final(self).at_rest(),
            r is Ok && !(old(self).solver == Solver::HybridV4 || old(self).solver == Solver::Pbd
                || old(self).solver == Solver::HybridV3Pbd) ==> final(self).violation_mean@
                == spec_violation_mean(spec_c_seq(*old(self))),
            r is Ok && (old(self).solver == Solver::HybridV4 || old(self).solver == Solver::Pbd
                || old(self).solver == Solver::HybridV3Pbd) ==> final(self).violation_mean@
                == spec_violation_mean(spec_c_seq(*final(self))),
            r is Ok <==> strategy_ok(
                old(self).solver,
                old(self).constraints@,
                fresh_bodies(*old(self)),
                old(self).gravity,
                old(self).time_step@,
                fresh_applied(*old(self)),
            ),
            r == Result::<(), SolveError>::Err(SolveError::DegenerateConstraint)
                <==> strategy_degenerate(
                old(self).solver,
                old(self).constraints@,
                fresh_bodies(*old(self)),
                old(self).gravity,
                old(self).time_step@,
            ),
            r == Result::<(), SolveError>::Err(SolveError::SingularSystem)
                <==> strategy_singular(
                old(self).solver,
                old(self).constraints@,
                fresh_bodies(*old(self)),
                old(self).gravity,
                old(self).time_step@,
            ),
            r == Result::<(), SolveError>::Err(SolveError::NonConvergent)
                <==> strategy_nonconvergent(
                old(self).solver,
                old(self).constraints@,
                fresh_bodies(*old(self)),
                old(self).gravity,
                old(self).time_step@,
                fresh_applied(*old(self)),
            ),
            r is Ok ==> final(self).bodies@ == strategy_bodies(
                old(self).solver,
                old(self).constraints@,
                fresh_bodies(*old(self)),
                old(self).gravity,
                old(self).time_step@,
                fresh_applied(*old(self)),
            ) && final(self).applied_correction@ == strategy_applied(
                old(self).solver,
                old(self).constraints@,
                fresh_bodies(*old(self)),
                old(self).gravity,
                old(self).time_step@,
                fresh_applied(*old(self)),
            ),
    {
        if self.physic_index_to_entity.len() == 0 {
            self.update_solver_index();
            proof {
                assert forall|i: int| 0 <= i < self.n() implies (#[trigger] self.bodies@[i]).wf()
                    by {
                    assert(old(self).bodies@[i].wf());
                }
                lemma_c_positions_only(*old(self), *self);
                if old(self).all_well_posed() {
                    lemma_well_posed_stable(*old(self), *self);
                }
                if self.all_well_posed() {
                    lemma_well_posed_stable(*self, *old(self));
                }
                assert(self.bodies@ =~= fresh_bodies(*old(self)));
                assert(self.applied_correction@ =~= fresh_applied(*old(self)));
            }
        }
        proof {
            assert(self.bodies@ == fresh_bodies(*old(self)));
            assert(self.applied_correction@ == fresh_applied(*old(self)));
        }
        let r: Result<(), SolveError> = match self.solver {
            Solver::FirstOrder => self.solve_1st_order(),
            Solver::SecondOrder => self.solve_2nd_order(),
            Solver::FirstOrderWithPrepass => self.solve_with_prepass(),
            Solver::HybridV2 => self.hybrid_v2(),
            Solver::HybridV3 => self.hybrid_v3(),
            Solver::HybridV3cgm => self.hydrid_v3_cgm(),
            Solver::HybridV4 => self.hybrid_v4(),
            Solver::Pbd => self.pdb(),
            Solver::HybridV3Pbd => self.hybrid_v3_pbd(),
        };
        proof {
            lemma_solve_error_cases(r);
        }
        r
    }
}

/// A failed tick reports one of the three failure kinds; there is no
/// fourth.
proof fn lemma_solve_error_cases(r: Result<(), SolveError>)
    ensures
        r is Ok || r == Result::<(), SolveError>::Err(SolveError::DegenerateConstraint) || r
            == Result::<(), SolveError>::Err(SolveError::SingularSystem) || r == Result::<
            (),
            SolveError,
        >::Err(SolveError::NonConvergent),
{
    match r {
        Result::Ok(_) => {},
        Result::Err(e) => {
            match e {
                SolveError::SingularSystem => {},
                SolveError::NonConvergent => {},
                SolveError::DegenerateConstraint => {},
            }
        },
    }
}

} // verus!
