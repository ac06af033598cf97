//! The per-tick decision logic of the solver worker, kept apart from
//! the thread and channel plumbing that drives it.
//!
//! The worker drains its command channel without blocking, applies at
//! most the latest (scenario, strategy) selection, runs one solve and
//! exports one snapshot.  [`run_tick`] is that decision as a pure
//! function of the state and the drained commands; the caller owns the
//! channels, the timing and the thread.

use vstd::prelude::*;
use crate::fixed::{Fix, spec_mul};
use crate::vec2::Vec2;
use crate::body::{Body, BodyId};
use crate::constraints::{
    AnchorConstraint, Constraint, DistanceConstraint, PlaneConstraint, PulleyConstraint,
};
use crate::world::{GameContent, SolveError, Solver, fix, ratio, spec_spawn, v2};
use crate::scenarios::{
    bridge_body, bridge_ids, is_bridge, is_double, is_pulley, is_pulley_and_rail, is_rail,
    is_rope, is_simple, is_structure, is_triple, rope_body, round_gravity, standard_gravity,
    strip_pairs, structure_edge,
};
use crate::snapshot::{WorldSnapshot, ke_fold, pe_fold, spec_widget_at};
use crate::solvers::{
    fresh_applied, fresh_bodies, retagged, strategy_applied, strategy_bodies, strategy_ok,
    zero_fixes,
};

verus! {

/// The scenario catalogue, as selectable from outside.
#[derive(Clone, Copy, PartialEq, Eq, Structural, Debug)]
pub enum SimulationContent {
    Simple,
    Double,
    Triple,
    Rope,
    Rail,
    Structure,
    Pulley,
    PulleyAndRail,
    Bridge,
    BridgeSoft,
}

impl SimulationContent {
    /// Every scenario, in menu order.
    pub fn list() -> (r: Vec<SimulationContent>)
        ensures
            r@ =~= seq![
                SimulationContent::Simple,
                SimulationContent::Double,
                SimulationContent::Triple,
                SimulationContent::Rope,
                SimulationContent::Rail,
                SimulationContent::Structure,
                SimulationContent::Pulley,
                SimulationContent::PulleyAndRail,
                SimulationContent::Bridge,
                SimulationContent::BridgeSoft,
            ],
    {
        let mut v: Vec<SimulationContent> = Vec::new();
        v.push(SimulationContent::Simple);
        v.push(SimulationContent::Double);
        v.push(SimulationContent::Triple);
        v.push(SimulationContent::Rope);
        v.push(SimulationContent::Rail);
        v.push(SimulationContent::Structure);
        v.push(SimulationContent::Pulley);
        v.push(SimulationContent::PulleyAndRail);
        v.push(SimulationContent::Bridge);
        v.push(SimulationContent::BridgeSoft);
        v
    }
}

/// What a freshly built scenario's population satisfies.
pub open spec fn scenario_built(s: GameContent, sc: SimulationContent) -> bool {
    match sc {
        SimulationContent::Simple => is_simple(s),
        SimulationContent::Double => is_double(s),
        SimulationContent::Triple => is_triple(s),
        SimulationContent::Rope => is_rope(s),
        SimulationContent::Rail => is_rail(s),
        SimulationContent::Structure => is_structure(s),
        SimulationContent::Pulley => is_pulley(s),
        SimulationContent::PulleyAndRail => is_pulley_and_rail(s),
        SimulationContent::Bridge => is_bridge(s),
        SimulationContent::BridgeSoft => is_bridge(s),
    }
}

/// The thirteen bodies of the bridge scenario, deck then load, as a
/// function of the time step alone.
pub open spec fn bridge_population(ts: Fix) -> Seq<Body> {
    Seq::new(
        13,
        |i: int|
            if i < 12 {
                bridge_body(i, ts)
            } else {
                spec_spawn(v2(0, 65536), v2(ratio(1, 100)@, 0), fix(655360), ts)
            },
    )
}

/// The bodies a scenario builds, in insertion order, as a function of
/// the configured time step alone.
pub open spec fn scenario_bodies(sc: SimulationContent, ts: Fix) -> Seq<Body> {
    match sc {
        SimulationContent::Simple => seq![
            spec_spawn(v2(65536, 0), v2(0, 786432), fix(65536), ts),
        ],
        SimulationContent::Double => seq![
            spec_spawn(v2(65536, 0), v2(0, 0), fix(65536), ts),
            spec_spawn(v2(65536, 65536), v2(0, 0), fix(65536), ts),
        ],
        SimulationContent::Triple => seq![
            spec_spawn(v2(65536, 0), v2(0, 0), fix(65536), ts),
            spec_spawn(v2(65536, 65536), v2(0, 0), fix(65536), ts),
            spec_spawn(v2(131072, 65536), v2(0, 0), fix(65536), ts),
        ],
        SimulationContent::Rope => Seq::new(20, |i: int| rope_body(i, ts)),
        SimulationContent::Rail => seq![
            spec_spawn(v2(-65536, 65536), v2(-65536, 65536), fix(65536), ts),
            spec_spawn(v2(65536, 65536), v2(0, 0), fix(65536), ts),
            spec_spawn(v2(0, 65536), v2(0, 0), fix(65536), ts),
        ],
        SimulationContent::Structure => seq![
            spec_spawn(v2(65536, 0), v2(0, 0), fix(65536), ts),
            spec_spawn(v2(ratio(5, 4)@, ratio(1, 4)@), v2(0, 0), fix(65536), ts),
            spec_spawn(v2(ratio(3, 2)@, 0), v2(0, 0), fix(65536), ts),
            spec_spawn(v2(ratio(5, 4)@, ratio(-1, 4)@), v2(0, 0), fix(65536), ts),
        ],
        SimulationContent::Pulley => seq![
            spec_spawn(v2(-65536, 0), v2(327680, 0), fix(65536), ts),
            spec_spawn(v2(65536, 0), v2(-65536, 0), fix(65536), ts),
        ],
        SimulationContent::PulleyAndRail => seq![
            spec_spawn(v2(-327680, 0), v2(0, 0), fix(65536), ts),
            spec_spawn(v2(65536, 0), v2(327680, 0), fix(131072), ts),
        ],
        SimulationContent::Bridge => bridge_population(ts),
        SimulationContent::BridgeSoft => bridge_population(ts),
    }
}

/// The gravity a scenario configures.
pub open spec fn scenario_gravity(sc: SimulationContent) -> Vec2 {
    match sc {
        SimulationContent::PulleyAndRail => round_gravity(),
        SimulationContent::Bridge => round_gravity(),
        SimulationContent::BridgeSoft => round_gravity(),
        _ => standard_gravity(),
    }
}

/// The constraint set a scenario builds, as a function of the
/// configured time step alone.
pub open spec fn scenario_constraints(sc: SimulationContent, ts: Fix) -> Seq<Constraint>
    decreases (if sc is BridgeSoft { 1int } else { 0int }),
{
    match sc {
        SimulationContent::Simple => seq![
            Constraint::Anchor(
                AnchorConstraint { body: BodyId(0), anchor: v2(0, 0), distance: fix(65536) },
            ),
        ],
        SimulationContent::Double => seq![
            Constraint::Distance(
                DistanceConstraint { body_a: BodyId(0), body_b: BodyId(1), distance: fix(65536) },
            ),
            Constraint::Anchor(
                AnchorConstraint { body: BodyId(0), anchor: v2(0, 0), distance: fix(65536) },
            ),
        ],
        SimulationContent::Triple => seq![
            Constraint::Distance(
                DistanceConstraint { body_a: BodyId(0), body_b: BodyId(1), distance: fix(65536) },
            ),
            Constraint::Distance(
                DistanceConstraint { body_a: BodyId(1), body_b: BodyId(2), distance: fix(65536) },
            ),
            Constraint::Anchor(
                AnchorConstraint { body: BodyId(0), anchor: v2(0, 0), distance: fix(65536) },
            ),
        ],
        SimulationContent::Rope => Seq::new(
            20,
            |k: int|
                if k < 19 {
                    Constraint::Distance(
                        DistanceConstraint {
                            body_a: BodyId(k as usize),
                            body_b: BodyId((k + 1) as usize),
                            distance: ratio(1, 4),
                        },
                    )
                } else {
                    Constraint::Anchor(
                        AnchorConstraint { body: BodyId(19), anchor: v2(0, 0), distance: ratio(1, 4) },
                    )
                },
        ),
        SimulationContent::Rail => seq![
            Constraint::Distance(
                DistanceConstraint { body_a: BodyId(0), body_b: BodyId(1), distance: fix(131072) },
            ),
            Constraint::Plane(
                PlaneConstraint::spec_new(BodyId(0), v2(65536, 65536), v2(-65536, 65536)),
            ),
            Constraint::Plane(
                PlaneConstraint::spec_new(BodyId(1), v2(-65536, 65536), v2(65536, 65536)),
            ),
            Constraint::Distance(
                DistanceConstraint { body_a: BodyId(0), body_b: BodyId(2), distance: fix(65536) },
            ),
        ],
        SimulationContent::Structure => seq![
            Constraint::Anchor(
                AnchorConstraint {
                    body: BodyId(1),
                    anchor: v2(0, ratio(1, 2)@),
                    distance: structure_edge(),
                },
            ),
            Constraint::Distance(
                DistanceConstraint {
                    body_a: BodyId(0),
                    body_b: BodyId(1),
                    distance: structure_edge(),
                },
            ),
            Constraint::Distance(
                DistanceConstraint {
                    body_a: BodyId(1),
                    body_b: BodyId(2),
                    distance: structure_edge(),
                },
            ),
            Constraint::Distance(
                DistanceConstraint {
                    body_a: BodyId(2),
                    body_b: BodyId(3),
                    distance: structure_edge(),
                },
            ),
            Constraint::Distance(
                DistanceConstraint {
                    body_a: BodyId(3),
                    body_b: BodyId(0),
                    distance: structure_edge(),
                },
            ),
            Constraint::Distance(
                DistanceConstraint { body_a: BodyId(0), body_b: BodyId(2), distance: fix(65536) },
            ),
        ],
        SimulationContent::Pulley => seq![
            Constraint::Pulley(
                PulleyConstraint {
                    body_a: BodyId(0),
                    body_b: BodyId(1),
                    anchor_a: v2(-65536, 65536),
                    anchor_b: v2(65536, 65536),
                    distance: fix(131072),
                },
            ),
        ],
        SimulationContent::PulleyAndRail => seq![
            Constraint::Plane(PlaneConstraint::spec_new(BodyId(0), v2(0, 65536), v2(0, 0))),
            Constraint::Pulley(
                PulleyConstraint {
                    body_a: BodyId(0),
                    body_b: BodyId(1),
                    anchor_a: v2(-65536, 196608),
                    anchor_b: v2(65536, 65536),
                    distance: fix(393216),
                },
            ),
        ],
        SimulationContent::Bridge => seq![
            Constraint::Distance(
                DistanceConstraint { body_a: BodyId(5), body_b: BodyId(12), distance: fix(65536) },
            ),
        ] + strip_pairs(bridge_population(ts), bridge_ids(), 12) + seq![
            Constraint::Anchor(
                AnchorConstraint {
                    body: BodyId(0),
                    anchor: v2(crate::fixed::spec_neg(ratio(3, 2)@), 65536),
                    distance: fix(65536),
                },
            ),
            Constraint::Anchor(
                AnchorConstraint {
                    body: BodyId(11),
                    anchor: v2(ratio(3, 2)@, 65536),
                    distance: fix(65536),
                },
            ),
        ],
        SimulationContent::BridgeSoft => scenario_constraints(SimulationContent::Bridge, ts),
    }
}

/// A freshly built scenario's population is exactly the closed-form
/// catalogue entry for its time step: bodies, constraints and gravity
/// alike.
pub proof fn lemma_built_constraints(s: GameContent, sc: SimulationContent)
    requires
        scenario_built(s, sc),
    ensures
        s.constraints@ == scenario_constraints(sc, s.time_step),
        s.bodies@ == scenario_bodies(sc, s.time_step),
        s.gravity == scenario_gravity(sc),
{
    match sc {
        SimulationContent::Rope => {
            assert(s.bodies@ =~= scenario_bodies(sc, s.time_step));
            assert(s.constraints@ =~= scenario_constraints(sc, s.time_step));
        },
        SimulationContent::Bridge => {
            assert(s.bodies@ =~= bridge_population(s.time_step));
            assert(s.constraints@ =~= scenario_constraints(sc, s.time_step));
        },
        SimulationContent::BridgeSoft => {
            assert(s.bodies@ =~= bridge_population(s.time_step));
            assert(scenario_constraints(sc, s.time_step) == scenario_constraints(
                SimulationContent::Bridge,
                s.time_step,
            ));
            assert(s.constraints@ =~= scenario_constraints(
                SimulationContent::Bridge,
                s.time_step,
            ));
        },
        _ => {
            assert(s.bodies@ =~= scenario_bodies(sc, s.time_step));
            assert(s.constraints@ =~= scenario_constraints(sc, s.time_step));
        },
    }
}

/// One selection from the outside: a scenario and a strategy.
#[derive(Clone, Copy, PartialEq, Eq, Structural, Debug)]
pub struct Command {
    pub simulation: SimulationContent,
    pub solver: Solver,
}

impl GameContent {
    /// Clears the state and builds the named scenario.
    pub fn build_scenario(&mut self, sc: SimulationContent)
        requires
            old(self).time_step@ > 0,
        ensures
            final(self).wf(),
            scenario_built(*final(self), sc),
            final(self).age == 0,
            final(self).physic_index_to_entity@.len() == 0,
            final(self).time_step == old(self).time_step,
            final(self).solver == old(self).solver,
    {
        match sc {
            SimulationContent::Simple => self.simple(),
            SimulationContent::Double => self.double(),
            SimulationContent::Triple => self.triple(),
            SimulationContent::Rope => self.rope(),
            SimulationContent::Rail => self.rail(),
            SimulationContent::Structure => self.structure(),
            SimulationContent::Pulley => self.pulley(),
            SimulationContent::PulleyAndRail => self.pulley_and_rail(),
            SimulationContent::Bridge => self.bridge(),
            SimulationContent::BridgeSoft => self.bridge_soft(),
        }
    }

    /// One worker tick: applies at most the latest drained command
    /// (later arrivals supersede earlier ones), solves once, and
    /// exports one snapshot.  A solve failure is fatal for the tick and
    /// surfaces unretried.
    pub fn run_tick(&mut self, commands: &Vec<Command>) -> (r: Result<
        WorldSnapshot,
        SolveError,
    >)
        requires
            old(self).wf(),
            old(self).index_fresh(),
            old(self).n() * 2 < usize::MAX,
            old(self).m() < 0x8000000000,
            old(self).age < u32::MAX,
            spec_mul(old(self).time_step@, old(self).time_step@) != 0,
        ensures
            final(self).time_step == old(self).time_step,
            final(self).ready(),
            commands@.len() > 0 ==> final(self).solver == commands@[commands@.len() - 1].solver
                && final(self).constraints@ == scenario_constraints(
                commands@[commands@.len() - 1].simulation,
                old(self).time_step,
            ),
            commands@.len() == 0 ==> final(self).solver == old(self).solver
                && final(self).constraints@ == old(self).constraints@,
            r is Ok && commands@.len() > 0 ==> final(self).age == 1 && r->Ok_0.date == 0,
            r is Ok && commands@.len() == 0 ==> final(self).age == old(self).age + 1
                && r->Ok_0.date == old(self).age,
            commands@.len() == 0 ==> (r is Ok <==> strategy_ok(
                old(self).solver,
                old(self).constraints@,
                fresh_bodies(*old(self)),
                old(self).gravity,
                old(self).time_step@,
                fresh_applied(*old(self)),
            )) && (r is Ok ==> final(self).bodies@ == strategy_bodies(
                old(self).solver,
                old(self).constraints@,
                fresh_bodies(*old(self)),
                old(self).gravity,
                old(self).time_step@,
                fresh_applied(*old(self)),
            ) && final(self).applied_correction@ == strategy_applied(
                old(self).solver,
                old(self).constraints@,
                fresh_bodies(*old(self)),
                old(self).gravity,
                old(self).time_step@,
                fresh_applied(*old(self)),
            )),
            commands@.len() > 0 ==> (r is Ok <==> strategy_ok(
                commands@[commands@.len() - 1].solver,
                scenario_constraints(commands@[commands@.len() - 1].simulation, old(self).time_step),
                retagged(
                    scenario_bodies(commands@[commands@.len() - 1].simulation, old(self).time_step),
                ),
                scenario_gravity(commands@[commands@.len() - 1].simulation),
                old(self).time_step@,
                zero_fixes(
                    scenario_constraints(
                        commands@[commands@.len() - 1].simulation,
                        old(self).time_step,
                    ).len(),
                ),
            )) && (r is Ok ==> final(self).bodies@ == strategy_bodies(
                commands@[commands@.len() - 1].solver,
                scenario_constraints(commands@[commands@.len() - 1].simulation, old(self).time_step),
                retagged(
                    scenario_bodies(commands@[commands@.len() - 1].simulation, old(self).time_step),
                ),
                scenario_gravity(commands@[commands@.len() - 1].simulation),
                old(self).time_step@,
                zero_fixes(
                    scenario_constraints(
                        commands@[commands@.len() - 1].simulation,
                        old(self).time_step,
                    ).len(),
                ),
            ) && final(self).applied_correction@ == strategy_applied(
                commands@[commands@.len() - 1].solver,
                scenario_constraints(commands@[commands@.len() - 1].simulation, old(self).time_step),
                retagged(
                    scenario_bodies(commands@[commands@.len() - 1].simulation, old(self).time_step),
                ),
                scenario_gravity(commands@[commands@.len() - 1].simulation),
                old(self).time_step@,
                zero_fixes(
                    scenario_constraints(
                        commands@[commands@.len() - 1].simulation,
                        old(self).time_step,
                    ).len(),
                ),
            )),
            r is Ok ==> (r->Ok_0).pos@.len() == final(self).n() && (forall|i: int|
                0 <= i < final(self).n() ==> (#[trigger] (r->Ok_0).pos@[i])
                    == final(self).bodies@[i].pos) && (r->Ok_0).kinetic_energy@ == ke_fold(
                final(self).bodies@,
                final(self).n(),
            ) && (r->Ok_0).potential_energy@ == pe_fold(
                final(self).bodies@,
                final(self).gravity,
                final(self).n(),
            ) && (r->Ok_0).violation_mean == final(self).violation_mean && (r->Ok_0).links@.len()
                == final(self).m() && (forall|k: int|
                0 <= k < final(self).m() ==> (#[trigger] (r->Ok_0).links@[k]).0 == spec_widget_at(
                    final(self).constraints@[k],
                    final(self).bodies@,
                ) && (r->Ok_0).links@[k].1 == final(self).applied_correction@[k]),
    {
        if commands.len() > 0 {
            let cmd: Command = commands[commands.len() - 1];
            self.solver = cmd.solver;
            self.build_scenario(cmd.simulation);
            proof {
                scenario_small(*self, cmd.simulation);
                lemma_built_constraints(*self, cmd.simulation);
                assert(fresh_bodies(*self) == retagged(
                    scenario_bodies(cmd.simulation, old(self).time_step),
                ));
                assert(fresh_applied(*self) == zero_fixes(
                    scenario_constraints(cmd.simulation, old(self).time_step).len(),
                ));
            }
        }
        match self.solve() {
            Result::Err(e) => Err(e),
            Result::Ok(()) => Ok(self.take_snapshot()),
        }
    }
}

/// Every catalogued scenario is far smaller than the dense-layout
/// machine limits.
proof fn scenario_small(s: GameContent, sc: SimulationContent)
    requires
        scenario_built(s, sc),
    ensures
        s.n() * 2 < usize::MAX,
        s.m() < 0x8000000000,
{
    match sc {
        SimulationContent::Bridge => {
            crate::scenarios::lemma_strip_len(s.bodies@, crate::scenarios::bridge_ids(), 12);
        },
        SimulationContent::BridgeSoft => {
            crate::scenarios::lemma_strip_len(s.bodies@, crate::scenarios::bridge_ids(), 12);
        },
        _ => {},
    }
}

/// Switching scenarios is a full reset: a freshly built scenario's
/// population and tick counter are functions of the configured time
/// step alone, so nothing of any prior run survives the switch.  Two
/// states built for the same scenario from the same time step hold
/// identical bodies and constraints, a zero tick counter and a
/// discarded solver index.
pub proof fn lemma_scenario_reset(a: GameContent, b: GameContent, sc: SimulationContent)
    requires
        scenario_built(a, sc),
        scenario_built(b, sc),
        a.time_step == b.time_step,
    ensures
        a.bodies@ == b.bodies@,
        a.constraints@ == b.constraints@,
        a.gravity == b.gravity,
        a.age == 0 && b.age == 0,
        a.physic_index_to_entity@.len() == 0 && b.physic_index_to_entity@.len() == 0,
{
    match sc {
        SimulationContent::Rope => {
            assert(a.bodies@ =~= b.bodies@);
            assert(a.constraints@ =~= b.constraints@);
        },
        SimulationContent::Bridge => {
            assert(a.bodies@ =~= b.bodies@);
            assert(a.constraints@ =~= b.constraints@);
        },
        SimulationContent::BridgeSoft => {
            assert(a.bodies@ =~= b.bodies@);
            assert(a.constraints@ =~= b.constraints@);
        },
        _ => {
            assert(a.bodies@ =~= b.bodies@);
            assert(a.constraints@ =~= b.constraints@);
        },
    }
}

/// What one worker tick reports upward.
#[derive(Clone, Copy, PartialEq, Eq, Structural, Debug)]
pub enum TickResult {
    /// The tick completed; the frame may be drawn.
    Draw,
    /// Shutdown was requested; the worker should stop.
    Exit,
}

/// An input event forwarded to the logic thread.
#[derive(Clone, Copy, PartialEq, Eq, Structural, Debug)]
pub enum InputEvent {
    /// The window or user asked the worker to stop.
    ExitRequested,
    /// A touch at the given world position; the core logic ignores it.
    Touch(Vec2),
}

/// Whether any drained event asks for shutdown.
pub open spec fn any_exit(events: Seq<InputEvent>) -> bool {
    exists|i: int| 0 <= i < events.len() && events[i] is ExitRequested
}

/// The top of the logic thread: folds the drained input events into a
/// tick verdict.
pub struct GameLoop {}

impl GameLoop {
    /// A fresh loop.
    pub fn new() -> (r: GameLoop) {
        GameLoop {  }
    }

    /// One logic tick: exit if any drained event requested it,
    /// otherwise draw.
    pub fn tick(&mut self, events: &Vec<InputEvent>) -> (r: TickResult)
        ensures
            r == TickResult::Exit <==> any_exit(events@),
    {
        let n: usize = events.len();
        let mut i: usize = 0;
        while i < n
            invariant
                n == events@.len(),
                i <= n,
                !any_exit(events@.take(i as int)),
            decreases n - i,
        {
            match events[i] {
                InputEvent::ExitRequested => {
                    proof {
                        assert(events@[i as int] is ExitRequested);
                    }
                    return TickResult::Exit;
                },
                InputEvent::Touch(_) => {},
            }
            proof {
                assert(events@.take(i as int + 1) =~= events@.take(i as int).push(
                    events@[i as int],
                ));
            }
            i = i + 1;
        }
        proof {
            assert(events@.take(n as int) =~= events@);
        }
        TickResult::Draw
    }
}

/// Tick-cadence bookkeeping of the worker thread: the deadline of the
/// next tick and the running tick count.  The caller supplies clock
/// readings and performs the waiting; both counters saturate rather
/// than wrap.
pub struct GameContext {
    /// Deadline of the next tick, in nanoseconds of the caller's clock.
    pub next_tick_nanos: u64,
    /// Configured interval between ticks, in nanoseconds.
    pub tick_length_nanos: u64,
    /// Ticks scheduled so far.
    pub tick_count: u64,
}

impl GameContext {
    /// A context that has not started counting yet.
    pub fn new_empty(tick_length_nanos: u64) -> (r: GameContext)
        ensures
            r.next_tick_nanos == 0,
            r.tick_length_nanos == tick_length_nanos,
            r.tick_count == 0,
    {
        GameContext { next_tick_nanos: 0, tick_length_nanos, tick_count: 0 }
    }

    /// Starts the cadence at the given clock reading.
    pub fn start(&mut self, now_nanos: u64)
        ensures
            *final(self) == (GameContext { next_tick_nanos: now_nanos, ..*old(self) }),
    {
        self.next_tick_nanos = now_nanos;
    }

    /// Schedules the next tick: pushes the deadline one interval ahead
    /// and counts the tick.  Returns the new deadline; the caller
    /// sleeps until it.
    pub fn schedule_next(&mut self) -> (deadline: u64)
        ensures
            final(self).tick_length_nanos == old(self).tick_length_nanos,
            final(self).next_tick_nanos == (if old(self).next_tick_nanos + old(
                self,
            ).tick_length_nanos <= u64::MAX {
                old(self).next_tick_nanos + old(self).tick_length_nanos
            } else {
                u64::MAX as int
            }),
            final(self).tick_count == (if old(self).tick_count + 1 <= u64::MAX {
                old(self).tick_count + 1
            } else {
                u64::MAX as int
            }),
            deadline == final(self).next_tick_nanos,
    {
        if self.next_tick_nanos <= u64::MAX - self.tick_length_nanos {
            self.next_tick_nanos = self.next_tick_nanos + self.tick_length_nanos;
        } else {
            self.next_tick_nanos = u64::MAX;
        }
        if self.tick_count < u64::MAX {
            self.tick_count = self.tick_count + 1;
        }
        self.next_tick_nanos
    }
}

} // verus!
