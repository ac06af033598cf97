//! Tests of the worker-tick decision logic, the snapshot exporter and
//! the cadence bookkeeping.

use the_game::fixed::Fix;
use the_game::vec2::Vec2;
use the_game::constraints::ConstraintWidget;
use the_game::session::{Command, GameContext, GameLoop, InputEvent, SimulationContent, TickResult};
use the_game::world::{GameContent, Solver};

fn fresh() -> GameContent {
    GameContent::empty(Fix::from_ratio(1, 64))
}

#[test]
fn latest_command_wins() {
    let mut w = fresh();
    w.double();
    let commands = vec![
        Command { simulation: SimulationContent::Rope, solver: Solver::FirstOrder },
        Command { simulation: SimulationContent::Pulley, solver: Solver::SecondOrder },
    ];
    let snap = w.run_tick(&commands).unwrap();
    assert_eq!(w.solver, Solver::SecondOrder);
    assert_eq!(w.bodies.len(), 2);
    assert_eq!(w.constraints.len(), 1);
    assert_eq!(w.age, 1);
    assert_eq!(snap.date, 0);
}

#[test]
fn tick_without_command_continues() {
    let mut w = fresh();
    w.triple();
    let none: Vec<Command> = Vec::new();
    let first = w.run_tick(&none).unwrap();
    let second = w.run_tick(&none).unwrap();
    assert_eq!(first.date, 0);
    assert_eq!(second.date, 1);
    assert_eq!(w.solver, Solver::HybridV3);
}

#[test]
fn snapshot_contents() {
    let mut w = fresh();
    w.double();
    w.solve().unwrap();
    w.note_calculation_time(12345);
    let s = w.take_snapshot();
    assert_eq!(s.pos.len(), 2);
    assert_eq!(s.links.len(), 2);
    assert!(matches!(s.links[0].0, ConstraintWidget::Link(0, 1)));
    assert!(matches!(s.links[1].0, ConstraintWidget::Anchor(0, _)));
    assert_eq!(s.calculation_time_nanos, 12345);
    assert!(s.elastic_energy.is_none());
    // At rest at build, all kinetic energy comes from the first kick.
    assert!(s.kinetic_energy.raw >= 0);
}

#[test]
fn snapshot_energies_at_build() {
    let mut w = fresh();
    w.simple();
    w.update_solver_index();
    let s = w.take_snapshot();
    // One unit mass at speed 12: kinetic energy 72.
    assert_eq!(s.kinetic_energy.raw, 4718592);
    // The body sits on the x axis: zero potential.
    assert_eq!(s.potential_energy.raw, 0);
    assert_eq!(s.date, 0);
    assert_eq!(w.age, 1);
}

#[test]
fn game_loop_exit_detection() {
    let mut gl = GameLoop::new();
    let quiet = vec![InputEvent::Touch(Vec2::zero()), InputEvent::Touch(Vec2::zero())];
    assert_eq!(gl.tick(&quiet), TickResult::Draw);
    let leaving = vec![InputEvent::Touch(Vec2::zero()), InputEvent::ExitRequested];
    assert_eq!(gl.tick(&leaving), TickResult::Exit);
    let empty: Vec<InputEvent> = Vec::new();
    assert_eq!(gl.tick(&empty), TickResult::Draw);
}

#[test]
fn cadence_scheduling() {
    let mut ctx = GameContext::new_empty(1_000_000);
    ctx.start(5_000_000);
    assert_eq!(ctx.schedule_next(), 6_000_000);
    assert_eq!(ctx.schedule_next(), 7_000_000);
    assert_eq!(ctx.tick_count, 2);
    // The deadline saturates instead of wrapping.
    ctx.start(u64::MAX - 1);
    assert_eq!(ctx.schedule_next(), u64::MAX);
}

#[test]
fn catalogue_menus() {
    assert_eq!(SimulationContent::list().len(), 10);
    assert_eq!(Solver::list().len(), 9);
}
