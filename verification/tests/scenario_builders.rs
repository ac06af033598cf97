//! Tests of the scenario catalogue: exact populations and the
//! reset-on-switch behaviour.

use the_game::fixed::Fix;
use the_game::vec2::Vec2;
use the_game::world::GameContent;
use the_game::constraints::Constraint;

fn fresh() -> GameContent {
    GameContent::empty(Fix::from_ratio(1, 64))
}

#[test]
fn catalogue_population_counts() {
    let mut w = fresh();
    let expected: [(&str, usize, usize); 10] = [
        ("simple", 1, 1),
        ("double", 2, 2),
        ("triple", 3, 3),
        ("rope", 20, 20),
        ("rail", 3, 4),
        ("structure", 4, 6),
        ("pulley", 2, 1),
        ("pulley_and_rail", 2, 2),
        ("bridge", 13, 24),
        ("bridge_soft", 13, 24),
    ];
    for &(name, bodies, constraints) in expected.iter() {
        match name {
            "simple" => w.simple(),
            "double" => w.double(),
            "triple" => w.triple(),
            "rope" => w.rope(),
            "rail" => w.rail(),
            "structure" => w.structure(),
            "pulley" => w.pulley(),
            "pulley_and_rail" => w.pulley_and_rail(),
            "bridge" => w.bridge(),
            _ => w.bridge_soft(),
        }
        assert_eq!(w.bodies.len(), bodies, "{name}");
        assert_eq!(w.constraints.len(), constraints, "{name}");
        assert_eq!(w.age, 0, "{name}");
        assert_eq!(w.physic_index_to_entity.len(), 0, "{name}");
    }
}

#[test]
fn double_population_exact() {
    let mut w = fresh();
    w.double();
    assert_eq!(w.gravity.y.raw, -642908);
    assert_eq!(w.gravity.x.raw, 0);
    let b0 = w.bodies[0];
    assert_eq!((b0.pos.x.raw, b0.pos.y.raw), (65536, 0));
    assert_eq!((b0.vel.x.raw, b0.vel.y.raw), (0, 0));
    assert_eq!(b0.mass.raw, 65536);
    assert_eq!(b0.inv_mass.raw, 65536);
    // At rest the previous-tick position coincides with the position.
    assert_eq!((b0.last_tick.x.raw, b0.last_tick.y.raw), (65536, 0));
    let b1 = w.bodies[1];
    assert_eq!((b1.pos.x.raw, b1.pos.y.raw), (65536, 65536));
    match w.constraints[0] {
        Constraint::Distance(d) => {
            assert_eq!(d.body_a.0, 0);
            assert_eq!(d.body_b.0, 1);
            assert_eq!(d.distance.raw, 65536);
        }
        _ => panic!("first constraint of the double scenario is a link"),
    }
    match w.constraints[1] {
        Constraint::Anchor(a) => {
            assert_eq!(a.body.0, 0);
            assert_eq!((a.anchor.x.raw, a.anchor.y.raw), (0, 0));
            assert_eq!(a.distance.raw, 65536);
        }
        _ => panic!("second constraint of the double scenario is an anchor"),
    }
}

#[test]
fn rope_population_exact() {
    let mut w = fresh();
    w.rope();
    for i in 0..20 {
        let b = w.bodies[i];
        assert_eq!(b.pos.x.raw, i as i64 * 16384 - 327680);
        assert_eq!(b.pos.y.raw, 0);
        assert_eq!(b.vel.y.raw, 4 * 65536);
        assert_eq!(b.mass.raw, 6553);
    }
    for k in 0..19 {
        match w.constraints[k] {
            Constraint::Distance(d) => {
                assert_eq!(d.body_a.0, k);
                assert_eq!(d.body_b.0, k + 1);
                assert_eq!(d.distance.raw, 16384);
            }
            _ => panic!("rope links are distance constraints"),
        }
    }
    match w.constraints[19] {
        Constraint::Anchor(a) => assert_eq!(a.body.0, 19),
        _ => panic!("the rope's last body is anchored"),
    }
}

#[test]
fn structure_edge_length() {
    let mut w = fresh();
    w.structure();
    // The short truss edges measure sqrt(2)/4.
    match w.constraints[1] {
        Constraint::Distance(d) => assert_eq!(d.distance.raw, 23170),
        _ => panic!("truss edges are distance constraints"),
    }
}

#[test]
fn rail_plane_normalized() {
    let mut w = fresh();
    w.rail();
    match w.constraints[1] {
        Constraint::Plane(p) => {
            // The (1, 1) director is normalized.
            assert_eq!(p.normal.x.raw, 46341);
            assert_eq!(p.normal.y.raw, 46341);
            let n = Vec2::new(p.normal.x, p.normal.y);
            // Unit length within one rounding step.
            assert!((n.norm().raw - 65536).abs() <= 2);
        }
        _ => panic!("the rail scenario's second constraint is a plane"),
    }
}

#[test]
fn scenario_switch_resets() {
    let mut w = fresh();
    w.rope();
    for _ in 0..3 {
        w.solve().unwrap();
        let _ = w.take_snapshot();
    }
    assert_eq!(w.age, 3);
    assert!(w.physic_index_to_entity.len() > 0);
    w.simple();
    assert_eq!(w.age, 0);
    assert_eq!(w.bodies.len(), 1);
    assert_eq!(w.constraints.len(), 1);
    assert_eq!(w.physic_index_to_entity.len(), 0);
    // The next tick rebuilds the index lazily and runs.
    w.solve().unwrap();
    let s = w.take_snapshot();
    assert_eq!(s.date, 0);
    assert_eq!(s.pos.len(), 1);
}

#[test]
fn switch_result_is_independent_of_prior_state() {
    let mut a = fresh();
    a.bridge();
    for _ in 0..2 {
        a.solve().unwrap();
    }
    a.triple();
    let mut b = fresh();
    b.triple();
    assert_eq!(a.bodies, b.bodies);
    assert_eq!(a.constraints.len(), b.constraints.len());
    for (x, y) in a.constraints.iter().zip(b.constraints.iter()) {
        assert_eq!(x, y);
    }
}
