//! Tests of the per-tick assembly: Jacobian shape and entries, the
//! diagonal inverse-mass matrix, and the violation vector.

use the_game::fixed::Fix;
use the_game::world::GameContent;

fn fresh() -> GameContent {
    GameContent::empty(Fix::from_ratio(1, 64))
}

#[test]
fn jacobian_shape_double() {
    let mut w = fresh();
    w.double();
    w.update_solver_index();
    let j = w.j_matrix();
    assert_eq!(j.data.len(), 2);
    assert_eq!(j.cols, 4);
    // Row 0: the link from body 0 at (1,0) to body 1 at (1,1): the
    // normalized gap is (0,-1), negated in body 1's columns.
    let row0: Vec<i64> = j.data[0].iter().map(|f| f.raw).collect();
    assert_eq!(row0, vec![0, -65536, 0, 65536]);
    // Row 1: the anchor on body 0, gap (1,0) from the origin; body 1
    // does not participate, so its columns stay zero.
    let row1: Vec<i64> = j.data[1].iter().map(|f| f.raw).collect();
    assert_eq!(row1, vec![65536, 0, 0, 0]);
}

#[test]
fn jacobian_shape_rope() {
    let mut w = fresh();
    w.rope();
    w.update_solver_index();
    let j = w.j_matrix();
    assert_eq!(j.data.len(), 20);
    assert_eq!(j.cols, 40);
    // Link k touches bodies k and k+1 only.
    for k in 0..19 {
        for col in 0..40 {
            let touched = col / 2 == k || col / 2 == k + 1;
            if !touched {
                assert_eq!(j.data[k][col].raw, 0, "row {k} col {col}");
            }
        }
        // The chain is horizontal, so the gradient is the x axis.
        assert_eq!(j.data[k][2 * k].raw, -65536);
        assert_eq!(j.data[k][2 * (k + 1)].raw, 65536);
    }
    // The anchor row touches the last body only.
    for col in 0..38 {
        assert_eq!(j.data[19][col].raw, 0);
    }
}

#[test]
fn inverse_mass_matrix_diagonal() {
    let mut w = fresh();
    w.pulley_and_rail();
    w.update_solver_index();
    let m = w.inv_mass_matrix();
    assert_eq!(m.data.len(), 4);
    assert_eq!(m.cols, 4);
    for i in 0..4 {
        for j in 0..4 {
            if i != j {
                assert_eq!(m.data[i][j].raw, 0);
            }
        }
    }
    // Body 0 has unit mass; body 1 has mass 2, inverse one half.
    assert_eq!(m.data[0][0].raw, 65536);
    assert_eq!(m.data[1][1].raw, 65536);
    assert_eq!(m.data[2][2].raw, 32768);
    assert_eq!(m.data[3][3].raw, 32768);
}

#[test]
fn violation_vector_at_build() {
    let mut w = fresh();
    w.double();
    w.update_solver_index();
    let c = w.c_vector();
    // Both constraints are exactly satisfied at build time.
    assert_eq!(c.len(), 2);
    assert_eq!(c[0].raw, 0);
    assert_eq!(c[1].raw, 0);
    let mean = GameContent::violation_mean_of(&c);
    assert_eq!(mean.raw, 0);
}
