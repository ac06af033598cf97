//! Unit tests for the fixed-point scalar and vector layers and the
//! Morton-indexed grid mask.

use the_game::fixed::{Fix, SCALE};
use the_game::vec2::Vec2;
use the_game::grid::SquareMask;

#[test]
fn scalar_construction() {
    assert_eq!(Fix::zero().raw, 0);
    assert_eq!(Fix::one().raw, SCALE);
    assert_eq!(Fix::from_int(3).raw, 3 * 65536);
    assert_eq!(Fix::from_int(-5).raw, -5 * 65536);
    assert_eq!(Fix::from_ratio(1, 4).raw, 16384);
    assert_eq!(Fix::from_ratio(1, 2).raw, 32768);
    assert_eq!(Fix::from_ratio(-981, 100).raw, -642908);
    assert_eq!(Fix::from_ratio(1, 10).raw, 6553);
    assert_eq!(Fix::from_ratio(1, 100).raw, 655);
}

#[test]
fn scalar_arithmetic() {
    let two = Fix::from_int(2);
    let three = Fix::from_int(3);
    assert_eq!(two.add(three).raw, 5 * 65536);
    assert_eq!(two.sub(three).raw, -65536);
    assert_eq!(two.mul(three).raw, 6 * 65536);
    assert_eq!(three.mul(Fix::from_ratio(1, 2)).raw, 98304);
    // Division truncates toward zero.
    assert_eq!(Fix::from_int(1).div(three).raw, 21845);
    assert_eq!(Fix::from_int(-1).div(three).raw, -21845);
    assert_eq!(two.neg().raw, -2 * 65536);
    assert_eq!(Fix { raw: -7 }.abs().raw, 7);
    assert_eq!(Fix::from_int(7).trunc(), 7);
    assert_eq!(Fix { raw: -98304 }.trunc(), -1);
}

#[test]
fn scalar_sqrt() {
    assert_eq!(Fix::from_int(4).sqrt().raw, 2 * 65536);
    assert_eq!(Fix::from_int(2).sqrt().raw, 92681);
    assert_eq!(Fix::zero().sqrt().raw, 0);
    // Floor square root: just below a perfect square.
    assert_eq!(Fix { raw: 4 * 65536 - 1 }.sqrt().raw, 2 * 65536 - 1);
}

#[test]
fn scalar_saturation() {
    let top = Fix { raw: i64::MAX };
    assert_eq!(top.add(Fix::one()).raw, i64::MAX);
    let bottom = Fix { raw: i64::MIN };
    assert_eq!(bottom.sub(Fix::one()).raw, i64::MIN);
    assert_eq!(bottom.neg().raw, i64::MAX);
    assert_eq!(top.mul(top).raw, i64::MAX);
    assert_eq!(top.mul(bottom).raw, i64::MIN);
}

#[test]
fn vector_operations() {
    let v = Vec2::new(Fix::from_int(3), Fix::from_int(4));
    assert_eq!(v.norm_sq().raw, 25 * 65536);
    assert_eq!(v.norm().raw, 5 * 65536);
    let u = v.unit();
    assert_eq!(u.x.raw, 39321); // 3/5
    assert_eq!(u.y.raw, 52428); // 4/5
    let w = v.add(v.neg());
    assert_eq!((w.x.raw, w.y.raw), (0, 0));
    assert_eq!(v.dot(v).raw, 25 * 65536);
    let s = v.scale(Fix::from_ratio(1, 2));
    assert_eq!((s.x.raw, s.y.raw), (98304, 131072));
}

#[test]
fn grid_mask_shape() {
    let mask = SquareMask::new(4);
    assert_eq!(mask.size(), 16);
    let r = mask.range();
    assert_eq!((r.start, r.end), (-8, 8));
    let ir = mask.index_range();
    assert_eq!((ir.start, ir.end), (0, 256));
    let grid = mask.create_grid(7u8);
    assert_eq!(grid.len(), 256);
    assert!(grid.iter().all(|&c| c == 7));
}

#[test]
fn grid_bit_interleave() {
    assert_eq!(SquareMask::part1by1(0b1011), 0b1000101);
    assert_eq!(SquareMask::compact1by1(0b1000101), 0b1011);
    for n in [0usize, 1, 2, 0xff, 0x1234, 0xffff] {
        assert_eq!(SquareMask::compact1by1(SquareMask::part1by1(n)), n & 0xffff);
    }
}

#[test]
fn grid_cell_access() {
    let mask = SquareMask::new(3);
    let mut grid = mask.create_grid(0u32);
    mask.set(&mut grid, -4, 3, 9);
    mask.set(&mut grid, 2, -1, 5);
    assert_eq!(mask.get(&grid, -4, 3, 77), 9);
    assert_eq!(mask.get(&grid, 2, -1, 77), 5);
    assert_eq!(mask.get(&grid, 0, 0, 77), 0);
    // Off-mask positions read the default and write nothing.
    assert_eq!(mask.get(&grid, 4, 0, 77), 77);
    let before = grid.clone();
    mask.set(&mut grid, 4, 0, 9);
    mask.set(&mut grid, 0, -5, 9);
    assert_eq!(grid, before);
}

#[test]
fn grid_morton_roundtrip() {
    let mask = SquareMask::new(5);
    for &(x, y) in &[(0isize, 0isize), (-16, -16), (15, 15), (-3, 7), (9, -12)] {
        let z = mask.morton_encode(x, y);
        assert_eq!(mask.index_to_pos(z), (x, y));
    }
}
