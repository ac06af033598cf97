//! A square, power-of-two grid addressed by Morton (Z-order) indices,
//! used by the grid-based fluid experiments that live beside the
//! constraint sandbox.
//!
//! Coordinates are centred: a mask of size 2^p spans -2^(p-1) ..
//! 2^(p-1) on each axis.  The bit-interleaving pair is proved to be a
//! round trip over the 16-bit coordinate range.

use vstd::prelude::*;

verus! {

/// A square grid mask whose side is a power of two.
#[derive(Clone, Copy, PartialEq, Eq, Structural, Debug)]
pub struct SquareMask {
    /// Base-two logarithm of the side length.
    pub power_of_two: usize,
}

/// The low 16 bits of `v`, spread so bit i lands on bit 2i.
pub open spec fn spread_bits(v: u32) -> u32 {
    let a = v & 0xffff;
    let b = (a | (a << 8)) & 0x00ff00ff;
    let c = (b | (b << 4)) & 0x0f0f0f0f;
    let d = (c | (c << 2)) & 0x33333333;
    (d | (d << 1)) & 0x55555555
}

/// The even bits of `v`, compacted so bit 2i lands on bit i.
pub open spec fn compact_bits(v: u32) -> u32 {
    let a = v & 0x55555555;
    let b = (a | (a >> 1)) & 0x33333333;
    let c = (b | (b >> 2)) & 0x0f0f0f0f;
    let d = (c | (c >> 4)) & 0x00ff00ff;
    (d | (d >> 8)) & 0x0000ffff
}

/// Compacting undoes spreading over the full 16-bit coordinate range.
pub proof fn lemma_spread_roundtrip(v: u32)
    ensures
        compact_bits(spread_bits(v)) == v & 0xffff,
{
    assert(compact_bits(spread_bits(v)) == v & 0xffff) by (bit_vector);
}

/// Spread coordinates occupy only the even bits, so the two interleaved
/// halves of a Morton index never collide: compacting recovers the x
/// half exactly even after the y half is merged in.
pub proof fn lemma_interleave_separates(ux: u32, uy: u32)
    ensures
        compact_bits(spread_bits(ux) | (spread_bits(uy) << 1)) == ux & 0xffff,
        compact_bits((spread_bits(ux) | (spread_bits(uy) << 1)) >> 1) == uy & 0xffff,
{
    assert(compact_bits(spread_bits(ux) | (spread_bits(uy) << 1)) == ux & 0xffff) by (bit_vector);
    assert(compact_bits((spread_bits(ux) | (spread_bits(uy) << 1)) >> 1) == uy & 0xffff)
        by (bit_vector);
}

fn spread_exec(v: u32) -> (r: u32)
    ensures
        r == spread_bits(v),
{
    let a: u32 = v & 0xffff;
    let b: u32 = (a | (a << 8)) & 0x00ff00ff;
    let c: u32 = (b | (b << 4)) & 0x0f0f0f0f;
    let d: u32 = (c | (c << 2)) & 0x33333333;
    (d | (d << 1)) & 0x55555555
}

fn compact_exec(v: u32) -> (r: u32)
    ensures
        r == compact_bits(v),
{
    let a: u32 = v & 0x55555555;
    let b: u32 = (a | (a >> 1)) & 0x33333333;
    let c: u32 = (b | (b >> 2)) & 0x0f0f0f0f;
    let d: u32 = (c | (c >> 4)) & 0x00ff00ff;
    (d | (d >> 8)) & 0x0000ffff
}

impl SquareMask {
    /// The mask is usable when its side fits the dense index range:
    /// the power is capped at 15 so the cell count 4^p stays within a
    /// 32-bit `usize`.
    pub open spec fn wf(self) -> bool {
        1 <= self.power_of_two <= 15
    }

    /// Side length of the mask.
    pub open spec fn spec_size(self) -> int {
        (1u32 << self.power_of_two) as int
    }

    /// Half the side length: the magnitude of the coordinate range.
    pub open spec fn spec_half(self) -> int {
        (1u32 << (self.power_of_two - 1) as u32) as int
    }

    /// A mask whose side is 2^size.
    pub fn new(size: usize) -> (r: SquareMask)
        requires
            1 <= size <= 15,
        ensures
            r.wf(),
            r.power_of_two == size,
    {
        SquareMask { power_of_two: size }
    }

    /// Side length.
    pub fn size(&self) -> (r: usize)
        requires
            self.wf(),
        ensures
            r == self.spec_size(),
            2 <= r <= 32768,
    {
        let p: u32 = self.power_of_two as u32;
        proof {
            assert(1 <= p <= 15 ==> 2 <= (1u32 << p) <= 32768) by (bit_vector);
        }
        (1u32 << p) as usize
    }

    /// Half the side length.
    fn half(&self) -> (r: u32)
        requires
            self.wf(),
        ensures
            r == self.spec_half(),
            1 <= r <= 16384,
    {
        let p: u32 = self.power_of_two as u32;
        proof {
            assert(1 <= p && p <= 15 ==> 1 <= (1u32 << ((p - 1) as u32)) && (1u32 << ((p - 1) as u32)) <= 16384) by (bit_vector);
        }
        1u32 << (p - 1)
    }

    /// The signed coordinate range of either axis.
    pub fn range(&self) -> (r: core::ops::Range<isize>)
        requires
            self.wf(),
        ensures
            r.start == -self.spec_half(),
            r.end == self.spec_half(),
    {
        let half_size: isize = self.half() as isize;
        (-half_size)..half_size
    }

    /// The dense index range of the whole grid.
    pub fn index_range(&self) -> (r: core::ops::Range<usize>)
        requires
            self.wf(),
        ensures
            r.start == 0,
            r.end == self.spec_size() * self.spec_size(),
    {
        let s: usize = self.size();
        proof {
            assert((s as int) * (s as int) <= 32768 * 32768) by (nonlinear_arith)
                requires
                    0 <= s as int <= 32768,
            ;
        }
        0..(s * s)
    }

    /// A dense grid of the mask's full extent, every cell holding the
    /// given value.
    pub fn create_grid<T: Copy>(&self, t: T) -> (r: Vec<T>)
        requires
            self.wf(),
        ensures
            r@.len() == self.spec_size() * self.spec_size(),
            forall|i: int| 0 <= i < r@.len() ==> #[trigger] r@[i] == t,
    {
        let total: usize = self.index_range().end;
        let mut out: Vec<T> = Vec::new();
        let mut i: usize = 0;
        while i < total
            invariant
                out@.len() == i,
                i <= total,
                forall|i2: int| 0 <= i2 < i ==> #[trigger] out@[i2] == t,
            decreases total - i,
        {
            out.push(t);
            i = i + 1;
        }
        out
    }

    /// Interleaves the low 16 bits of `n` into the even bit positions.
    pub fn part1by1(n: usize) -> (r: usize)
        ensures
            r == spread_bits(n as u32) as usize,
    {
        spread_exec(n as u32) as usize
    }

    /// Compacts the even bit positions of `n` into the low 16 bits.
    pub fn compact1by1(n: usize) -> (r: usize)
        ensures
            r == compact_bits(n as u32) as usize,
    {
        compact_exec(n as u32) as usize
    }

    /// Reads the cell at a centred position, or the default when the
    /// position is off the mask.
    pub fn get<T: Copy>(&self, grid: &Vec<T>, x: isize, y: isize, default: T) -> (r: T)
        requires
            self.wf(),
            grid@.len() >= self.spec_size() * self.spec_size(),
        ensures
            -self.spec_half() <= x < self.spec_half() && -self.spec_half() <= y
                < self.spec_half() ==> r == grid@[(spread_bits((x + self.spec_half()) as u32) | (
            spread_bits((y + self.spec_half()) as u32) << 1)) as int],
            !(-self.spec_half() <= x < self.spec_half() && -self.spec_half() <= y
                < self.spec_half()) ==> r == default,
    {
        let half: isize = self.half() as isize;
        if -half <= x && x < half && -half <= y && y < half {
            let z: usize = self.morton_encode(x, y);
            proof {
                self.lemma_morton_in_grid(x, y);
            }
            grid[z]
        } else {
            default
        }
    }

    /// Overwrites the cell at a centred position; positions off the
    /// mask leave the grid unchanged.
    pub fn set<T>(&self, grid: &mut Vec<T>, x: isize, y: isize, value: T)
        requires
            self.wf(),
            old(grid)@.len() >= self.spec_size() * self.spec_size(),
        ensures
            -self.spec_half() <= x < self.spec_half() && -self.spec_half() <= y
                < self.spec_half() ==> final(grid)@ == old(grid)@.update(
                (spread_bits((x + self.spec_half()) as u32) | (spread_bits(
                    (y + self.spec_half()) as u32,
                ) << 1)) as int,
                value,
            ),
            !(-self.spec_half() <= x < self.spec_half() && -self.spec_half() <= y
                < self.spec_half()) ==> final(grid)@ == old(grid)@,
    {
        let half: isize = self.half() as isize;
        if -half <= x && x < half && -half <= y && y < half {
            let z: usize = self.morton_encode(x, y);
            proof {
                self.lemma_morton_in_grid(x, y);
            }
            grid.set(z, value);
        }
    }

    /// A Morton index of an in-range position lands inside the dense
    /// grid.
    proof fn lemma_morton_in_grid(&self, x: isize, y: isize)
        requires
            self.wf(),
            -self.spec_half() <= x < self.spec_half(),
            -self.spec_half() <= y < self.spec_half(),
        ensures
            ((spread_bits((x + self.spec_half()) as u32) | (spread_bits(
                (y + self.spec_half()) as u32,
            ) << 1)) as int) < self.spec_size() * self.spec_size(),
    {
        let p = self.power_of_two as u32;
        assert((1 <= p && p <= 15) ==> (2 * (1u32 << ((p - 1) as u32)) == (1u32 << p)))
            by (bit_vector);
        assert(self.spec_size() == (1u32 << p) as int);
        assert(self.spec_half() == (1u32 << ((p - 1) as u32)) as int);
        assert(0 <= x + self.spec_half() < (1u32 << p) as int);
        assert(0 <= y + self.spec_half() < (1u32 << p) as int);
        let ux = (x + self.spec_half()) as u32;
        let uy = (y + self.spec_half()) as u32;
        assert(ux as int == x + self.spec_half() && uy as int == y + self.spec_half());
        assert((1 <= p && p <= 15 && ux < (1u32 << p) && uy < (1u32 << p)) ==> ((spread_bits(ux) | (
        spread_bits(uy) << 1)) < (1u32 << p) * (1u32 << p))) by (bit_vector);
        assert((1 <= p && p <= 15) ==> ((1u32 << p) * (1u32 << p)) as int == ((1u32 << p) as int)
            * ((1u32 << p) as int)) by (bit_vector);
    }

    /// Morton index of a centred grid position.
    pub fn morton_encode(&self, x: isize, y: isize) -> (r: usize)
        requires
            self.wf(),
            -self.spec_half() <= x < self.spec_half(),
            -self.spec_half() <= y < self.spec_half(),
        ensures
            r == (spread_bits((x + self.spec_half()) as u32) | (spread_bits(
                (y + self.spec_half()) as u32,
            ) << 1)) as usize,
    {
        let half_size: isize = self.half() as isize;
        let ux: u32 = (x + half_size) as u32;
        let uy: u32 = (y + half_size) as u32;
        let e: u32 = spread_exec(ux) | (spread_exec(uy) << 1);
        e as usize
    }

    /// Centred grid position of a Morton index.
    pub fn morton_decode(&self, z: usize) -> (r: (isize, isize))
        requires
            self.wf(),
        ensures
            r.0 == compact_bits(z as u32) as int - self.spec_half(),
            r.1 == compact_bits((z >> 1) as u32) as int - self.spec_half(),
    {
        let half_size: isize = self.half() as isize;
        let cx: u32 = compact_exec(z as u32);
        let cy: u32 = compact_exec((z >> 1) as u32);
        proof {
            assert(compact_bits(z as u32) <= 0xffff) by (bit_vector);
            assert(compact_bits((z >> 1) as u32) <= 0xffff) by (bit_vector);
        }
        ((cx as isize) - half_size, (cy as isize) - half_size)
    }

    /// Centred grid position of a dense Morton index.
    pub fn index_to_pos(&self, z: usize) -> (r: (isize, isize))
        requires
            self.wf(),
        ensures
            r.0 == compact_bits(z as u32) as int - self.spec_half(),
            r.1 == compact_bits((z >> 1) as u32) as int - self.spec_half(),
    {
        self.morton_decode(z)
    }
}

} // verus!
