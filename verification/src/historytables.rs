//! The quiet-move history heuristic: a per-piece, per-target-square score,
//! nudged up for quiet moves that caused a cutoff and down for quiet moves
//! that did not, with a gravity rule that keeps every score within
//! `[-HISTORY_MAX, HISTORY_MAX]`.
use vstd::prelude::*;

use crate::types::{tdiv, tdiv_i32, Piece};

verus! {

/// Largest magnitude a history score can reach.
pub const HISTORY_MAX: i16 = 16383;

/// `[piece][target square] -> score` for quiet-move ordering.
#[derive(Copy, Clone, Debug)]
pub struct HistoryTable(pub [[i16; 64]; 6]);

impl HistoryTable {
    /// The score stored for `piece` moving to square `to`.
    pub open spec fn spec_get(&self, piece: Piece, to: int) -> i16 {
        self.0[piece.spec_idx() as int][to]
    }

    /// Every score of the table lies within `[-HISTORY_MAX, HISTORY_MAX]`.
    pub open spec fn in_bounds(&self) -> bool {
        forall|p: int, t: int|
            0 <= p < 6 && 0 <= t < 64 ==> -HISTORY_MAX <= #[trigger] self.0[p][t] <= HISTORY_MAX
    }

    /// A table of all-zero scores.
    pub fn new() -> (r: Self)
        ensures
            forall|p: int, t: int| 0 <= p < 6 && 0 <= t < 64 ==> #[trigger] r.0[p][t] == 0i16,
            r.in_bounds(),
    {
        HistoryTable([[0i16;64];6])
    }

    /// Reset every score to zero.
    pub fn clear(&mut self)
        ensures
            forall|p: int, t: int|
                0 <= p < 6 && 0 <= t < 64 ==> #[trigger] final(self).0[p][t] == 0i16,
            final(self).in_bounds(),
    {
        *self = Self::new();
    }

    /// The score stored for `piece` moving to square `to`.
    pub fn get(&self, piece: Piece, to: u8) -> (r: i16)
        requires
            to < 64,
        ensures
            r == self.spec_get(piece, to as int),
    {
        self.0[piece.idx()][to as usize]
    }

    /// Apply the gravity bonus to the score of `piece` moving to `to`.
    pub fn bonus(&mut self, piece: Piece, to: u8, delta: i16)
        requires
            to < 64,
            0 <= delta <= HISTORY_MAX,
            old(self).in_bounds(),
        ensures
            final(self).in_bounds(),
            final(self).spec_get(piece, to as int) == spec_history_bonus(
                old(self).spec_get(piece, to as int),
                delta,
            ),
            forall|p: int, t: int|
                0 <= p < 6 && 0 <= t < 64 && !(p == piece.spec_idx() && t == to)
                    ==> #[trigger] final(self).0[p][t] == old(self).0[p][t],
    {
        let pi = piece.idx();
        let mut row: [i16; 64] = self.0[pi];
        let mut s: i16 = row[to as usize];
        apply_history_bonus(&mut s, delta);
        row[to as usize] = s;
        self.0[pi] = row;
    }

    /// Apply the gravity malus to the score of `piece` moving to `to`.
    pub fn malus(&mut self, piece: Piece, to: u8, delta: i16)
        requires
            to < 64,
            0 <= delta <= HISTORY_MAX,
            old(self).in_bounds(),
        ensures
            final(self).in_bounds(),
            final(self).spec_get(piece, to as int) == spec_history_malus(
                old(self).spec_get(piece, to as int),
                delta,
            ),
            forall|p: int, t: int|
                0 <= p < 6 && 0 <= t < 64 && !(p == piece.spec_idx() && t == to)
                    ==> #[trigger] final(self).0[p][t] == old(self).0[p][t],
    {
        let pi = piece.idx();
        let mut row: [i16; 64] = self.0[pi];
        let mut s: i16 = row[to as usize];
        apply_history_malus(&mut s, delta);
        row[to as usize] = s;
        self.0[pi] = row;
    }

    /// The history adjustment earned at `depth`: its square.
    pub fn delta(&self, depth: i32) -> (r: i16)
        requires
            0 <= depth < 128,
        ensures
            r == depth * depth,
            0 <= r <= HISTORY_MAX,
    {
        proof {
            assert(depth * depth <= 127 * 127) by (nonlinear_arith)
                requires
                    0 <= depth < 128,
            ;
        }
        (depth * depth) as i16
    }
}

/// The score after a gravity bonus of `delta`.
pub open spec fn spec_history_bonus(s: i16, delta: i16) -> int {
    s + delta - tdiv(delta * s, HISTORY_MAX as int)
}

/// The score after a gravity malus of `delta`.
pub open spec fn spec_history_malus(s: i16, delta: i16) -> int {
    s - delta - tdiv(delta * s, HISTORY_MAX as int)
}

/// Raise `score` by `delta`, damped by the gravity rule.
pub fn apply_history_bonus(score: &mut i16, delta: i16)
    requires
        -HISTORY_MAX <= *old(score) <= HISTORY_MAX,
        0 <= delta <= HISTORY_MAX,
    ensures
        *final(score) == spec_history_bonus(*old(score), delta),
        -HISTORY_MAX <= *final(score) <= HISTORY_MAX,
{
    let s: i32 = *score as i32;
    let d: i32 = delta as i32;
    proof {
        lemma_gravity_bounds(s as int, d as int);
        assert(-0x10000000 <= d * s <= 0x10000000) by (nonlinear_arith)
            requires
                -16383 <= s <= 16383,
                0 <= d <= 16383,
        ;
    }
    let q: i32 = tdiv_i32(d * s, HISTORY_MAX as i32);
    *score = (s + d - q) as i16;
}

/// Lower `score` by `delta`, damped by the gravity rule.
pub fn apply_history_malus(score: &mut i16, delta: i16)
    requires
        -HISTORY_MAX <= *old(score) <= HISTORY_MAX,
        0 <= delta <= HISTORY_MAX,
    ensures
        *final(score) == spec_history_malus(*old(score), delta),
        -HISTORY_MAX <= *final(score) <= HISTORY_MAX,
{
    let s: i32 = *score as i32;
    let d: i32 = delta as i32;
    proof {
        lemma_gravity_bounds(s as int, d as int);
        assert(-0x10000000 <= d * s <= 0x10000000) by (nonlinear_arith)
            requires
                -16383 <= s <= 16383,
                0 <= d <= 16383,
        ;
    }
    let q: i32 = tdiv_i32(d * s, HISTORY_MAX as i32);
    *score = (s - d - q) as i16;
}

/// Under the gravity rule, a score within `[-HISTORY_MAX, HISTORY_MAX]`
/// stays within those bounds after any one bonus or malus, so it stays
/// within them under every sequence of bonuses and maluses.
pub proof fn lemma_gravity_bounds(s: int, d: int)
    requires
        -HISTORY_MAX <= s <= HISTORY_MAX,
        0 <= d <= HISTORY_MAX,
    ensures
        -HISTORY_MAX <= s + d - tdiv(d * s, HISTORY_MAX as int) <= HISTORY_MAX,
        -HISTORY_MAX <= s - d - tdiv(d * s, HISTORY_MAX as int) <= HISTORY_MAX,
{
    let h = HISTORY_MAX as int;
    if s >= 0 {
        let x = d * s;
        assert(x >= 0 && x <= d * h && x <= h * s) by (nonlinear_arith)
            requires
                0 <= d <= h,
                0 <= s <= h,
                x == d * s,
        ;
        let q = x / h;
        assert(tdiv(x, h) == q);
        vstd::arithmetic::div_mod::lemma_remainder_lower(x, h);
        vstd::arithmetic::div_mod::lemma_remainder_upper(x, h);
        assert(q * h <= x && x - h < q * h);
        assert(q >= 0 && q <= d && q <= s) by (nonlinear_arith)
            requires
                h > 0,
                q * h <= x,
                x - h < q * h,
                x >= 0,
                x <= d * h,
                x <= h * s,
        ;
        // (h - s) * (h - d) >= 0 bounds the bonus from above.
        assert(h * s + h * d - x <= h * h) by (nonlinear_arith)
            requires
                s <= h,
                d <= h,
                x == d * s,
        ;
        assert((s + d - q) * h < (h + 1) * h) by (nonlinear_arith)
            requires
                h > 0,
                x - h < q * h,
                h * s + h * d - x <= h * h,
        ;
        assert(s + d - q <= h) by (nonlinear_arith)
            requires
                h > 0,
                (s + d - q) * h < (h + 1) * h,
        ;
        assert(s + d - q >= s >= -h);
        assert(s - d - q >= -h);
        assert(s - d - q <= s <= h);
    } else {
        let t = -s;
        let x = d * t;
        assert(d * s == -x) by (nonlinear_arith)
            requires
                t == -s,
                x == d * t,
        ;
        assert(x >= 0 && x <= d * h && x <= h * t) by (nonlinear_arith)
            requires
                0 <= d <= h,
                0 < t <= h,
                x == d * t,
        ;
        let q0 = x / h;
        assert(tdiv(d * s, h) == -q0);
        vstd::arithmetic::div_mod::lemma_remainder_lower(x, h);
        vstd::arithmetic::div_mod::lemma_remainder_upper(x, h);
        assert(q0 * h <= x && x - h < q0 * h);
        assert(q0 >= 0 && q0 <= d && q0 <= t) by (nonlinear_arith)
            requires
                h > 0,
                q0 * h <= x,
                x - h < q0 * h,
                x >= 0,
                x <= d * h,
                x <= h * t,
        ;
        // bonus becomes s + d + q0
        assert(s + d + q0 <= s + d + t == d <= h);
        assert(s + d + q0 >= s >= -h);
        // malus becomes s - d + q0; (h - t) * (h - d) >= 0 bounds it below.
        assert(h * (d - h + t) <= x) by (nonlinear_arith)
            requires
                t <= h,
                d <= h,
                x == d * t,
        ;
        assert(q0 >= d - h + t) by (nonlinear_arith)
            requires
                h > 0,
                q0 * h <= x,
                x - h < q0 * h,
                h * (d - h + t) <= x,
        ;
        assert(s - d + q0 >= s - d + (d - h + t) == -h);
        assert(s - d + q0 <= s <= h);
    }
}

} // verus!
