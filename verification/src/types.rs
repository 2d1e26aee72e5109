//! Colors, pieces, score bounds, and the aspiration window.
use vstd::prelude::*;

verus! {

/// Largest search depth (plies) the engine will ever reach.
pub const MAX_DEPTH: i32 = 128;

/// Mate score at the root; mate-in-n is scored `MATE_SCORE - n`.
pub const MATE_SCORE: i32 = 31_000;

pub const MIN_MATE_SCORE: i32 = MATE_SCORE - MAX_DEPTH;

pub const TB_WIN_SCORE: i32 = 30_000;

/// Scores at or above this magnitude are mate-distance scores and are stored
/// ply-adjusted in the transposition table.
pub const MIN_TB_WIN_SCORE: i32 = TB_WIN_SCORE - MAX_DEPTH;

/// Larger than any score the search can return.
pub const INF: i32 = 32_000;

#[derive(Copy, Clone, Debug, PartialEq, Eq, Structural)]
pub enum Color {
    White,
    Black,
}

impl Color {
    pub open spec fn spec_idx(self) -> usize {
        match self {
            Color::White => 0,
            Color::Black => 1,
        }
    }

    /// Index of this color into two-element per-color arrays.
    #[verifier::when_used_as_spec(spec_idx)]
    pub fn idx(self) -> (r: usize)
        ensures
            r == self.spec_idx(),
    {
        match self {
            Color::White => 0,
            Color::Black => 1,
        }
    }

    pub open spec fn spec_flip(self) -> Color {
        match self {
            Color::White => Color::Black,
            Color::Black => Color::White,
        }
    }

    /// The other side.
    #[verifier::when_used_as_spec(spec_flip)]
    pub fn flip(self) -> (r: Color)
        ensures
            r == self.spec_flip(),
    {
        match self {
            Color::White => Color::Black,
            Color::Black => Color::White,
        }
    }
}

#[derive(Copy, Clone, Debug, PartialEq, Eq, Structural)]
pub enum Piece {
    Pawn,
    Knight,
    Bishop,
    Rook,
    Queen,
    King,
}

impl Piece {
    pub open spec fn spec_idx(self) -> usize {
        match self {
            Piece::Pawn => 0,
            Piece::Knight => 1,
            Piece::Bishop => 2,
            Piece::Rook => 3,
            Piece::Queen => 4,
            Piece::King => 5,
        }
    }

    /// Index of this piece into six-element per-piece arrays.
    #[verifier::when_used_as_spec(spec_idx)]
    pub fn idx(self) -> (r: usize)
        ensures
            r == self.spec_idx(),
    {
        match self {
            Piece::Pawn => 0,
            Piece::Knight => 1,
            Piece::Bishop => 2,
            Piece::Rook => 3,
            Piece::Queen => 4,
            Piece::King => 5,
        }
    }

    pub open spec fn spec_from_index(value: u8) -> Piece {
        if value == 0 {
            Piece::Pawn
        } else if value == 1 {
            Piece::Knight
        } else if value == 2 {
            Piece::Bishop
        } else if value == 3 {
            Piece::Rook
        } else if value == 4 {
            Piece::Queen
        } else {
            Piece::King
        }
    }

    /// Inverse of `idx`.
    #[verifier::when_used_as_spec(spec_from_index)]
    pub fn from_index(value: u8) -> (r: Piece)
        requires
            value <= 5,
        ensures
            r == Piece::spec_from_index(value),
            r.idx() == value,
    {
        if value == 0 {
            Piece::Pawn
        } else if value == 1 {
            Piece::Knight
        } else if value == 2 {
            Piece::Bishop
        } else if value == 3 {
            Piece::Rook
        } else if value == 4 {
            Piece::Queen
        } else {
            Piece::King
        }
    }
}

/// How a score relates to the window it was searched with.
#[derive(Copy, Clone, Debug, PartialEq, Eq, Structural)]
pub enum ScoreType {
    Exact,
    LowerBound,
    UpperBound,
}

/// Truncating (round-toward-zero) division, as the machine division
/// instruction computes it.
pub open spec fn tdiv(a: int, b: int) -> int {
    if a >= 0 {
        a / b
    } else {
        -((-a) / b)
    }
}

pub open spec fn abs_i32(a: int) -> int {
    if a >= 0 {
        a
    } else {
        -a
    }
}

/// Truncating i32 division by a positive divisor.
pub fn tdiv_i32(a: i32, b: i32) -> (r: i32)
    requires
        b > 0,
        a > i32::MIN,
    ensures
        r == tdiv(a as int, b as int),
{
    if a >= 0 {
        let q: u32 = (a as u32) / (b as u32);
        q as i32
    } else {
        let n: u32 = (-a) as u32;
        let q: u32 = n / (b as u32);
        assert(q <= n);
        -(q as i32)
    }
}

/// Truncating i64 division by a positive divisor, for inputs within the
/// clock arithmetic's range.
pub fn tdiv_i64(a: i64, b: i64) -> (r: i64)
    requires
        b > 0,
        -0x4000_0000_0000_0000 < a < 0x4000_0000_0000_0000,
    ensures
        r == tdiv(a as int, b as int),
{
    if a >= 0 {
        let q: u64 = (a as u64) / (b as u64);
        q as i64
    } else {
        let n: u64 = (-a) as u64;
        let q: u64 = n / (b as u64);
        assert(q <= n);
        -(q as i64)
    }
}

/// Saturating i32 addition.
pub fn sat_add_i32(a: i32, b: i32) -> (r: i32)
    ensures
        a + b > i32::MAX ==> r == i32::MAX,
        a + b < i32::MIN ==> r == i32::MIN,
        i32::MIN <= a + b <= i32::MAX ==> r == a + b,
{
    let s: i64 = a as i64 + b as i64;
    if s > i32::MAX as i64 {
        i32::MAX
    } else if s < i32::MIN as i64 {
        i32::MIN
    } else {
        s as i32
    }
}

/// The `(lower, upper)` score window around the previous root score that the
/// next root search starts with; it widens on the failing side until the score
/// lands strictly inside.
#[derive(Copy, Clone, Debug)]
pub struct AspirationWindow {
    pub lower: i32,
    pub upper: i32,
}

impl AspirationWindow {
    pub fn new(upper: i32, lower: i32) -> (r: Self)
        ensures
            r.upper == upper,
            r.lower == lower,
    {
        Self { upper, lower }
    }

    /// A window of total width `width` centered on `mid`, clipped to
    /// `[-INF, INF]`.
    pub fn new_around(mid: i32, width: i32) -> (r: Self)
        requires
            width >= 0,
        ensures
            r.lower == if mid - width / 2 >= -INF {
                mid - width / 2
            } else {
                -INF as int
            },
            r.upper == if mid + width / 2 <= INF {
                mid + width / 2
            } else {
                INF as int
            },
    {
        let half: i32 = width / 2;
        let lo: i32 = sat_add_i32(mid, -half);
        let hi: i32 = sat_add_i32(mid, half);
        Self { lower: if lo >= -INF { lo } else { -INF }, upper: if hi <= INF { hi } else { INF } }
    }

    /// Move the lower bound down, away from the window's midpoint, by
    /// `scale_percent` percent of its distance from the midpoint. The upper
    /// bound is unchanged.
    pub fn expand_down(&mut self, scale_percent: i32)
        requires
            100 <= scale_percent <= 1000,
            -INF <= old(self).lower <= old(self).upper <= INF,
        ensures
            final(self).upper == old(self).upper,
            ({
                let mid = tdiv(old(self).upper + old(self).lower, 2);
                let diff = abs_i32(mid - old(self).lower);
                final(self).lower == if mid - tdiv(diff * scale_percent, 100) >= -INF {
                    mid - tdiv(diff * scale_percent, 100)
                } else {
                    -INF as int
                }
            }),
            final(self).lower <= old(self).lower,
    {
        let mid: i32 = tdiv_i32(self.upper + self.lower, 2);
        let diff: i32 = if mid >= self.lower {
            mid - self.lower
        } else {
            self.lower - mid
        };
        assert(diff * scale_percent <= 32_000 * 1000) by (nonlinear_arith)
            requires
                0 <= diff <= 32_000,
                0 <= scale_percent <= 1000,
        ;
        let step: i32 = tdiv_i32(diff * scale_percent, 100);
        assert(tdiv(diff * scale_percent, 100) >= diff) by (nonlinear_arith)
            requires
                0 <= diff,
                100 <= scale_percent,
        ;
        let lo: i64 = mid as i64 - step as i64;
        self.lower = if lo >= -INF as i64 {
            lo as i32
        } else {
            -INF
        };
    }

    /// Move the upper bound up, away from the window's midpoint, by
    /// `scale_percent` percent of its distance from the midpoint. The lower
    /// bound is unchanged.
    pub fn expand_up(&mut self, scale_percent: i32)
        requires
            100 <= scale_percent <= 1000,
            -INF <= old(self).lower <= old(self).upper <= INF,
        ensures
            final(self).lower == old(self).lower,
            ({
                let mid = tdiv(old(self).upper + old(self).lower, 2);
                let diff = abs_i32(mid - old(self).upper);
                final(self).upper == if mid + tdiv(diff * scale_percent, 100) <= INF {
                    mid + tdiv(diff * scale_percent, 100)
                } else {
                    INF as int
                }
            }),
            final(self).upper >= old(self).upper,
    {
        let mid: i32 = tdiv_i32(self.upper + self.lower, 2);
        let diff: i32 = if mid >= self.upper {
            mid - self.upper
        } else {
            self.upper - mid
        };
        assert(diff * scale_percent <= 32_000 * 1000) by (nonlinear_arith)
            requires
                0 <= diff <= 32_000,
                0 <= scale_percent <= 1000,
        ;
        let step: i32 = tdiv_i32(diff * scale_percent, 100);
        assert(tdiv(diff * scale_percent, 100) >= diff) by (nonlinear_arith)
            requires
                0 <= diff,
                100 <= scale_percent,
        ;
        let hi: i64 = mid as i64 + step as i64;
        self.upper = if hi <= INF as i64 {
            hi as i32
        } else {
            INF
        };
    }

    pub open spec fn spec_test(&self, score: i32) -> ScoreType {
        if score <= self.lower {
            ScoreType::UpperBound
        } else if score >= self.upper {
            ScoreType::LowerBound
        } else {
            ScoreType::Exact
        }
    }

    /// Classify a score against this window: at or below the lower bound it
    /// fails low, at or above the upper bound it fails high.
    #[verifier::when_used_as_spec(spec_test)]
    pub fn test(&self, score: i32) -> (r: ScoreType)
        ensures
            r == self.spec_test(score),
    {
        if score <= self.lower {
            ScoreType::UpperBound
        } else if score >= self.upper {
            ScoreType::LowerBound
        } else {
            ScoreType::Exact
        }
    }
}

impl Default for AspirationWindow {
    /// The full window: every score lands strictly inside it.
    fn default() -> (r: Self)
        ensures
            r.lower == -INF,
            r.upper == INF,
    {
        Self { lower: -INF, upper: INF }
    }
}

/// A window built around `mid` classifies `mid` itself as exact, for any
/// width of at least 2 and any `mid` a search can return.
pub proof fn lemma_window_around_is_exact(mid: i32, width: i32)
    requires
        2 <= width,
        -INF < mid < INF,
    ensures
        ({
            let w = AspirationWindow {
                lower: if mid - width / 2 >= -INF {
                    (mid - width / 2) as i32
                } else {
                    (-INF) as i32
                },
                upper: if mid + width / 2 <= INF {
                    (mid + width / 2) as i32
                } else {
                    INF as i32
                },
            };
            w.spec_test(mid) == ScoreType::Exact
        }),
{
}

} // verus!
