//! Attack geometry: attack sets of each piece kind, sliding rays over an
//! occupancy mask, and the squares between two aligned squares.
use vstd::prelude::*;

use crate::bits::{has_sq, sq_bb};

verus! {

pub const FILE_A: u64 = 0x0101010101010101;

pub const FILE_B: u64 = 0x0202020202020202;

pub const FILE_G: u64 = 0x4040404040404040;

pub const FILE_H: u64 = 0x8080808080808080;

pub const NOT_A_FILE: u64 = 0xfefefefefefefefe;

pub const NOT_H_FILE: u64 = 0x7f7f7f7f7f7f7f7f;

pub const FIRST_RANK: u64 = 0x00000000000000ff;

pub const SECOND_RANK: u64 = 0x000000000000ff00;

pub const THIRD_RANK: u64 = 0x0000000000ff0000;

pub const SIXTH_RANK: u64 = 0x0000ff0000000000;

pub const SEVENTH_RANK: u64 = 0x00ff000000000000;

pub const EIGHTH_RANK: u64 = 0xff00000000000000;

/// Knight attack set of the knights in `bb`.
pub open spec fn spec_knight_attacks(bb: u64) -> u64 {
    (((bb << 17u64) | (bb >> 15u64)) & NOT_A_FILE) | (((bb << 15u64) | (bb >> 17u64))
        & NOT_H_FILE) | (((bb << 10u64) | (bb >> 6u64)) & NOT_A_FILE & !FILE_B) | (((bb << 6u64) | (
    bb >> 10u64)) & NOT_H_FILE & !FILE_G)
}

/// Knight attack set, computed from the shift formula.
pub fn knight_attacks(bb: u64) -> (r: u64)
    ensures
        r == spec_knight_attacks(bb),
{
    (((bb << 17u64) | (bb >> 15u64)) & NOT_A_FILE) | (((bb << 15u64) | (bb >> 17u64))
        & NOT_H_FILE) | (((bb << 10u64) | (bb >> 6u64)) & NOT_A_FILE & !FILE_B) | (((bb << 6u64) | (
    bb >> 10u64)) & NOT_H_FILE & !FILE_G)
}

/// King attack set of the king in `bb`.
pub open spec fn spec_king_attacks(bb: u64) -> u64 {
    (bb << 8u64) | (bb >> 8u64) | (((bb << 1u64) | (bb << 9u64) | (bb >> 7u64)) & NOT_A_FILE) | (((
    bb >> 1u64) | (bb >> 9u64) | (bb << 7u64)) & NOT_H_FILE)
}

/// King attack set, computed from the shift formula.
pub fn king_attacks(bb: u64) -> (r: u64)
    ensures
        r == spec_king_attacks(bb),
{
    (bb << 8u64) | (bb >> 8u64) | (((bb << 1u64) | (bb << 9u64) | (bb >> 7u64)) & NOT_A_FILE) | (((
    bb >> 1u64) | (bb >> 9u64) | (bb << 7u64)) & NOT_H_FILE)
}

/// Squares attacked by the pawns in `bb` playing for `White` (`white` true)
/// or `Black`.
pub open spec fn spec_pawn_attacks(bb: u64, white: bool) -> u64 {
    if white {
        ((bb & NOT_A_FILE) << 7u64) | ((bb & NOT_H_FILE) << 9u64)
    } else {
        ((bb & NOT_A_FILE) >> 9u64) | ((bb & NOT_H_FILE) >> 7u64)
    }
}

/// Pawn attack set of a pawn mass.
pub fn pawn_attacks_mask(bb: u64, white: bool) -> (r: u64)
    ensures
        r == spec_pawn_attacks(bb, white),
{
    if white {
        ((bb & NOT_A_FILE) << 7u64) | ((bb & NOT_H_FILE) << 9u64)
    } else {
        ((bb & NOT_A_FILE) >> 9u64) | ((bb & NOT_H_FILE) >> 7u64)
    }
}

/// The attack ray from `sq` (exclusive) in direction `(df, dr)`, running
/// until the board edge or just past the first occupied square; `fuel`
/// bounds the walk.
pub open spec fn spec_ray(sq: int, df: int, dr: int, occ: u64, fuel: nat) -> u64
    decreases fuel,
{
    if fuel == 0 {
        0u64
    } else {
        let f = sq % 8 + df;
        let r = sq / 8 + dr;
        if f < 0 || f > 7 || r < 0 || r > 7 {
            0u64
        } else {
            let t = r * 8 + f;
            (1u64 << (t as u64)) | (if has_sq(occ, t) {
                0u64
            } else {
                spec_ray(t, df, dr, occ, (fuel - 1) as nat)
            })
        }
    }
}

/// Walk one sliding ray.
#[verifier::rlimit(60)]
pub fn ray_attacks(sq: u8, df: i8, dr: i8, occ: u64) -> (res: u64)
    requires
        sq < 64,
        -1 <= df <= 1,
        -1 <= dr <= 1,
    ensures
        res == spec_ray(sq as int, df as int, dr as int, occ, 8),
{
    let ghost full: u64 = spec_ray(sq as int, df as int, dr as int, occ, 8);
    let mut acc: u64 = 0;
    let mut f: i8 = (sq % 8) as i8;
    let mut r: i8 = (sq / 8) as i8;
    let mut fuel: u8 = 8;
    proof {
        crate::bits::lemma_or_algebra();
    }
    loop
        invariant
            -1 <= df <= 1,
            -1 <= dr <= 1,
            0 <= f <= 7,
            0 <= r <= 7,
            fuel <= 8,
            full == spec_ray(sq as int, df as int, dr as int, occ, 8),
            full == acc | spec_ray(r * 8 + f, df as int, dr as int, occ, fuel as nat),
        ensures
            acc == full,
        decreases fuel,
    {
        proof {
            crate::bits::lemma_or_algebra();
        }
        let nf: i8 = f + df;
        let nr: i8 = r + dr;
        if nf < 0 || nf > 7 || nr < 0 || nr > 7 || fuel == 0 {
            proof {
                assert(spec_ray(r * 8 + f, df as int, dr as int, occ, fuel as nat) == 0u64);
            }
            break ;
        }
        let t: u8 = (nr * 8 + nf) as u8;
        let tb: u64 = sq_bb(t);
        proof {
            let cur = r * 8 + f;
            let rest = if has_sq(occ, t as int) {
                0u64
            } else {
                spec_ray(t as int, df as int, dr as int, occ, (fuel - 1) as nat)
            };
            assert(spec_ray(cur, df as int, dr as int, occ, fuel as nat) == tb | rest);
            crate::bits::lemma_test_bit(occ, t as u64);
        }
        acc = acc | tb;
        if (occ & tb) != 0 {
            proof {
                assert(has_sq(occ, t as int));
            }
            break ;
        }
        proof {
            assert(!has_sq(occ, t as int));
        }
        f = nf;
        r = nr;
        fuel = fuel - 1;
    }
    acc
}

pub open spec fn spec_bishop_attacks(sq: int, occ: u64) -> u64 {
    spec_ray(sq, 1, 1, occ, 8) | spec_ray(sq, 1, -1, occ, 8) | spec_ray(sq, -1, 1, occ, 8)
        | spec_ray(sq, -1, -1, occ, 8)
}

/// Diagonal sliding attacks from `sq` over occupancy `occ`.
pub fn bishop_attacks(sq: u8, occ: u64) -> (r: u64)
    requires
        sq < 64,
    ensures
        r == spec_bishop_attacks(sq as int, occ),
{
    ray_attacks(sq, 1, 1, occ) | ray_attacks(sq, 1, -1, occ) | ray_attacks(sq, -1, 1, occ)
        | ray_attacks(sq, -1, -1, occ)
}

pub open spec fn spec_rook_attacks(sq: int, occ: u64) -> u64 {
    spec_ray(sq, 1, 0, occ, 8) | spec_ray(sq, -1, 0, occ, 8) | spec_ray(sq, 0, 1, occ, 8)
        | spec_ray(sq, 0, -1, occ, 8)
}

/// Straight sliding attacks from `sq` over occupancy `occ`.
pub fn rook_attacks(sq: u8, occ: u64) -> (r: u64)
    requires
        sq < 64,
    ensures
        r == spec_rook_attacks(sq as int, occ),
{
    ray_attacks(sq, 1, 0, occ) | ray_attacks(sq, -1, 0, occ) | ray_attacks(sq, 0, 1, occ)
        | ray_attacks(sq, 0, -1, occ)
}

pub open spec fn spec_queen_attacks(sq: int, occ: u64) -> u64 {
    spec_bishop_attacks(sq, occ) | spec_rook_attacks(sq, occ)
}

/// Queen attacks from `sq` over occupancy `occ`.
pub fn queen_attacks(sq: u8, occ: u64) -> (r: u64)
    requires
        sq < 64,
    ensures
        r == spec_queen_attacks(sq as int, occ),
{
    bishop_attacks(sq, occ) | rook_attacks(sq, occ)
}

/// Sign of an integer as a step direction.
pub open spec fn spec_sign(a: int) -> int {
    if a > 0 {
        1
    } else if a < 0 {
        -1
    } else {
        0
    }
}

/// Walk from `sq` in direction `(df, dr)` collecting squares until `target`,
/// the board edge, or exhausted `fuel`; `target` itself is not collected.
pub open spec fn spec_walk_to(sq: int, df: int, dr: int, target: int, fuel: nat) -> u64
    decreases fuel,
{
    if fuel == 0 {
        0u64
    } else {
        let f = sq % 8 + df;
        let r = sq / 8 + dr;
        if f < 0 || f > 7 || r < 0 || r > 7 {
            0u64
        } else {
            let t = r * 8 + f;
            if t == target {
                0u64
            } else {
                (1u64 << (t as u64)) | spec_walk_to(t, df, dr, target, (fuel - 1) as nat)
            }
        }
    }
}

/// Whether two distinct squares share a rank, a file or a diagonal.
pub open spec fn spec_aligned(a: int, b: int) -> bool {
    let df = b % 8 - a % 8;
    let dr = b / 8 - a / 8;
    (df == 0 || dr == 0 || df == dr || df == -dr) && !(df == 0 && dr == 0)
}

/// The squares strictly between two aligned squares; empty otherwise.
pub open spec fn spec_between(a: int, b: int) -> u64 {
    if spec_aligned(a, b) {
        spec_walk_to(a, spec_sign(b % 8 - a % 8), spec_sign(b / 8 - a / 8), b, 8)
    } else {
        0u64
    }
}

/// The open line segment between `a` and `b`: the squares a sliding piece
/// would cross moving from one to the other. Empty when the squares do not
/// share a rank, file or diagonal.
pub fn between(a: u8, b: u8) -> (res: u64)
    requires
        a < 64,
        b < 64,
    ensures
        res == spec_between(a as int, b as int),
{
    let af: i8 = (a % 8) as i8;
    let ar: i8 = (a / 8) as i8;
    let bf: i8 = (b % 8) as i8;
    let br: i8 = (b / 8) as i8;
    let fd: i8 = bf - af;
    let rd: i8 = br - ar;
    if (fd == 0 && rd == 0) || !(fd == 0 || rd == 0 || fd == rd || fd == -rd) {
        return 0;
    }
    let df: i8 = if fd > 0 {
        1
    } else if fd < 0 {
        -1
    } else {
        0
    };
    let dr: i8 = if rd > 0 {
        1
    } else if rd < 0 {
        -1
    } else {
        0
    };
    let ghost full: u64 = spec_between(a as int, b as int);
    proof {
        crate::bits::lemma_or_algebra();
    }
    let mut acc: u64 = 0;
    let mut f: i8 = af;
    let mut r: i8 = ar;
    let mut fuel: u8 = 8;
    loop
        invariant
            -1 <= df <= 1,
            -1 <= dr <= 1,
            0 <= f <= 7,
            0 <= r <= 7,
            fuel <= 8,
            full == spec_between(a as int, b as int),
            full == acc | spec_walk_to(r * 8 + f, df as int, dr as int, b as int, fuel as nat),
        ensures
            acc == full,
        decreases fuel,
    {
        proof {
            crate::bits::lemma_or_algebra();
        }
        let nf: i8 = f + df;
        let nr: i8 = r + dr;
        if nf < 0 || nf > 7 || nr < 0 || nr > 7 || fuel == 0 {
            proof {
                assert(spec_walk_to(r * 8 + f, df as int, dr as int, b as int, fuel as nat)
                    == 0u64);
            }
            break ;
        }
        let t: u8 = (nr * 8 + nf) as u8;
        if t == b {
            break ;
        }
        let tb: u64 = sq_bb(t);
        acc = acc | tb;
        f = nf;
        r = nr;
        fuel = fuel - 1;
    }
    acc
}

/// The closure folding bishop rays over an occupancy.
pub open spec fn bishop_f(occ: u64) -> spec_fn(int) -> u64 {
    |s: int| spec_bishop_attacks(s, occ)
}

/// The closure folding rook rays over an occupancy.
pub open spec fn rook_f(occ: u64) -> spec_fn(int) -> u64 {
    |s: int| spec_rook_attacks(s, occ)
}

/// Union over the first `n` squares of `bb` of a per-square set.
pub open spec fn union_fold(f: spec_fn(int) -> u64, bb: u64, n: int) -> u64
    decreases n,
{
    if n <= 0 {
        0u64
    } else {
        union_fold(f, bb, n - 1) | (if has_sq(bb, n - 1) {
            f(n - 1)
        } else {
            0u64
        })
    }
}

} // verus!
