//! Zobrist keys.
//!
//! The key table has `64*6*2 + 1 + 16 + 8 = 793` pseudorandom values: one per
//! (piece, color, square), one for the side to move, sixteen for the castling
//! right combinations and eight for the en-passant files. The values come from
//! a fixed-seed bit mixer, so they are the same in every run, and are computed
//! on demand instead of being stored.
use vstd::prelude::*;

use crate::bits::has_sq;
use crate::types::{Color, Piece};

verus! {

pub const ZOBRIST_PLAYER_INDEX: u64 = 768;

pub const ZOBRIST_CASTLING_INDEX: u64 = 769;

pub const ZOBRIST_EP_INDEX: u64 = 785;

/// The `i`-th Zobrist key: a fixed-seed splitmix-style mix of `i`.
pub open spec fn z_num(i: u64) -> u64 {
    let a = vstd::wrapping::u64_specs::wrapping_mul(
        vstd::wrapping::u64_specs::wrapping_add(i, 0x9E3779B97F4A7C15),
        0xBF58476D1CE4E5B9,
    );
    let b = vstd::wrapping::u64_specs::wrapping_mul(a ^ (a >> 30u64), 0x94D049BB133111EB);
    let c = vstd::wrapping::u64_specs::wrapping_mul(b ^ (b >> 27u64), 0xFF51AFD7ED558CCD);
    c ^ (c >> 31u64)
}

fn z_num_exec(i: u64) -> (r: u64)
    ensures
        r == z_num(i),
{
    let a: u64 = i.wrapping_add(0x9E3779B97F4A7C15).wrapping_mul(0xBF58476D1CE4E5B9);
    let b: u64 = (a ^ (a >> 30u64)).wrapping_mul(0x94D049BB133111EB);
    let c: u64 = (b ^ (b >> 27u64)).wrapping_mul(0xFF51AFD7ED558CCD);
    c ^ (c >> 31u64)
}

pub open spec fn spec_zobrist_piece(color: Color, piece: Piece, sq: int) -> u64 {
    z_num((128 * piece.spec_idx() + 64 * color.spec_idx() + sq) as u64)
}

/// Key for `piece` of `color` standing on `sq`.
pub fn zobrist_piece(color: Color, piece: Piece, sq: u8) -> (r: u64)
    requires
        sq < 64,
    ensures
        r == spec_zobrist_piece(color, piece, sq as int),
{
    let idx: u64 = 128 * (piece.idx() as u64) + 64 * (color.idx() as u64) + sq as u64;
    z_num_exec(idx)
}

pub open spec fn spec_zobrist_player() -> u64 {
    z_num(ZOBRIST_PLAYER_INDEX)
}

/// Key xored in while Black is to move.
pub fn zobrist_player() -> (r: u64)
    ensures
        r == spec_zobrist_player(),
{
    z_num_exec(ZOBRIST_PLAYER_INDEX)
}

/// The 4-bit castling-rights pattern: one bit per right still present.
pub open spec fn spec_castling_pattern(castles: [[u64; 2]; 2]) -> int {
    (if castles[0][0] != 0 {
        1int
    } else {
        0int
    }) + (if castles[0][1] != 0 {
        2int
    } else {
        0int
    }) + (if castles[1][0] != 0 {
        4int
    } else {
        0int
    }) + (if castles[1][1] != 0 {
        8int
    } else {
        0int
    })
}

pub open spec fn spec_zobrist_castling(castles: [[u64; 2]; 2]) -> u64 {
    z_num((ZOBRIST_CASTLING_INDEX + spec_castling_pattern(castles)) as u64)
}

/// Key for the current castling-rights combination.
pub fn zobrist_castling(castles: &[[u64; 2]; 2]) -> (r: u64)
    ensures
        r == spec_zobrist_castling(*castles),
{
    let mut idx: u64 = ZOBRIST_CASTLING_INDEX;
    if castles[0][0] != 0 {
        idx = idx + 1;
    }
    if castles[0][1] != 0 {
        idx = idx + 2;
    }
    if castles[1][0] != 0 {
        idx = idx + 4;
    }
    if castles[1][1] != 0 {
        idx = idx + 8;
    }
    z_num_exec(idx)
}

/// The file of the lowest square of `mask`, with an empty mask giving file 0.
pub open spec fn spec_ep_file(mask: u64) -> int {
    (vstd::std_specs::bits::u64_trailing_zeros(mask) % 8) as int
}

pub open spec fn spec_zobrist_ep(mask: u64) -> u64 {
    z_num((ZOBRIST_EP_INDEX + spec_ep_file(mask)) as u64)
}

/// Key for the en-passant file of `mask`. An empty mask hashes like file 0,
/// as the reference table layout does.
pub fn zobrist_ep(mask: u64) -> (r: u64)
    ensures
        r == spec_zobrist_ep(mask),
{
    proof {
        vstd::std_specs::bits::axiom_u64_trailing_zeros(mask);
    }
    let file: u64 = (mask.trailing_zeros() % 8) as u64;
    z_num_exec(ZOBRIST_EP_INDEX + file)
}

/// XOR is associative and commutative, with 0 as unit and every value its own
/// inverse.
pub proof fn lemma_xor_algebra()
    by (bit_vector)
    ensures
        forall|a: u64, b: u64| #[trigger] (a ^ b) == b ^ a,
        forall|a: u64, b: u64, c: u64| #[trigger] ((a ^ b) ^ c) == a ^ (b ^ c),
        forall|a: u64| #[trigger] (a ^ 0u64) == a,
        forall|a: u64| #[trigger] (a ^ a) == 0u64,
{
}

/// XORing two values by one same delta leaves their XOR unchanged.
pub proof fn lemma_xor_same_delta(h: u64, p: u64, z: u64)
    by (bit_vector)
    ensures
        (h ^ z) ^ (p ^ z) == h ^ p,
{
}

/// XORing two values by two same deltas leaves their XOR unchanged.
pub proof fn lemma_xor_same_delta2(h: u64, p: u64, z1: u64, z2: u64)
    by (bit_vector)
    ensures
        ((h ^ z1) ^ z2) ^ ((p ^ z1) ^ z2) == h ^ p,
{
}

/// XOR of the piece keys of the first `n` squares of `bb`.
pub open spec fn piece_fold(color: Color, piece: Piece, bb: u64, n: int) -> u64
    decreases n,
{
    if n <= 0 {
        0u64
    } else {
        piece_fold(color, piece, bb, n - 1) ^ (if has_sq(bb, n - 1) {
            spec_zobrist_piece(color, piece, n - 1)
        } else {
            0u64
        })
    }
}

/// The full piece-key XOR of a bitboard.
pub open spec fn piece_hash(color: Color, piece: Piece, bb: u64) -> u64 {
    piece_fold(color, piece, bb, 64)
}

proof fn lemma_fold_toggle_up_to(color: Color, piece: Piece, bb: u64, s: u64, n: int)
    requires
        s < 64,
    ensures
        piece_fold(color, piece, bb ^ (1u64 << s), n) == piece_fold(color, piece, bb, n) ^ (if s
            < n {
            spec_zobrist_piece(color, piece, s as int)
        } else {
            0u64
        }),
    decreases n,
{
    lemma_xor_algebra();
    crate::bits::lemma_single_bit(s);
    crate::bits::lemma_bit_ops(bb, 1u64 << s);
    if n <= 0 {
    } else {
        lemma_fold_toggle_up_to(color, piece, bb, s, n - 1);
    }
}

/// Toggling one square of a bitboard toggles exactly that square's key in the
/// bitboard's piece-key XOR.
pub proof fn lemma_piece_hash_toggle(color: Color, piece: Piece, bb: u64, s: u64)
    requires
        s < 64,
    ensures
        piece_hash(color, piece, bb ^ (1u64 << s)) == piece_hash(color, piece, bb)
            ^ spec_zobrist_piece(color, piece, s as int),
{
    lemma_fold_toggle_up_to(color, piece, bb, s, 64);
}

/// Toggling two distinct squares of a bitboard toggles both keys.
pub proof fn lemma_piece_hash_toggle2(color: Color, piece: Piece, bb: u64, a: u64, b: u64)
    requires
        a < 64,
        b < 64,
        a != b,
    ensures
        piece_hash(color, piece, bb ^ ((1u64 << a) | (1u64 << b))) == piece_hash(color, piece, bb)
            ^ spec_zobrist_piece(color, piece, a as int) ^ spec_zobrist_piece(
            color,
            piece,
            b as int,
        ),
{
    lemma_xor_algebra();
    assert(a != b ==> (1u64 << a) | (1u64 << b) == (1u64 << a) ^ (1u64 << b)) by (bit_vector);
    assert(bb ^ ((1u64 << a) | (1u64 << b)) == (bb ^ (1u64 << a)) ^ (1u64 << b));
    lemma_piece_hash_toggle(color, piece, bb, a);
    lemma_piece_hash_toggle(color, piece, bb ^ (1u64 << a), b);
}

} // verus!
