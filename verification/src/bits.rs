//! Squares and bitboards.
//!
//! A square is a number 0..64: file = square mod 8, rank = square div 8,
//! rank 0 being White's back rank. A bitboard is a `u64` holding one bit per
//! square. This module gives the square arithmetic, the membership predicate
//! `has_sq`, and the lemmas that relate membership to the bitwise operators.
use vstd::prelude::*;

verus! {

/// True iff square `sq` is a member of bitboard `bb`.
pub open spec fn has_sq(bb: u64, sq: int) -> bool {
    0 <= sq < 64 && (bb >> (sq as u64)) & 1u64 == 1u64
}

/// True iff `bb` has exactly one bit set.
pub open spec fn is_single_bit(bb: u64) -> bool {
    exists|s: int| 0 <= s < 64 && bb == #[trigger] (1u64 << (s as u64))
}

pub open spec fn sq_file_spec(sq: u8) -> u8 {
    (sq % 8) as u8
}

pub open spec fn sq_rank_spec(sq: u8) -> u8 {
    (sq / 8) as u8
}

/// Membership distributes over the boolean operators.
pub proof fn lemma_bit_ops(a: u64, b: u64)
    by (bit_vector)
    ensures
        forall|s: u64| s < 64 ==> (((a | b) >> s) & 1u64 == 1u64 <==> ((a >> s) & 1u64 == 1u64)
            || ((b >> s) & 1u64 == 1u64)),
        forall|s: u64| s < 64 ==> (((a & b) >> s) & 1u64 == 1u64 <==> ((a >> s) & 1u64 == 1u64)
            && ((b >> s) & 1u64 == 1u64)),
        forall|s: u64| s < 64 ==> (((a ^ b) >> s) & 1u64 == 1u64 <==> (((a >> s) & 1u64 == 1u64)
            != ((b >> s) & 1u64 == 1u64))),
        forall|s: u64| s < 64 ==> (((!a) >> s) & 1u64 == 1u64 <==> !((a >> s) & 1u64 == 1u64)),
{
}

/// A one-bit mask holds exactly its own square.
pub proof fn lemma_single_bit(t: u64)
    by (bit_vector)
    requires
        t < 64,
    ensures
        forall|s: u64| s < 64 ==> (((1u64 << t) >> s) & 1u64 == 1u64 <==> s == t),
{
}

/// Testing a square's one-bit mask against a bitboard is testing membership.
pub proof fn lemma_test_bit(bb: u64, t: u64)
    by (bit_vector)
    requires
        t < 64,
    ensures
        (bb & (1u64 << t) != 0) <==> ((bb >> t) & 1u64 == 1u64),
{
}

/// Union of bitboards is associative and commutative with 0 as unit.
pub proof fn lemma_or_algebra()
    by (bit_vector)
    ensures
        forall|a: u64, b: u64| #[trigger] (a | b) == b | a,
        forall|a: u64, b: u64, c: u64| #[trigger] ((a | b) | c) == a | (b | c),
        forall|a: u64| #[trigger] (a | 0u64) == a,
        forall|a: u64| #[trigger] (a | a) == a,
{
}

pub fn sq_file(sq: u8) -> (r: u8)
    ensures
        r == sq_file_spec(sq),
{
    sq % 8
}

pub fn sq_rank(sq: u8) -> (r: u8)
    requires
        sq < 64,
    ensures
        r == sq_rank_spec(sq),
{
    sq / 8
}

/// Mirror a square vertically (the Black-relative view of the board).
pub fn sq_flip(sq: u8) -> (r: u8)
    requires
        sq < 64,
    ensures
        r < 64,
        r == 8 * (7 - sq_rank_spec(sq)) + sq_file_spec(sq),
{
    let r: u8 = 8 * (7 - sq / 8) + sq % 8;
    r
}

/// The one-bit mask of a square.
pub fn sq_bb(sq: u8) -> (r: u64)
    requires
        sq < 64,
    ensures
        r == (1u64 << (sq as u64)),
        forall|s: int| has_sq(r, s) <==> s == sq,
        is_single_bit(r),
{
    proof {
        lemma_single_bit(sq as u64);
    }
    1u64 << (sq as u64)
}

/// Whether `bb` holds exactly one square.
pub fn single_bit(bb: u64) -> (r: bool)
    ensures
        r == is_single_bit(bb),
{
    if bb == 0 {
        proof {
            assert forall|s: int| 0 <= s < 64 implies bb != #[trigger] (1u64 << (s as u64)) by {
                let t = s as u64;
                assert(1u64 << t != 0u64) by (bit_vector)
                    requires
                        t < 64,
                ;
            }
        }
        return false;
    }
    let t = first_square(bb);
    let m = sq_bb(t);
    if bb == m {
        true
    } else {
        proof {
            if is_single_bit(bb) {
                let s = choose|s: int| 0 <= s < 64 && bb == #[trigger] (1u64 << (s as u64));
                lemma_single_bit(s as u64);
                assert(has_sq(bb, t as int));
                assert(s == t);
            }
        }
        false
    }
}

/// The lowest square of a bitboard, or 64 if it is empty.
pub fn first_square(bb: u64) -> (r: u8)
    ensures
        r <= 64,
        bb == 0 <==> r == 64,
        r < 64 ==> has_sq(bb, r as int),
        forall|s: int| 0 <= s < r ==> !has_sq(bb, s),
{
    proof {
        vstd::std_specs::bits::axiom_u64_trailing_zeros(bb);
    }
    bb.trailing_zeros() as u8
}

/// Remove the lowest set bit.
pub fn pop_lowest(bb: u64) -> (r: u64)
    requires
        bb != 0,
    ensures
        forall|s: int| #[trigger] has_sq(r, s) <==> has_sq(bb, s) && s
            != vstd::std_specs::bits::u64_trailing_zeros(bb),
        r < bb,
{
    proof {
        vstd::std_specs::bits::axiom_u64_trailing_zeros(bb);
        let t = vstd::std_specs::bits::u64_trailing_zeros(bb) as u64;
        lemma_single_bit(t);
        lemma_bit_ops(bb, 1u64 << t);
        assert((bb >> t) & 1u64 == 1u64 && t < 64 ==> (bb ^ (1u64 << t)) < bb) by (bit_vector);
    }
    bb ^ (1u64 << (bb.trailing_zeros() as u64))
}

} // verus!
