//! Packed moves, move lists and the principal variation.
use vstd::prelude::*;

use crate::types::Piece;

verus! {

/// Flag value for an ordinary move.
pub const FLAG_NONE: u16 = 0;

/// Flag value for an en-passant capture.
pub const FLAG_EP: u16 = 1;

/// Flag value for castling (`to` holds the rook's origin square).
pub const FLAG_CASTLE: u16 = 2;

/// Flag value for a promotion (bits 12..14 hold the piece).
pub const FLAG_PROMO: u16 = 3;

/// A move packed into 16 bits: bits 0..6 the origin square, bits 6..12 the
/// target square, bits 12..14 the promotion piece minus one, bits 14..16 the
/// flags. The all-zero value is the null move.
#[derive(Copy, Clone, Debug, PartialEq, Eq, Structural)]
pub struct Move(pub u16);

pub open spec fn mv_from(m: u16) -> int {
    (m % 64) as int
}

pub open spec fn mv_to(m: u16) -> int {
    ((m / 64) % 64) as int
}

pub open spec fn mv_flags(m: u16) -> int {
    (m / 16384) as int
}

pub open spec fn mv_promo_bits(m: u16) -> int {
    ((m / 4096) % 4) as int
}

pub open spec fn mv_promo(m: u16) -> Option<Piece> {
    if mv_flags(m) == FLAG_PROMO {
        Some(Piece::spec_from_index((mv_promo_bits(m) + 1) as u8))
    } else {
        None
    }
}

impl Move {
    pub open spec fn spec_from(self) -> int {
        mv_from(self.0)
    }

    pub open spec fn spec_to(self) -> int {
        mv_to(self.0)
    }

    pub open spec fn spec_promo(self) -> Option<Piece> {
        mv_promo(self.0)
    }

    pub open spec fn spec_is_castling(self) -> bool {
        mv_flags(self.0) == FLAG_CASTLE
    }

    pub open spec fn spec_is_ep(self) -> bool {
        mv_flags(self.0) == FLAG_EP
    }

    pub open spec fn spec_is_null(self) -> bool {
        self.0 == 0
    }

    /// The null move.
    pub fn null() -> (r: Self)
        ensures
            r.0 == 0,
            r.spec_is_null(),
    {
        Move(0)
    }

    /// Pack an ordinary or promoting move.
    pub fn new(from: u8, to: u8, promo: Option<Piece>) -> (r: Self)
        requires
            from < 64,
            to < 64,
            promo != Some(Piece::Pawn),
            promo != Some(Piece::King),
        ensures
            r.spec_from() == from,
            r.spec_to() == to,
            r.spec_promo() == promo,
            promo is Some ==> mv_flags(r.0) == FLAG_PROMO,
            promo is None ==> mv_flags(r.0) == FLAG_NONE,
    {
        let mut inner: u16 = from as u16 + 64 * (to as u16);
        if let Some(p) = promo {
            let pbits: u16 = (p.idx() as u16) - 1;
            inner = inner + 4096 * pbits + 16384 * FLAG_PROMO;
            assert(inner % 64 == from && (inner / 64) % 64 == to && inner / 16384 == FLAG_PROMO
                && (inner / 4096) % 4 == pbits) by (bit_vector)
                requires
                    inner == from + 64 * (to as u16) + 4096 * pbits + 16384 * 3,
                    from < 64,
                    to < 64,
                    pbits < 4,
            ;
        } else {
            assert(inner % 64 == from && (inner / 64) % 64 == to && inner / 16384 == 0 && (inner
                / 4096) % 4 == 0) by (bit_vector)
                requires
                    inner == from + 64 * (to as u16),
                    from < 64,
                    to < 64,
            ;
        }
        Move(inner)
    }

    /// Pack a castling move; `to` is the rook's origin square.
    pub fn new_castle(from: u8, to: u8) -> (r: Self)
        requires
            from < 64,
            to < 64,
        ensures
            r.spec_from() == from,
            r.spec_to() == to,
            r.spec_is_castling(),
            r.spec_promo() is None,
    {
        let inner: u16 = from as u16 + 64 * (to as u16) + 16384 * FLAG_CASTLE;
        assert(inner % 64 == from && (inner / 64) % 64 == to && inner / 16384 == 2) by (bit_vector)
            requires
                inner == from + 64 * (to as u16) + 16384 * 2,
                from < 64,
                to < 64,
        ;
        Move(inner)
    }

    /// Pack an en-passant capture.
    pub fn new_ep(from: u8, to: u8) -> (r: Self)
        requires
            from < 64,
            to < 64,
        ensures
            r.spec_from() == from,
            r.spec_to() == to,
            r.spec_is_ep(),
            r.spec_promo() is None,
    {
        let inner: u16 = from as u16 + 64 * (to as u16) + 16384 * FLAG_EP;
        assert(inner % 64 == from && (inner / 64) % 64 == to && inner / 16384 == 1) by (bit_vector)
            requires
                inner == from + 64 * (to as u16) + 16384 * 1,
                from < 64,
                to < 64,
        ;
        Move(inner)
    }

    /// Origin square.
    pub fn from(&self) -> (r: u8)
        ensures
            r == self.spec_from(),
            r < 64,
    {
        (self.0 % 64) as u8
    }

    /// Target square (for castling: the rook's origin square).
    pub fn to(&self) -> (r: u8)
        ensures
            r == self.spec_to(),
            r < 64,
    {
        ((self.0 / 64) % 64) as u8
    }

    /// The promotion piece, if the promotion flag is set.
    pub fn promo(&self) -> (r: Option<Piece>)
        ensures
            r == self.spec_promo(),
    {
        if self.0 / 16384 == FLAG_PROMO {
            let bits: u8 = ((self.0 / 4096) % 4) as u8;
            Some(Piece::from_index(bits + 1))
        } else {
            None
        }
    }

    pub fn is_castling(&self) -> (r: bool)
        ensures
            r == self.spec_is_castling(),
    {
        self.0 / 16384 == FLAG_CASTLE
    }

    pub fn is_ep(&self) -> (r: bool)
        ensures
            r == self.spec_is_ep(),
    {
        self.0 / 16384 == FLAG_EP
    }

    pub fn is_null(&self) -> (r: bool)
        ensures
            r == self.spec_is_null(),
    {
        self.0 == 0
    }
}

impl Default for Move {
    /// The null move.
    fn default() -> (r: Self)
        ensures
            r.0 == 0,
    {
        Move(0)
    }
}

/// A move waiting in a move list, with its ordering score.
#[derive(Copy, Clone, Debug)]
pub struct MoveListEntry {
    pub mv: Move,
    pub score: i16,
}

/// A list of scored moves with lazy selection: `next(i)` brings the
/// highest-scored remaining entry to slot `i` and returns it.
#[derive(Clone, Debug)]
pub struct MoveList {
    pub entries: Vec<MoveListEntry>,
}

impl MoveList {
    pub open spec fn moves(&self) -> Seq<Move> {
        self.entries@.map(|_i: int, e: MoveListEntry| e.mv)
    }

    pub fn new() -> (r: Self)
        ensures
            r.entries@.len() == 0,
    {
        MoveList { entries: Vec::new() }
    }

    pub open spec fn spec_len(&self) -> usize {
        self.entries.len()
    }

    #[verifier::when_used_as_spec(spec_len)]
    pub fn len(&self) -> (r: usize)
        ensures
            r == self.entries@.len(),
    {
        self.entries.len()
    }

    /// Append a move with score 0.
    pub fn push(&mut self, mv: Move)
        ensures
            final(self).entries@ == old(self).entries@.push(MoveListEntry { mv, score: 0 }),
            final(self).moves() == old(self).moves().push(mv),
    {
        self.entries.push(MoveListEntry { mv, score: 0 });
        proof {
            assert(final(self).moves() =~= old(self).moves().push(mv));
        }
    }

    pub fn clear(&mut self)
        ensures
            final(self).entries@.len() == 0,
    {
        self.entries.clear();
    }

    pub fn get(&self, i: usize) -> (r: Option<MoveListEntry>)
        ensures
            i < self.entries@.len() ==> r == Some(self.entries@[i as int]),
            i >= self.entries@.len() ==> r is None,
    {
        if i < self.entries.len() {
            Some(self.entries[i])
        } else {
            None
        }
    }

    /// The move at index `i`.
    pub fn get_move(&self, i: usize) -> (r: Move)
        requires
            i < self.entries@.len(),
        ensures
            r == self.moves()[i as int],
    {
        self.entries[i].mv
    }

    /// Overwrite the score of entry `i`.
    pub fn set_score(&mut self, i: usize, score: i16)
        requires
            i < old(self).entries@.len(),
        ensures
            final(self).entries@ == old(self).entries@.update(
                i as int,
                MoveListEntry { mv: old(self).entries@[i as int].mv, score },
            ),
            final(self).moves() =~= old(self).moves(),
    {
        let mv = self.entries[i].mv;
        self.entries.set(i, MoveListEntry { mv, score });
        proof {
            assert(final(self).moves() =~= old(self).moves());
        }
    }

    /// Selection step: swap the highest-scored entry of `entries[index..]`
    /// into slot `index` and return it; `None` once `index` is past the end.
    /// The list keeps the same entries, only reordered.
    pub fn next(&mut self, index: usize) -> (r: Option<MoveListEntry>)
        ensures
            index >= old(self).entries@.len() ==> r is None && *final(self) == *old(self),
            index < old(self).entries@.len() ==> {
                &&& r is Some
                &&& exists|j: int|
                    #![auto]
                    index <= j < old(self).entries@.len() && r == Some(old(self).entries@[j])
                        && final(self).entries@ =~= old(self).entries@.update(
                        index as int,
                        old(self).entries@[j],
                    ).update(j, old(self).entries@[index as int]) && (forall|k: int|
                        index <= k < old(self).entries@.len() ==> old(
                            self,
                        ).entries@[k].score as int <= old(self).entries@[j].score)
            },
    {
        if index >= self.entries.len() {
            return None;
        }
        let ghost orig = self.entries@;
        let mut best_score: i16 = self.entries[index].score;
        let mut best_index: usize = index;

        let mut i: usize = index + 1;
        while i < self.entries.len()
            invariant
                index < i,
                index <= best_index < self.entries@.len(),
                i <= self.entries@.len() || i == index + 1,
                self.entries@ == orig,
                best_score == orig[best_index as int].score,
                forall|k: int| index <= k < i && k < orig.len() ==> orig[k].score <= best_score,
            decreases self.entries@.len() - i,
        {
            let score = self.entries[i].score;
            if score >= best_score {
                best_score = score;
                best_index = i;
            }
            i = i + 1;
        }

        let a = self.entries[index];
        let b = self.entries[best_index];
        self.entries.set(index, b);
        self.entries.set(best_index, a);

        Some(b)
    }
}

/// The line of best play found under a node, updated back-to-front.
#[derive(Clone, Debug)]
pub struct PrincipalVariation {
    pub moves: Vec<Move>,
}

impl PrincipalVariation {
    pub fn new() -> (r: Self)
        ensures
            r.moves@.len() == 0,
    {
        PrincipalVariation { moves: Vec::new() }
    }

    /// Replace this line by `mv` followed by `rest`.
    pub fn update_with(&mut self, mv: Move, rest: &PrincipalVariation)
        ensures
            final(self).moves@ =~= seq![mv] + rest.moves@,
    {
        self.moves.clear();
        self.moves.push(mv);
        let mut i: usize = 0;
        while i < rest.moves.len()
            invariant
                i <= rest.moves@.len(),
                self.moves@ =~= seq![mv] + rest.moves@.subrange(0, i as int),
            decreases rest.moves@.len() - i,
        {
            self.moves.push(rest.moves[i]);
            proof {
                assert(self.moves@ =~= seq![mv] + rest.moves@.subrange(0, i + 1 as int));
            }
            i = i + 1;
        }
        proof {
            assert(rest.moves@.subrange(0, rest.moves@.len() as int) =~= rest.moves@);
        }
    }

    pub fn clear(&mut self)
        ensures
            final(self).moves@.len() == 0,
    {
        self.moves.clear();
    }

    pub open spec fn spec_len(&self) -> usize {
        self.moves.len()
    }

    #[verifier::when_used_as_spec(spec_len)]
    pub fn len(&self) -> (r: usize)
        ensures
            r == self.moves@.len(),
    {
        self.moves.len()
    }

    /// The move at index `i` of the line.
    pub fn get(&self, i: usize) -> (r: Move)
        requires
            i < self.moves@.len(),
        ensures
            r == self.moves@[i as int],
    {
        self.moves[i]
    }
}

} // verus!
