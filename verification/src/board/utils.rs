//! Attack sets, occupancy queries and from-scratch key recomputation.
use vstd::prelude::*;

use crate::attacks::{
    bishop_attacks, bishop_f, king_attacks, knight_attacks, pawn_attacks_mask, rook_attacks,
    rook_f, spec_bishop_attacks, spec_king_attacks, spec_knight_attacks, spec_pawn_attacks,
    spec_rook_attacks, union_fold, SECOND_RANK, SEVENTH_RANK,
};
use crate::bits::{has_sq, lemma_test_bit, sq_bb};
use crate::board::Board;
use crate::moves::Move;
use crate::types::{Color, Piece};
use crate::zobrist::{
    lemma_xor_algebra, piece_fold, piece_hash, zobrist_castling, zobrist_ep, zobrist_piece,
    zobrist_player,
};

verus! {

impl Board {
    /// Every occupied square.
    pub fn all_pieces(&self) -> (r: u64)
        ensures
            r == self.spec_all_pieces(),
    {
        self.occupied[0] | self.occupied[1]
    }

    /// The two bitboards of one piece kind, White's first.
    pub fn pieces(&self, piece: Piece) -> (r: [u64; 2])
        ensures
            r[0] == self.bb(Color::White, piece),
            r[1] == self.bb(Color::Black, piece),
    {
        match piece {
            Piece::Pawn => self.pawns,
            Piece::Knight => self.knights,
            Piece::Bishop => self.bishops,
            Piece::Rook => self.rooks,
            Piece::Queen => self.queens,
            Piece::King => self.kings,
        }
    }

    pub fn player(&self) -> (r: Color)
        ensures
            r == self.player,
    {
        self.player
    }

    pub fn halfmove_clock(&self) -> (r: u8)
        ensures
            r == self.halfmove_clock,
    {
        self.halfmove_clock
    }

    pub fn hash(&self) -> (r: u64)
        ensures
            r == self.hash,
    {
        self.hash
    }

    pub fn pawn_hash(&self) -> (r: u64)
        ensures
            r == self.pawn_hash,
    {
        self.pawn_hash
    }

    pub fn castles(&self) -> (r: [[u64; 2]; 2])
        ensures
            r == self.castles,
    {
        self.castles
    }

    /// The piece placement and the side to move.
    pub fn contents(&self) -> (r: ([[u64; 2]; 7], Color))
        ensures
            r.0[0] == self.pawns,
            r.0[1] == self.knights,
            r.0[2] == self.bishops,
            r.0[3] == self.rooks,
            r.0[4] == self.queens,
            r.0[5] == self.kings,
            r.0[6] == self.occupied,
            r.1 == self.player,
    {
        (
            [
                self.pawns,
                self.knights,
                self.bishops,
                self.rooks,
                self.queens,
                self.kings,
                self.occupied,
            ],
            self.player,
        )
    }

    /// Attack set of one pawn of `color` standing on `pawn`.
    pub fn pawn_attack(&self, pawn: u8, color: Color) -> (r: u64)
        requires
            pawn < 64,
        ensures
            r == spec_pawn_attacks(1u64 << (pawn as u64), color == Color::White),
    {
        let mask = sq_bb(pawn);
        pawn_attacks_mask(mask, matches!(color, Color::White))
    }

    /// Attack set of all pawns of `color`.
    pub fn pawn_attacks(&self, color: Color) -> (r: u64)
        ensures
            r == spec_pawn_attacks(self.pawns[color.spec_idx() as int], color == Color::White),
    {
        pawn_attacks_mask(self.pawns[color.idx()], matches!(color, Color::White))
    }

    /// Attack set of `color`'s knights.
    pub fn knight_attacks(&self, color: Color) -> (r: u64)
        ensures
            r == spec_knight_attacks(self.knights[color.spec_idx() as int]),
    {
        knight_attacks(self.knights[color.idx()])
    }

    /// Attack set of `color`'s king.
    pub fn king_attacks(&self, color: Color) -> (r: u64)
        ensures
            r == spec_king_attacks(self.kings[color.spec_idx() as int]),
    {
        king_attacks(self.kings[color.idx()])
    }

    /// What `bishop_attacks` returns: the union of the diagonal rays of
    /// `color`'s bishops over `occ`.
    pub open spec fn spec_bishop_attack_set(self, color: Color, occ: u64) -> u64 {
        union_fold(bishop_f(occ), self.bishops[color.spec_idx() as int], 64)
    }

    /// Attack set of `color`'s bishops over occupancy `occ`.
    pub fn bishop_attacks(&self, color: Color, occ: u64) -> (r: u64)
        ensures
            r == self.spec_bishop_attack_set(color, occ),
    {
        fold_bishop_rays(self.bishops[color.idx()], occ)
    }

    /// What `rook_attacks` returns: the union of the straight rays of
    /// `color`'s rooks over `occ`.
    pub open spec fn spec_rook_attack_set(self, color: Color, occ: u64) -> u64 {
        union_fold(rook_f(occ), self.rooks[color.spec_idx() as int], 64)
    }

    /// Attack set of `color`'s rooks over occupancy `occ`.
    pub fn rook_attacks(&self, color: Color, occ: u64) -> (r: u64)
        ensures
            r == self.spec_rook_attack_set(color, occ),
    {
        fold_rook_rays(self.rooks[color.idx()], occ)
    }

    /// What `queen_attacks` returns: both ray families of `color`'s queens
    /// over `occ`.
    pub open spec fn spec_queen_attack_set(self, color: Color, occ: u64) -> u64 {
        union_fold(bishop_f(occ), self.queens[color.spec_idx() as int], 64) | union_fold(
            rook_f(occ),
            self.queens[color.spec_idx() as int],
            64,
        )
    }

    /// Attack set of `color`'s queens over occupancy `occ`.
    pub fn queen_attacks(&self, color: Color, occ: u64) -> (r: u64)
        ensures
            r == self.spec_queen_attack_set(color, occ),
    {
        fold_bishop_rays(self.queens[color.idx()], occ) | fold_rook_rays(
            self.queens[color.idx()],
            occ,
        )
    }

    /// Every square attacked by `color` over the current occupancy: the
    /// union of the attack sets of all six piece kinds.
    pub open spec fn spec_all_attacks(self, color: Color) -> u64 {
        let ci = color.spec_idx() as int;
        let occ = self.spec_all_pieces();
        spec_pawn_attacks(self.pawns[ci], color == Color::White) | spec_knight_attacks(
            self.knights[ci],
        ) | spec_king_attacks(self.kings[ci]) | self.spec_bishop_attack_set(color, occ)
            | self.spec_rook_attack_set(color, occ) | self.spec_queen_attack_set(color, occ)
    }

    /// Every square attacked by `color` over the current occupancy.
    pub fn all_attacks(&self, color: Color) -> (r: u64)
        ensures
            r == self.spec_all_attacks(color),
    {
        let occupied = self.all_pieces();
        self.pawn_attacks(color) | self.knight_attacks(color) | self.king_attacks(color)
            | self.bishop_attacks(color, occupied) | self.rook_attacks(color, occupied)
            | self.queen_attacks(color, occupied)
    }

    /// What `all_attacks_on` returns: each attack set intersected with the
    /// pieces that move that way, of either color.
    pub open spec fn spec_all_attacks_on(self, target: int, occupied: u64) -> u64 {
        let tb = (1u64 << (target as u64));
        (spec_pawn_attacks(tb, true) & self.pawns[1]) | (spec_pawn_attacks(tb, false)
            & self.pawns[0]) | (spec_knight_attacks(tb) & (self.knights[0] | self.knights[1])) | (
        spec_bishop_attacks(target, occupied) & (self.bishops[0] | self.bishops[1] | self.queens[0]
            | self.queens[1])) | (spec_rook_attacks(target, occupied) & (self.rooks[0]
            | self.rooks[1] | self.queens[0] | self.queens[1])) | (spec_king_attacks(tb) & (
        self.kings[0] | self.kings[1]))
    }

    /// Every piece of either color attacking `target` through occupancy
    /// `occupied` (the exchange evaluator probes with a shrinking mask).
    pub fn all_attacks_on(&self, target: u8, occupied: u64) -> (r: u64)
        requires
            target < 64,
        ensures
            r == self.spec_all_attacks_on(target as int, occupied),
    {
        let knights = self.knights[0] | self.knights[1];
        let bishops = self.bishops[0] | self.bishops[1] | self.queens[0] | self.queens[1];
        let rooks = self.rooks[0] | self.rooks[1] | self.queens[0] | self.queens[1];
        let kings = self.kings[0] | self.kings[1];

        (self.pawn_attack(target, Color::White) & self.pawns[1]) | (self.pawn_attack(
            target,
            Color::Black,
        ) & self.pawns[0]) | (knight_attacks(sq_bb(target)) & knights) | (bishop_attacks(
            target,
            occupied,
        ) & bishops) | (rook_attacks(target, occupied) & rooks) | (king_attacks(sq_bb(target))
            & kings)
    }

    /// Push targets of a pawn of the side to move standing on `square`:
    /// the single push when free, and the double push from the home rank
    /// when both squares are free.
    pub fn pawn_pushes(&self, square: u8) -> (r: u64)
        requires
            square < 64,
        ensures
            r == self.spec_pawn_pushes(square as int),
    {
        let empty = !self.all_pieces();
        let mask = sq_bb(square);
        if matches!(self.player, Color::White) {
            let single = (mask << 8u64) & empty;
            let double = (((mask & SECOND_RANK) << 8u64) & empty) << 8u64;
            single | (double & empty)
        } else {
            let single = (mask >> 8u64) & empty;
            let double = (((mask & SEVENTH_RANK) >> 8u64) & empty) >> 8u64;
            single | (double & empty)
        }
    }

    /// What `pawn_pushes` returns.
    pub open spec fn spec_pawn_pushes(self, square: int) -> u64 {
        let empty = !self.spec_all_pieces();
        let mask = (1u64 << (square as u64));
        if self.player == Color::White {
            ((mask << 8u64) & empty) | (((((mask & SECOND_RANK) << 8u64) & empty) << 8u64) & empty)
        } else {
            ((mask >> 8u64) & empty) | (((((mask & SEVENTH_RANK) >> 8u64) & empty) >> 8u64) & empty)
        }
    }

    /// The piece kind standing on `sq`, if any.
    pub open spec fn spec_piece_on(self, sq: int) -> Option<Piece> {
        if !has_sq(self.spec_all_pieces(), sq) {
            None
        } else if has_sq(self.pawns[0] | self.pawns[1], sq) {
            Some(Piece::Pawn)
        } else if has_sq(self.knights[0] | self.knights[1], sq) {
            Some(Piece::Knight)
        } else if has_sq(self.bishops[0] | self.bishops[1], sq) {
            Some(Piece::Bishop)
        } else if has_sq(self.rooks[0] | self.rooks[1], sq) {
            Some(Piece::Rook)
        } else if has_sq(self.queens[0] | self.queens[1], sq) {
            Some(Piece::Queen)
        } else {
            Some(Piece::King)
        }
    }

    /// The piece kind standing on `sq`, if any.
    pub fn piece_on(&self, sq: u8) -> (r: Option<Piece>)
        requires
            sq < 64,
        ensures
            r == self.spec_piece_on(sq as int),
    {
        let mask = sq_bb(sq);
        proof {
            lemma_test_bit(self.spec_all_pieces(), sq as u64);
            lemma_test_bit(self.pawns[0] | self.pawns[1], sq as u64);
            lemma_test_bit(self.knights[0] | self.knights[1], sq as u64);
            lemma_test_bit(self.bishops[0] | self.bishops[1], sq as u64);
            lemma_test_bit(self.rooks[0] | self.rooks[1], sq as u64);
            lemma_test_bit(self.queens[0] | self.queens[1], sq as u64);
        }
        if (self.all_pieces() & mask) == 0 {
            None
        } else if ((self.pawns[0] | self.pawns[1]) & mask) != 0 {
            Some(Piece::Pawn)
        } else if ((self.knights[0] | self.knights[1]) & mask) != 0 {
            Some(Piece::Knight)
        } else if ((self.bishops[0] | self.bishops[1]) & mask) != 0 {
            Some(Piece::Bishop)
        } else if ((self.rooks[0] | self.rooks[1]) & mask) != 0 {
            Some(Piece::Rook)
        } else if ((self.queens[0] | self.queens[1]) & mask) != 0 {
            Some(Piece::Queen)
        } else {
            Some(Piece::King)
        }
    }

    /// Whether an enemy piece stands on `sq`.
    pub fn enemy_on(&self, sq: u8) -> (r: bool)
        requires
            sq < 64,
        ensures
            r == has_sq(self.occupied[self.player.spec_flip().spec_idx() as int], sq as int),
    {
        proof {
            lemma_test_bit(self.occupied[self.player.spec_flip().spec_idx() as int], sq as u64);
        }
        (self.occupied[self.player.flip().idx()] & sq_bb(sq)) != 0
    }

    /// Whether the side to move is in check: its king stands in the enemy's
    /// attack set.
    pub fn in_check(&self) -> (r: bool)
        ensures
            r == ((self.spec_all_attacks(self.player.spec_flip())
                & self.kings[self.player.spec_idx() as int]) != 0),
    {
        (self.all_attacks(self.player.flip()) & self.kings[self.player.idx()]) != 0
    }

    /// Whether `mv` captures: an en-passant capture or a move onto an enemy
    /// piece (castling never captures).
    pub fn is_capture(&self, mv: Move) -> (r: bool)
        ensures
            r == self.spec_is_capture(mv),
    {
        proof {
            lemma_test_bit(
                self.occupied[self.player.spec_flip().spec_idx() as int],
                mv.spec_to() as u64,
            );
        }
        !mv.is_castling() && (mv.is_ep() || (self.occupied[self.player.flip().idx()] & sq_bb(
            mv.to(),
        )) != 0)
    }

    /// What `is_capture` tests.
    pub open spec fn spec_is_capture(self, mv: Move) -> bool {
        !mv.spec_is_castling() && (mv.spec_is_ep() || has_sq(
            self.occupied[self.player.spec_flip().spec_idx() as int],
            mv.spec_to(),
        ))
    }

    /// Whether `player` still has any piece besides pawns and king.
    pub fn has_non_pawns(&self, player: Color) -> (r: bool)
        ensures
            r == (self.knights[player.spec_idx() as int] | self.bishops[player.spec_idx() as int]
                | self.rooks[player.spec_idx() as int] | self.queens[player.spec_idx() as int]
                != 0),
    {
        let p = player.idx();
        (self.knights[p] | self.bishops[p] | self.rooks[p] | self.queens[p]) != 0
    }

    /// Recompute the main Zobrist key from scratch.
    pub fn recalculate_hash(&self) -> (r: u64)
        ensures
            r == self.spec_hash(),
    {
        let mut acc: u64 = 0;
        let mut k: usize = 0;
        while k < 12
            invariant
                k <= 12,
                acc == self.pieces_fold(k as int),
            decreases 12 - k,
        {
            let color = if k % 2 == 0 {
                Color::White
            } else {
                Color::Black
            };
            let piece = Piece::from_index((k / 2) as u8);
            acc = acc ^ piece_hash_exec(color, piece, self.piece_board(color, piece));
            k = k + 1;
        }
        acc ^ zobrist_ep(self.ep_mask) ^ zobrist_castling(&self.castles) ^ (if matches!(
            self.player,
            Color::Black,
        ) {
            zobrist_player()
        } else {
            0
        })
    }

    /// The bitboard of `piece` for `color`.
    pub fn piece_board(&self, color: Color, piece: Piece) -> (r: u64)
        ensures
            r == self.bb(color, piece),
    {
        let ci = color.idx();
        match piece {
            Piece::Pawn => self.pawns[ci],
            Piece::Knight => self.knights[ci],
            Piece::Bishop => self.bishops[ci],
            Piece::Rook => self.rooks[ci],
            Piece::Queen => self.queens[ci],
            Piece::King => self.kings[ci],
        }
    }

    /// Recompute the pawn-structure key from scratch.
    pub fn recalculate_pawn_hash(&self) -> (r: u64)
        ensures
            r == self.spec_pawn_hash(),
    {
        piece_hash_exec(Color::White, Piece::Pawn, self.pawns[0]) ^ piece_hash_exec(
            Color::Black,
            Piece::Pawn,
            self.pawns[1],
        )
    }
}

/// Union of the bishop rays of every square of `bb`.
pub fn fold_bishop_rays(bb: u64, occ: u64) -> (r: u64)
    ensures
        r == union_fold(bishop_f(occ), bb, 64),
{
    let mut acc: u64 = 0;
    let mut sq: u8 = 0;
    while sq < 64
        invariant
            sq <= 64,
            acc == union_fold(bishop_f(occ), bb, sq as int),
        decreases 64 - sq,
    {
        proof {
            crate::bits::lemma_or_algebra();
            lemma_test_bit(bb, sq as u64);
        }
        if (bb & (1u64 << (sq as u64))) != 0 {
            acc = acc | bishop_attacks(sq, occ);
        }
        sq = sq + 1;
    }
    acc
}

/// Union of the rook rays of every square of `bb`.
pub fn fold_rook_rays(bb: u64, occ: u64) -> (r: u64)
    ensures
        r == union_fold(rook_f(occ), bb, 64),
{
    let mut acc: u64 = 0;
    let mut sq: u8 = 0;
    while sq < 64
        invariant
            sq <= 64,
            acc == union_fold(rook_f(occ), bb, sq as int),
        decreases 64 - sq,
    {
        proof {
            crate::bits::lemma_or_algebra();
            lemma_test_bit(bb, sq as u64);
        }
        if (bb & (1u64 << (sq as u64))) != 0 {
            acc = acc | rook_attacks(sq, occ);
        }
        sq = sq + 1;
    }
    acc
}

/// XOR together the piece keys of every square of `bb`.
pub fn piece_hash_exec(color: Color, piece: Piece, bb: u64) -> (r: u64)
    ensures
        r == piece_hash(color, piece, bb),
{
    let mut acc: u64 = 0;
    let mut sq: u8 = 0;
    while sq < 64
        invariant
            sq <= 64,
            acc == piece_fold(color, piece, bb, sq as int),
        decreases 64 - sq,
    {
        proof {
            lemma_xor_algebra();
            lemma_test_bit(bb, sq as u64);
        }
        if (bb & (1u64 << (sq as u64))) != 0 {
            acc = acc ^ zobrist_piece(color, piece, sq);
        }
        sq = sq + 1;
    }
    acc
}

} // verus!
