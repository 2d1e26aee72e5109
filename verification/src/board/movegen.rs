//! Pseudo-legal move generation: noisy moves (captures, en passant, all
//! promotions) and quiet moves (the rest, castling included) are emitted
//! into separate lists; legality is settled by playing the move and
//! checking the mover's king.
use vstd::prelude::*;

use crate::attacks::{bishop_attacks, between, king_attacks, knight_attacks, rook_attacks};
use crate::bits::{first_square, lemma_test_bit, sq_bb, sq_rank};
use crate::board::Board;
use crate::moves::{Move, MoveList};
use crate::types::{Color, Piece};

verus! {

impl Board {
    /// Whether `make_move_only` applies to `mv` here: the moved piece is
    /// where the move says and the move's special state is present.
    pub fn move_applies(&self, mv: Move) -> (r: bool)
        ensures
            r == self.spec_move_applies(mv),
    {
        let c = self.player;
        let ci = c.idx();
        let from = mv.from();
        let to = mv.to();
        proof {
            lemma_test_bit(self.rooks[c.spec_idx() as int], mv.spec_to() as u64);
            lemma_test_bit(self.pawns[c.spec_idx() as int], mv.spec_from() as u64);
            lemma_test_bit(self.occupied[c.spec_idx() as int], mv.spec_from() as u64);
            lemma_test_bit(self.occupied[c.spec_idx() as int], mv.spec_to() as u64);
        }
        if mv.is_castling() {
            let home: u8 = 4 + 56 * (ci as u8);
            self.kings[ci] == sq_bb(from) && from == home && ((self.castles[ci][0] == sq_bb(to)
                && to == 56 * (ci as u8)) || (self.castles[ci][1] == sq_bb(to) && to == 7 + 56 * (
            ci as u8))) && (self.rooks[ci] & sq_bb(to)) != 0
        } else if mv.is_ep() {
            let target: u64 = if matches!(c, Color::White) {
                self.ep_mask >> 8u64
            } else {
                self.ep_mask << 8u64
            };
            crate::bits::single_bit(target) && (self.pawns[ci] & sq_bb(from)) != 0 && from != to
        } else {
            let on_from = self.piece_on(from);
            on_from.is_some() && (self.occupied[ci] & sq_bb(from)) != 0 && from != to && (
            match mv.promo() {
                Some(_) => on_from == Some(Piece::Pawn),
                None => true,
            }) && self.piece_on(to) != Some(Piece::King) && (self.occupied[ci] & sq_bb(to)) == 0
        }
    }

    /// Play `mv` on a copy; the new board if the move was present-shaped
    /// and legal.
    pub fn try_move(&self, mv: Move) -> (r: Option<Board>)
    {
        if !self.move_applies(mv) {
            return None;
        }
        let mut next = *self;
        if next.make_move_only(mv) {
            Some(next)
        } else {
            None
        }
    }

    /// Emit every pseudo-legal move: captures, en passant and promotions
    /// into `noisy`, everything else into `quiet`.
    pub fn generate_moves_into(&self, noisy: &mut MoveList, quiet: &mut MoveList) {
        noisy.clear();
        quiet.clear();
        self.generate_pawn_moves_into(noisy, quiet);
        self.generate_knight_moves_into(noisy, quiet);
        self.generate_bishop_moves_into(noisy, quiet);
        self.generate_rook_moves_into(noisy, quiet);
        self.generate_queen_moves_into(noisy, quiet);
        self.generate_king_moves_into(noisy, quiet);
        let ci = self.player.idx();
        if self.castles[ci][0] != 0 || self.castles[ci][1] != 0 {
            self.generate_castles_into(quiet);
        }
    }

    /// Pawn pushes, captures, en passant and promotions.
    pub fn generate_pawn_moves_into(&self, noisy: &mut MoveList, quiet: &mut MoveList) {
        let pawns = self.pawns[self.player.idx()];
        let enemies = self.occupied[self.player.flip().idx()];

        let mut from: u8 = 0;
        while from < 64
            invariant
                from <= 64,
            decreases 64 - from,
        {
            if (pawns & sq_bb(from)) != 0 {
                let mut moves: u64 = self.pawn_pushes(from);
                moves = moves | (self.pawn_attack(from, self.player) & (enemies | self.ep_mask));
                let mut to: u8 = 0;
                while to < 64
                    invariant
                        to <= 64,
                        from < 64,
                    decreases 64 - to,
                {
                    if (moves & sq_bb(to)) != 0 {
                        let rank = sq_rank(to);
                        if rank == 0 || rank == 7 {
                            // every promotion counts as noisy
                            noisy.push(Move::new(from, to, Some(Piece::Queen)));
                            noisy.push(Move::new(from, to, Some(Piece::Rook)));
                            noisy.push(Move::new(from, to, Some(Piece::Bishop)));
                            noisy.push(Move::new(from, to, Some(Piece::Knight)));
                        } else if sq_bb(to) == self.ep_mask {
                            noisy.push(Move::new_ep(from, to));
                        } else if self.enemy_on(to) {
                            noisy.push(Move::new(from, to, None));
                        } else {
                            quiet.push(Move::new(from, to, None));
                        }
                    }
                    to = to + 1;
                }
            }
            from = from + 1;
        }
    }

    /// Knight moves.
    pub fn generate_knight_moves_into(&self, noisy: &mut MoveList, quiet: &mut MoveList) {
        let knights = self.knights[self.player.idx()];
        let friendlies = self.occupied[self.player.idx()];
        let mut from: u8 = 0;
        while from < 64
            invariant
                from <= 64,
            decreases 64 - from,
        {
            if (knights & sq_bb(from)) != 0 {
                let targets = knight_attacks(sq_bb(from)) & !friendlies;
                self.emit_targets(from, targets, noisy, quiet);
            }
            from = from + 1;
        }
    }

    /// Bishop moves.
    pub fn generate_bishop_moves_into(&self, noisy: &mut MoveList, quiet: &mut MoveList) {
        let bishops = self.bishops[self.player.idx()];
        let friendlies = self.occupied[self.player.idx()];
        let occ = self.all_pieces();
        let mut from: u8 = 0;
        while from < 64
            invariant
                from <= 64,
            decreases 64 - from,
        {
            if (bishops & sq_bb(from)) != 0 {
                let targets = bishop_attacks(from, occ) & !friendlies;
                self.emit_targets(from, targets, noisy, quiet);
            }
            from = from + 1;
        }
    }

    /// Rook moves.
    pub fn generate_rook_moves_into(&self, noisy: &mut MoveList, quiet: &mut MoveList) {
        let rooks = self.rooks[self.player.idx()];
        let friendlies = self.occupied[self.player.idx()];
        let occ = self.all_pieces();
        let mut from: u8 = 0;
        while from < 64
            invariant
                from <= 64,
            decreases 64 - from,
        {
            if (rooks & sq_bb(from)) != 0 {
                let targets = rook_attacks(from, occ) & !friendlies;
                self.emit_targets(from, targets, noisy, quiet);
            }
            from = from + 1;
        }
    }

    /// Queen moves.
    pub fn generate_queen_moves_into(&self, noisy: &mut MoveList, quiet: &mut MoveList) {
        let queens = self.queens[self.player.idx()];
        let friendlies = self.occupied[self.player.idx()];
        let occ = self.all_pieces();
        let mut from: u8 = 0;
        while from < 64
            invariant
                from <= 64,
            decreases 64 - from,
        {
            if (queens & sq_bb(from)) != 0 {
                let targets = (bishop_attacks(from, occ) | rook_attacks(from, occ)) & !friendlies;
                self.emit_targets(from, targets, noisy, quiet);
            }
            from = from + 1;
        }
    }

    /// King steps (castling is emitted separately).
    pub fn generate_king_moves_into(&self, noisy: &mut MoveList, quiet: &mut MoveList) {
        let king = self.kings[self.player.idx()];
        if king == 0 {
            return ;
        }
        let from = first_square(king);
        let friendlies = self.occupied[self.player.idx()];
        let targets = king_attacks(sq_bb(from)) & !friendlies;
        self.emit_targets(from, targets, noisy, quiet);
    }

    /// Emit a normal move to every square of `targets`, noisy when it
    /// captures.
    fn emit_targets(&self, from: u8, targets: u64, noisy: &mut MoveList, quiet: &mut MoveList)
        requires
            from < 64,
    {
        let mut to: u8 = 0;
        while to < 64
            invariant
                to <= 64,
                from < 64,
            decreases 64 - to,
        {
            if (targets & sq_bb(to)) != 0 {
                let mv = Move::new(from, to, None);
                if self.enemy_on(to) {
                    noisy.push(mv);
                } else {
                    quiet.push(mv);
                }
            }
            to = to + 1;
        }
    }

    /// Castling moves: the king must stand unattacked, the line to the rook
    /// empty, and the king's path empty and safe.
    pub fn generate_castles_into(&self, quiet: &mut MoveList) {
        let enemy_attacks = self.all_attacks(self.player.flip());
        let king = self.kings[self.player.idx()];
        if king == 0 {
            return ;
        }
        let from = first_square(king);
        if (enemy_attacks & sq_bb(from)) != 0 {
            // in check, castling is illegal
            return ;
        }
        let ci = self.player.idx();
        let mut side: usize = 0;
        while side < 2
            invariant
                side <= 2,
                from < 64,
                ci == self.player.spec_idx(),
            decreases 2 - side,
        {
            let castle = self.castles[ci][side];
            if castle != 0 {
                let rook_from = first_square(castle);
                // clear between king and rook
                if (between(from, rook_from) & self.all_pieces()) == 0 {
                    let target = crate::board::castle_king_target(self.player, side == 1);
                    // clear and safe between king and its target
                    if (between(from, target) & (self.all_pieces() | enemy_attacks)) == 0 {
                        quiet.push(Move::new_castle(from, rook_from));
                    }
                }
            }
            side = side + 1;
        }
    }

    /// Every pseudo-legal move, noisy first.
    pub fn pseudolegal_moves(&self) -> (r: Vec<Move>)
    {
        let mut noisy = MoveList::new();
        let mut quiet = MoveList::new();
        self.generate_moves_into(&mut noisy, &mut quiet);
        let mut all: Vec<Move> = Vec::new();
        let mut i: usize = 0;
        while i < noisy.len()
            invariant
                i <= noisy.spec_len(),
            decreases noisy.spec_len() - i,
        {
            all.push(noisy.get_move(i));
            i = i + 1;
        }
        let mut j: usize = 0;
        while j < quiet.len()
            invariant
                j <= quiet.spec_len(),
            decreases quiet.spec_len() - j,
        {
            all.push(quiet.get_move(j));
            j = j + 1;
        }
        all
    }

    /// Every legal move: the pseudo-legal moves that survive the trial.
    pub fn legal_moves(&self) -> (r: Vec<Move>)
    {
        let pseudo = self.pseudolegal_moves();
        let mut legals: Vec<Move> = Vec::new();
        let mut i: usize = 0;
        while i < pseudo.len()
            invariant
                i <= pseudo@.len(),
            decreases pseudo@.len() - i,
        {
            let mv = pseudo[i];
            if self.try_move(mv).is_some() {
                legals.push(mv);
            }
            i = i + 1;
        }
        legals
    }

    /// The number of leaf positions `depth` half-moves ahead: the standard
    /// cross-check of the move generator and move maker.
    pub fn perft(&self, depth: usize) -> (r: u64)
        decreases depth,
    {
        if depth == 0 {
            return 1;
        }
        let moves = self.pseudolegal_moves();
        let mut count: u64 = 0;
        let mut i: usize = 0;
        while i < moves.len()
            invariant
                i <= moves@.len(),
                depth >= 1,
            decreases moves@.len() - i,
        {
            let mv = moves[i];
            if let Some(next) = self.try_move(mv) {
                count = count.saturating_add(next.perft(depth - 1));
            }
            i = i + 1;
        }
        count
    }

    /// The standard starting position.
    pub fn new() -> (r: Board)
        ensures
            r.pawns == [0x000000000000ff00u64, 0x00ff000000000000u64],
            r.knights == [0x0000000000000042u64, 0x4200000000000000u64],
            r.bishops == [0x0000000000000024u64, 0x2400000000000000u64],
            r.rooks == [0x0000000000000081u64, 0x8100000000000000u64],
            r.queens == [0x0000000000000008u64, 0x0800000000000000u64],
            r.kings == [0x0000000000000010u64, 0x1000000000000000u64],
            r.occupied == [0x000000000000ffffu64, 0xffff000000000000u64],
            r.castles == [[0x1u64, 0x80u64], [0x100000000000000u64, 0x8000000000000000u64]],
            r.ep_mask == 0u64,
            r.halfmove_clock == 0,
            r.fullmove_count == 1,
            r.hash == r.spec_hash(),
            r.pawn_hash == r.spec_pawn_hash(),
            r.player == Color::White,
            r.occ_ok(),
    {
        let mut board = Board::empty();
        board.pawns = [0x000000000000ff00, 0x00ff000000000000];
        board.knights = [0x0000000000000042, 0x4200000000000000];
        board.bishops = [0x0000000000000024, 0x2400000000000000];
        board.rooks = [0x0000000000000081, 0x8100000000000000];
        board.queens = [0x0000000000000008, 0x0800000000000000];
        board.kings = [0x0000000000000010, 0x1000000000000000];
        board.occupied = [0x000000000000ffff, 0xffff000000000000];
        board.castles = [[0x1, 0x80], [0x100000000000000, 0x8000000000000000]];
        let h = board.recalculate_hash();
        let ph = board.recalculate_pawn_hash();
        let ghost b0 = board;
        board.hash = h;
        board.pawn_hash = ph;
        proof {
            crate::board::lemma_pieces_fold_congr(b0, board, 12);
            assert(0x000000000000ff00u64 | 0x0000000000000042u64 | 0x0000000000000024u64
                | 0x0000000000000081u64 | 0x0000000000000008u64 | 0x0000000000000010u64
                == 0x000000000000ffffu64) by (bit_vector);
            assert(0x00ff000000000000u64 | 0x4200000000000000u64 | 0x2400000000000000u64
                | 0x8100000000000000u64 | 0x0800000000000000u64 | 0x1000000000000000u64
                == 0xffff000000000000u64) by (bit_vector);
        }
        board
    }
}

} // verus!
