//! The position: piece placement, side to move, castling rights, en-passant
//! state, clocks and the incrementally maintained Zobrist keys.
use vstd::prelude::*;

use crate::attacks::{EIGHTH_RANK, FIRST_RANK, SIXTH_RANK, THIRD_RANK};
use crate::bits::{has_sq, is_single_bit};
use crate::types::{Color, Piece};
use crate::zobrist::{
    piece_hash, spec_zobrist_castling, spec_zobrist_ep, spec_zobrist_piece, spec_zobrist_player,
};

pub mod movegen;
pub mod utils;

verus! {

/// A chess position. Piece placement is held as one bitboard per piece kind
/// and color, with the per-color `occupied` aggregates alongside, and the two
/// Zobrist keys kept current on every change.
#[derive(Copy, Clone, Debug)]
pub struct Board {
    pub pawns: [u64; 2],
    pub knights: [u64; 2],
    pub bishops: [u64; 2],
    pub rooks: [u64; 2],
    pub queens: [u64; 2],
    pub kings: [u64; 2],
    pub occupied: [u64; 2],
    pub castles: [[u64; 2]; 2],
    pub player: Color,
    pub ep_mask: u64,
    pub halfmove_clock: u8,
    pub fullmove_count: u16,
    pub hash: u64,
    pub pawn_hash: u64,
}

/// A per-color pair with `color`'s board xored by `mask`.
pub open spec fn spec_update2(arr: [u64; 2], color: Color, mask: u64) -> [u64; 2] {
    if color == Color::White {
        [(arr[0] ^ mask) as u64, arr[1]]
    } else {
        [arr[0], (arr[1] ^ mask) as u64]
    }
}

impl Board {
    /// The bitboard of `piece` for `color`.
    pub open spec fn bb(self, color: Color, piece: Piece) -> u64 {
        match piece {
            Piece::Pawn => self.pawns[color.spec_idx() as int],
            Piece::Knight => self.knights[color.spec_idx() as int],
            Piece::Bishop => self.bishops[color.spec_idx() as int],
            Piece::Rook => self.rooks[color.spec_idx() as int],
            Piece::Queen => self.queens[color.spec_idx() as int],
            Piece::King => self.kings[color.spec_idx() as int],
        }
    }

    /// Union of one color's piece bitboards.
    pub open spec fn color_union(self, c: int) -> u64 {
        self.pawns[c] | self.knights[c] | self.bishops[c] | self.rooks[c] | self.queens[c]
            | self.kings[c]
    }

    /// Every occupied square.
    pub open spec fn spec_all_pieces(self) -> u64 {
        self.occupied[0] | self.occupied[1]
    }

    /// The `occupied` aggregates equal the union of their piece bitboards.
    pub open spec fn occ_ok(self) -> bool {
        self.occupied[0] == self.color_union(0) && self.occupied[1] == self.color_union(1)
    }

    /// The color of the `k`-th piece-hash slot.
    pub open spec fn slot_color(k: int) -> Color {
        if k % 2 == 0 {
            Color::White
        } else {
            Color::Black
        }
    }

    /// The piece kind of the `k`-th piece-hash slot.
    pub open spec fn slot_piece(k: int) -> Piece {
        Piece::spec_from_index((k / 2) as u8)
    }

    /// XOR of the piece keys of the first `n` of the twelve piece boards.
    pub open spec fn pieces_fold(self, n: int) -> u64
        decreases n,
    {
        if n <= 0 {
            0u64
        } else {
            self.pieces_fold(n - 1) ^ piece_hash(
                Self::slot_color(n - 1),
                Self::slot_piece(n - 1),
                self.bb(Self::slot_color(n - 1), Self::slot_piece(n - 1)),
            )
        }
    }

    /// XOR of the piece keys of everything standing on the board.
    pub open spec fn spec_pieces_hash(self) -> u64 {
        self.pieces_fold(12)
    }

    /// The Zobrist key of the position, recomputed from scratch.
    pub open spec fn spec_hash(self) -> u64 {
        self.spec_pieces_hash() ^ spec_zobrist_ep(self.ep_mask) ^ spec_zobrist_castling(
            self.castles,
        ) ^ (if self.player == Color::Black {
            spec_zobrist_player()
        } else {
            0u64
        })
    }

    /// The pawn-structure key, recomputed from scratch.
    pub open spec fn spec_pawn_hash(self) -> u64 {
        piece_hash(Color::White, Piece::Pawn, self.pawns[0]) ^ piece_hash(
            Color::Black,
            Piece::Pawn,
            self.pawns[1],
        )
    }

    /// Both incrementally maintained keys match their recomputation. This is
    /// the invariant the incremental updates preserve.
    pub open spec fn hash_ok(self) -> bool {
        self.hash == self.spec_hash() && self.pawn_hash == self.spec_pawn_hash()
    }

    /// An empty board: no pieces, White to move, no rights, zero clocks.
    pub fn empty() -> (r: Self)
        ensures
            r.pawns == [0u64, 0u64],
            r.knights == [0u64, 0u64],
            r.bishops == [0u64, 0u64],
            r.rooks == [0u64, 0u64],
            r.queens == [0u64, 0u64],
            r.kings == [0u64, 0u64],
            r.occupied == [0u64, 0u64],
            r.castles == [[0u64, 0u64], [0u64, 0u64]],
            r.player == Color::White,
            r.ep_mask == 0u64,
            r.halfmove_clock == 0,
            r.fullmove_count == 1,
            r.hash == 0,
            r.pawn_hash == 0,
            r.occ_ok(),
    {
        let r = Board {
            pawns: [0, 0],
            knights: [0, 0],
            bishops: [0, 0],
            rooks: [0, 0],
            queens: [0, 0],
            kings: [0, 0],
            occupied: [0, 0],
            castles: [[0, 0], [0, 0]],
            player: Color::White,
            ep_mask: 0,
            halfmove_clock: 0,
            fullmove_count: 1,
            hash: 0,
            pawn_hash: 0,
        };
        proof {
            crate::bits::lemma_or_algebra();
        }
        r
    }

    /// Toggle `piece` of `color` on square `on`, updating the piece board,
    /// the occupancy and the main key together. The pawn key is the caller's
    /// to maintain.
    pub fn xor_piece(&mut self, color: Color, piece: Piece, on: u8)
        requires
            on < 64,
        ensures
            final(self).bb(color, piece) == old(self).bb(color, piece) ^ (1u64 << (on as u64)),
            final(self).occupied[color.spec_idx() as int] == old(self).occupied[color.spec_idx() as int]
                ^ (1u64 << (on as u64)),
            final(self).hash == old(self).hash ^ spec_zobrist_piece(color, piece, on as int),
            final(self).pawns == if piece == Piece::Pawn {
                spec_update2(old(self).pawns, color, (1u64 << (on as u64)))
            } else {
                old(self).pawns
            },
            final(self).knights == if piece == Piece::Knight {
                spec_update2(old(self).knights, color, (1u64 << (on as u64)))
            } else {
                old(self).knights
            },
            final(self).bishops == if piece == Piece::Bishop {
                spec_update2(old(self).bishops, color, (1u64 << (on as u64)))
            } else {
                old(self).bishops
            },
            final(self).rooks == if piece == Piece::Rook {
                spec_update2(old(self).rooks, color, (1u64 << (on as u64)))
            } else {
                old(self).rooks
            },
            final(self).queens == if piece == Piece::Queen {
                spec_update2(old(self).queens, color, (1u64 << (on as u64)))
            } else {
                old(self).queens
            },
            final(self).kings == if piece == Piece::King {
                spec_update2(old(self).kings, color, (1u64 << (on as u64)))
            } else {
                old(self).kings
            },
            final(self).occupied == spec_update2(old(self).occupied, color, (1u64 << (on as u64))),
            final(self).castles == old(self).castles,
            final(self).player == old(self).player,
            final(self).ep_mask == old(self).ep_mask,
            final(self).halfmove_clock == old(self).halfmove_clock,
            final(self).fullmove_count == old(self).fullmove_count,
            final(self).pawn_hash == old(self).pawn_hash,
    {
        let ci = color.idx();
        let mask = crate::bits::sq_bb(on);
        match piece {
            Piece::Pawn => {
                self.pawns[ci] = self.pawns[ci] ^ mask;
            },
            Piece::Knight => {
                self.knights[ci] = self.knights[ci] ^ mask;
            },
            Piece::Bishop => {
                self.bishops[ci] = self.bishops[ci] ^ mask;
            },
            Piece::Rook => {
                self.rooks[ci] = self.rooks[ci] ^ mask;
            },
            Piece::Queen => {
                self.queens[ci] = self.queens[ci] ^ mask;
            },
            Piece::King => {
                self.kings[ci] = self.kings[ci] ^ mask;
            },
        }
        self.occupied[ci] = self.occupied[ci] ^ mask;
        self.hash = self.hash ^ crate::zobrist::zobrist_piece(color, piece, on);
    }


    /// The side to move's king's home square.
    pub open spec fn king_home(c: Color) -> int {
        4 + 56 * c.spec_idx()
    }

    /// The mask of the pawn captured in passing: the en-passant square
    /// shifted back to the rank the enemy pawn stands on.
    pub open spec fn spec_ep_target(self) -> u64 {
        if self.player == Color::White {
            self.ep_mask >> 8u64
        } else {
            self.ep_mask << 8u64
        }
    }

    /// What a move needs of the position for `make_move_only` to apply: the
    /// moved piece is where the move says and special moves have the state
    /// they encode.
    pub open spec fn spec_move_applies(self, mv: crate::moves::Move) -> bool {
        let c = self.player;
        let ci = c.spec_idx() as int;
        let from = mv.spec_from();
        let to = mv.spec_to();
        if mv.spec_is_castling() {
            &&& self.kings[ci] == (1u64 << (from as u64))
            &&& from == Self::king_home(c)
            &&& ((self.castles[ci][0] == (1u64 << (to as u64)) && to == 56 * ci) || (
            self.castles[ci][1] == (1u64 << (to as u64)) && to == 7 + 56 * ci))
            &&& has_sq(self.rooks[ci], to)
        } else if mv.spec_is_ep() {
            &&& is_single_bit(self.spec_ep_target())
            &&& has_sq(self.pawns[ci], from)
            &&& from != to
        } else {
            &&& self.spec_piece_on(from) is Some
            &&& has_sq(self.occupied[ci], from)
            &&& from != to
            &&& (mv.spec_promo() is Some ==> self.spec_piece_on(from) == Some(Piece::Pawn))
            &&& self.spec_piece_on(to) != Some(Piece::King)
            &&& !has_sq(self.occupied[ci], to)
        }
    }

    /// The piece `mv` moves: the king when castling, a pawn en passant,
    /// else whatever stands on the origin square.
    pub open spec fn spec_moved_piece(self, mv: crate::moves::Move) -> Piece {
        if mv.spec_is_castling() {
            Piece::King
        } else if mv.spec_is_ep() {
            Piece::Pawn
        } else {
            self.spec_piece_on(mv.spec_from())->0
        }
    }

    /// Whether `mv` resets the halfmove clock: a pawn move or a capture.
    pub open spec fn spec_resets_clock(self, mv: crate::moves::Move) -> bool {
        self.spec_moved_piece(mv) == Piece::Pawn || (!mv.spec_is_castling() && !mv.spec_is_ep()
            && self.spec_piece_on(mv.spec_to()) is Some)
    }

    /// Whether `mv` is a double pawn push, exactly as the en-passant update
    /// tests it.
    pub open spec fn spec_is_double_push(self, mv: crate::moves::Move) -> bool {
        let from = mv.spec_from();
        let to = mv.spec_to();
        &&& self.spec_moved_piece(mv) == Piece::Pawn
        &&& (if to >= from {
            to - from
        } else {
            from - to
        }) == 16
        &&& (if self.player == Color::White {
            to >= 8
        } else {
            to < 56
        })
    }

    /// The en-passant mask after `mv`: the square a double pawn push passed
    /// over, else empty.
    pub open spec fn spec_ep_after(self, mv: crate::moves::Move) -> u64 {
        if self.spec_is_double_push(mv) {
            if self.player == Color::White {
                1u64 << ((mv.spec_to() - 8) as u64)
            } else {
                1u64 << ((mv.spec_to() + 8) as u64)
            }
        } else {
            0u64
        }
    }

    /// Play `mv` on this board: move the piece, remove any captured piece,
    /// update en-passant state, castling rights, clocks, side to move and
    /// both keys, as `spec_move_result` states field for field. Returns
    /// false - the move was illegal - when the mover's king is left
    /// attacked; the board then holds the illegal position and the caller
    /// discards its copy.
    #[verifier::rlimit(100)]
    #[verifier::spinoff_prover]
    pub fn make_move_only(&mut self, mv: crate::moves::Move) -> (r: bool)
        requires
            old(self).spec_move_applies(mv),
        ensures
            spec_move_result(*old(self), *final(self), mv),
            r == ((final(self).kings[old(self).player.spec_idx() as int]
                & final(self).spec_all_attacks(old(self).player.spec_flip())) == 0),
    {
        let ghost b0 = *old(self);
        let from: u8 = mv.from();
        let to: u8 = mv.to();
        let player = self.player;
        let ghost mover = b0.player;

        let (piece, capture) = if mv.is_castling() {
            (Piece::King, None)
        } else if mv.is_ep() {
            (Piece::Pawn, None)
        } else {
            (self.piece_on(from).unwrap(), self.piece_on(to))
        };

        // move the piece, keeping the pawn key in step, and remove an
        // ordinary capture
        if !mv.is_castling() {
            if let Some(promo) = mv.promo() {
                let ghost s0 = *self;
                self.xor_piece(player, Piece::Pawn, from);
                self.pawn_hash = self.pawn_hash ^ crate::zobrist::zobrist_piece(
                    player,
                    Piece::Pawn,
                    from,
                );
                proof {
                    lemma_bb_frame(s0, *self, mover, Piece::Pawn, 1u64 << (from as u64));
                    lemma_pieces_hash_toggle1(s0, *self, mover, Piece::Pawn, from as u64);
                    lemma_pawn_hash_toggle1(s0, *self, mover, from as u64);
                    crate::zobrist::lemma_xor_same_delta(
                        s0.hash,
                        s0.spec_pieces_hash(),
                        spec_zobrist_piece(mover, Piece::Pawn, from as int),
                    );
                    crate::zobrist::lemma_xor_same_delta(
                        s0.pawn_hash,
                        s0.spec_pawn_hash(),
                        spec_zobrist_piece(mover, Piece::Pawn, from as int),
                    );
                }
                let ghost s1 = *self;
                self.xor_piece(player, promo, to);
                proof {
                    lemma_bb_frame(s1, *self, mover, promo, 1u64 << (to as u64));
                    lemma_pieces_hash_toggle1(s1, *self, mover, promo, to as u64);
                    crate::zobrist::lemma_xor_same_delta(
                        s1.hash,
                        s1.spec_pieces_hash(),
                        spec_zobrist_piece(mover, promo, to as int),
                    );
                    assert(self.spec_pawn_hash() == s1.spec_pawn_hash());
                }
            } else {
                let ghost s0 = *self;
                self.move_piece(player, piece, from, to);
                if matches!(piece, Piece::Pawn) {
                    self.pawn_hash = self.pawn_hash ^ crate::zobrist::zobrist_piece(
                        player,
                        Piece::Pawn,
                        from,
                    );
                    self.pawn_hash = self.pawn_hash ^ crate::zobrist::zobrist_piece(
                        player,
                        Piece::Pawn,
                        to,
                    );
                }
                proof {
                    lemma_bb_frame(
                        s0,
                        *self,
                        mover,
                        piece,
                        (1u64 << (from as u64)) | (1u64 << (to as u64)),
                    );
                    lemma_pieces_hash_toggle2(s0, *self, mover, piece, from as u64, to as u64);
                    crate::zobrist::lemma_xor_same_delta2(
                        s0.hash,
                        s0.spec_pieces_hash(),
                        spec_zobrist_piece(mover, piece, from as int),
                        spec_zobrist_piece(mover, piece, to as int),
                    );
                    if piece == Piece::Pawn {
                        lemma_pawn_hash_toggle2(s0, *self, mover, from as u64, to as u64);
                        crate::zobrist::lemma_xor_same_delta2(
                            s0.pawn_hash,
                            s0.spec_pawn_hash(),
                            spec_zobrist_piece(mover, Piece::Pawn, from as int),
                            spec_zobrist_piece(mover, Piece::Pawn, to as int),
                        );
                    } else {
                        assert(self.spec_pawn_hash() == s0.spec_pawn_hash());
                    }
                }
            }
            if let Some(captured) = capture {
                let ghost s2 = *self;
                self.xor_piece(player.flip(), captured, to);
                if matches!(captured, Piece::Pawn) {
                    self.pawn_hash = self.pawn_hash ^ crate::zobrist::zobrist_piece(
                        player.flip(),
                        Piece::Pawn,
                        to,
                    );
                }
                proof {
                    lemma_bb_frame(s2, *self, mover.spec_flip(), captured, 1u64 << (to as u64));
                    lemma_pieces_hash_toggle1(s2, *self, mover.spec_flip(), captured, to as u64);
                    crate::zobrist::lemma_xor_same_delta(
                        s2.hash,
                        s2.spec_pieces_hash(),
                        spec_zobrist_piece(mover.spec_flip(), captured, to as int),
                    );
                    if captured == Piece::Pawn {
                        lemma_pawn_hash_toggle1(s2, *self, mover.spec_flip(), to as u64);
                        crate::zobrist::lemma_xor_same_delta(
                            s2.pawn_hash,
                            s2.spec_pawn_hash(),
                            spec_zobrist_piece(mover.spec_flip(), Piece::Pawn, to as int),
                        );
                    } else {
                        assert(self.spec_pawn_hash() == s2.spec_pawn_hash());
                    }
                }
            }
        }
        // special cases
        if mv.is_ep() {
            // remove the pawn captured in passing
            let target: u64 = if matches!(player, Color::White) {
                self.ep_mask >> 8u64
            } else {
                self.ep_mask << 8u64
            };
            proof {
                assert(target == b0.spec_ep_target());
            }
            let tsq: u8 = crate::bits::first_square(target);
            proof {
                let s = choose|s: int| 0 <= s < 64 && target == #[trigger] (1u64 << (s as u64));
                crate::bits::lemma_single_bit(s as u64);
                assert(has_sq(target, s));
                assert(target != 0);
                assert(tsq < 64 && has_sq(target, tsq as int));
                assert(tsq == s);
                assert(target == (1u64 << (tsq as u64)));
            }
            let ghost s3 = *self;
            let ci = player.flip().idx();
            self.pawns[ci] = self.pawns[ci] ^ target;
            self.occupied[ci] = self.occupied[ci] ^ target;
            let z = crate::zobrist::zobrist_piece(player.flip(), Piece::Pawn, tsq);
            self.hash = self.hash ^ z;
            self.pawn_hash = self.pawn_hash ^ z;
            proof {
                assert(self.pawns =~= spec_update2(s3.pawns, mover.spec_flip(), target));
                assert(self.occupied =~= spec_update2(s3.occupied, mover.spec_flip(), target));
                lemma_bb_frame(s3, *self, mover.spec_flip(), Piece::Pawn, target);
                lemma_pieces_hash_toggle1(s3, *self, mover.spec_flip(), Piece::Pawn, tsq as u64);
                lemma_pawn_hash_toggle1(s3, *self, mover.spec_flip(), tsq as u64);
                crate::zobrist::lemma_xor_same_delta(
                    s3.hash,
                    s3.spec_pieces_hash(),
                    spec_zobrist_piece(mover.spec_flip(), Piece::Pawn, tsq as int),
                );
                crate::zobrist::lemma_xor_same_delta(
                    s3.pawn_hash,
                    s3.spec_pawn_hash(),
                    spec_zobrist_piece(mover.spec_flip(), Piece::Pawn, tsq as int),
                );
            }
        } else if mv.is_castling() {
            // king and rook land on fixed squares
            let kingside = from < to;
            let king_to: u8 = castle_king_target(player, kingside);
            let rook_to: u8 = castle_rook_target(player, kingside);
            let ghost s0 = *self;
            self.move_piece(player, Piece::King, from, king_to);
            proof {
                lemma_bb_frame(
                    s0,
                    *self,
                    mover,
                    Piece::King,
                    (1u64 << (from as u64)) | (1u64 << (king_to as u64)),
                );
                lemma_pieces_hash_toggle2(s0, *self, mover, Piece::King, from as u64, king_to as u64);
                crate::zobrist::lemma_xor_same_delta2(
                    s0.hash,
                    s0.spec_pieces_hash(),
                    spec_zobrist_piece(mover, Piece::King, from as int),
                    spec_zobrist_piece(mover, Piece::King, king_to as int),
                );
            }
            let ghost s1 = *self;
            self.move_piece(player, Piece::Rook, to, rook_to);
            proof {
                lemma_bb_frame(
                    s1,
                    *self,
                    mover,
                    Piece::Rook,
                    (1u64 << (to as u64)) | (1u64 << (rook_to as u64)),
                );
                lemma_pieces_hash_toggle2(s1, *self, mover, Piece::Rook, to as u64, rook_to as u64);
                crate::zobrist::lemma_xor_same_delta2(
                    s1.hash,
                    s1.spec_pieces_hash(),
                    spec_zobrist_piece(mover, Piece::Rook, to as int),
                    spec_zobrist_piece(mover, Piece::Rook, rook_to as int),
                );
                assert(self.spec_pawn_hash() == s0.spec_pawn_hash());
            }
        }
        let ghost bp = *self;
        proof {
            assert(bp.hash ^ bp.spec_pieces_hash() == b0.hash ^ b0.spec_pieces_hash());
            assert(bp.pawn_hash ^ bp.spec_pawn_hash() == b0.pawn_hash ^ b0.spec_pawn_hash());
            assert(bp.castles == b0.castles && bp.player == b0.player && bp.ep_mask == b0.ep_mask
                && bp.halfmove_clock == b0.halfmove_clock && bp.fullmove_count
                == b0.fullmove_count);
        }
        self.update_ep_state(piece, from, to, player);
        self.update_castling_rights(piece, from, to, player);
        self.update_clocks(piece, capture.is_some() || mv.is_ep(), player);
        proof {
            lemma_pieces_fold_congr(bp, *self, 12);
            assert(piece == b0.spec_moved_piece(mv));
            if b0.hash == b0.spec_hash() {
                let hf = self.hash;
                let pf = self.spec_pieces_hash();
                let hb = bp.hash;
                let pb = bp.spec_pieces_hash();
                let h0 = b0.hash;
                let p0 = b0.spec_pieces_hash();
                let e0 = spec_zobrist_ep(b0.ep_mask);
                let e1 = spec_zobrist_ep(self.ep_mask);
                let c0 = spec_zobrist_castling(b0.castles);
                let c1 = spec_zobrist_castling(self.castles);
                let sp = spec_zobrist_player();
                let s0: u64 = if b0.player == Color::Black {
                    sp
                } else {
                    0u64
                };
                let s1: u64 = if self.player == Color::Black {
                    sp
                } else {
                    0u64
                };
                if b0.player == Color::Black {
                    assert(s1 == s0 ^ sp) by (bit_vector)
                        requires
                            s0 == sp,
                            s1 == 0u64,
                    ;
                } else {
                    assert(s1 == s0 ^ sp) by (bit_vector)
                        requires
                            s0 == 0u64,
                            s1 == sp,
                    ;
                }
                assert(hf == ((pf ^ e1) ^ c1) ^ s1) by (bit_vector)
                    requires
                        hf == ((((hb ^ e0) ^ e1) ^ c0) ^ c1) ^ sp,
                        hb ^ pb == h0 ^ p0,
                        h0 == ((p0 ^ e0) ^ c0) ^ s0,
                        pf == pb,
                        s1 == s0 ^ sp,
                ;
                assert(self.hash == self.spec_hash());
            }
            if b0.pawn_hash == b0.spec_pawn_hash() {
                assert(self.spec_pawn_hash() == bp.spec_pawn_hash());
                let a = bp.pawn_hash;
                let b = bp.spec_pawn_hash();
                let c = b0.pawn_hash;
                let d = b0.spec_pawn_hash();
                assert(a == b) by (bit_vector)
                    requires
                        a ^ b == c ^ d,
                        c == d,
                ;
                assert(self.pawn_hash == self.spec_pawn_hash());
            }
            assert(spec_move_result(b0, *self, mv));
        }

        // the move was legal iff the mover's king is not attacked now
        let attacks = self.all_attacks(player.flip());
        (self.kings[player.idx()] & attacks) == 0
    }

    /// After a move of `piece` from `from` to `to`: set the en-passant
    /// square behind a double pawn push, clear it otherwise, and keep the
    /// key current.
    fn update_ep_state(&mut self, piece: Piece, from: u8, to: u8, player: Color)
        requires
            from < 64,
            to < 64,
        ensures
            final(self).ep_mask == (if piece == Piece::Pawn && (if to >= from {
                to - from
            } else {
                from - to
            }) == 16 && (if player == Color::White {
                to >= 8
            } else {
                to < 56
            }) {
                1u64 << ((if player == Color::White {
                    to - 8
                } else {
                    to + 8
                }) as u64)
            } else {
                0u64
            }),
            final(self).hash == old(self).hash ^ crate::zobrist::spec_zobrist_ep(old(self).ep_mask)
                ^ crate::zobrist::spec_zobrist_ep(final(self).ep_mask),
            final(self).pawns == old(self).pawns,
            final(self).knights == old(self).knights,
            final(self).bishops == old(self).bishops,
            final(self).rooks == old(self).rooks,
            final(self).queens == old(self).queens,
            final(self).kings == old(self).kings,
            final(self).occupied == old(self).occupied,
            final(self).castles == old(self).castles,
            final(self).player == old(self).player,
            final(self).halfmove_clock == old(self).halfmove_clock,
            final(self).fullmove_count == old(self).fullmove_count,
            final(self).pawn_hash == old(self).pawn_hash,
    {
        self.hash = self.hash ^ crate::zobrist::zobrist_ep(self.ep_mask);
        let dist: u8 = if to >= from {
            to - from
        } else {
            from - to
        };
        if matches!(piece, Piece::Pawn) && dist == 16 && ((matches!(player, Color::White) && to
            >= 8) || (!matches!(player, Color::White) && to < 56)) {
            let ep_square: u8 = if matches!(player, Color::White) {
                to - 8
            } else {
                to + 8
            };
            self.ep_mask = crate::bits::sq_bb(ep_square);
        } else {
            self.ep_mask = 0;
        }
        self.hash = self.hash ^ crate::zobrist::zobrist_ep(self.ep_mask);
    }

    /// After a move of `piece` from `from` to `to`: a king move clears the
    /// mover's rights, a rook leaving or being captured on a right's square
    /// clears that right; the key follows the rights.
    fn update_castling_rights(&mut self, piece: Piece, from: u8, to: u8, player: Color)
        requires
            from < 64,
            to < 64,
        ensures
            ({
                let ci = player.spec_idx() as int;
                let ei = player.spec_flip().spec_idx() as int;
                &&& final(self).castles[ci][0] == (if piece == Piece::King || has_sq(
                    old(self).castles[ci][0],
                    from as int,
                ) {
                    0u64
                } else {
                    old(self).castles[ci][0]
                })
                &&& final(self).castles[ci][1] == (if piece == Piece::King || has_sq(
                    old(self).castles[ci][1],
                    from as int,
                ) {
                    0u64
                } else {
                    old(self).castles[ci][1]
                })
                &&& final(self).castles[ei][0] == (if has_sq(old(self).castles[ei][0], to as int) {
                    0u64
                } else {
                    old(self).castles[ei][0]
                })
                &&& final(self).castles[ei][1] == (if has_sq(old(self).castles[ei][1], to as int) {
                    0u64
                } else {
                    old(self).castles[ei][1]
                })
            }),
            final(self).hash == old(self).hash ^ crate::zobrist::spec_zobrist_castling(
                old(self).castles,
            ) ^ crate::zobrist::spec_zobrist_castling(final(self).castles),
            final(self).pawns == old(self).pawns,
            final(self).knights == old(self).knights,
            final(self).bishops == old(self).bishops,
            final(self).rooks == old(self).rooks,
            final(self).queens == old(self).queens,
            final(self).kings == old(self).kings,
            final(self).occupied == old(self).occupied,
            final(self).player == old(self).player,
            final(self).ep_mask == old(self).ep_mask,
            final(self).halfmove_clock == old(self).halfmove_clock,
            final(self).fullmove_count == old(self).fullmove_count,
            final(self).pawn_hash == old(self).pawn_hash,
    {
        self.hash = self.hash ^ crate::zobrist::zobrist_castling(&self.castles);
        let ci = player.idx();
        let ei = player.flip().idx();
        proof {
            crate::bits::lemma_test_bit(old(self).castles[ci as int][0], from as u64);
            crate::bits::lemma_test_bit(old(self).castles[ci as int][1], from as u64);
            crate::bits::lemma_test_bit(old(self).castles[ei as int][0], to as u64);
            crate::bits::lemma_test_bit(old(self).castles[ei as int][1], to as u64);
        }
        if matches!(piece, Piece::King) {
            self.castles[ci] = [0, 0];
        }
        let from_bb = crate::bits::sq_bb(from);
        let to_bb = crate::bits::sq_bb(to);
        if self.castles[ci][0] & from_bb != 0 {
            self.castles[ci][0] = 0;
        }
        if self.castles[ci][1] & from_bb != 0 {
            self.castles[ci][1] = 0;
        }
        if self.castles[ei][0] & to_bb != 0 {
            self.castles[ei][0] = 0;
        }
        if self.castles[ei][1] & to_bb != 0 {
            self.castles[ei][1] = 0;
        }
        self.hash = self.hash ^ crate::zobrist::zobrist_castling(&self.castles);
    }

    /// Reset the halfmove clock on a pawn move or capture, count full moves
    /// after Black's move, and pass the turn.
    fn update_clocks(&mut self, piece: Piece, was_capture: bool, player: Color)
        requires
            old(self).player == player,
        ensures
            final(self).player == old(self).player.spec_flip(),
            final(self).halfmove_clock == (if piece == Piece::Pawn || was_capture {
                0int
            } else if old(self).halfmove_clock < 255 {
                old(self).halfmove_clock + 1
            } else {
                255int
            }),
            final(self).fullmove_count == (if player == Color::Black && old(self).fullmove_count
                < 65535 {
                old(self).fullmove_count + 1
            } else {
                old(self).fullmove_count as int
            }),
            final(self).hash == old(self).hash ^ crate::zobrist::spec_zobrist_player(),
            final(self).pawns == old(self).pawns,
            final(self).knights == old(self).knights,
            final(self).bishops == old(self).bishops,
            final(self).rooks == old(self).rooks,
            final(self).queens == old(self).queens,
            final(self).kings == old(self).kings,
            final(self).occupied == old(self).occupied,
            final(self).castles == old(self).castles,
            final(self).ep_mask == old(self).ep_mask,
            final(self).pawn_hash == old(self).pawn_hash,
    {
        if matches!(piece, Piece::Pawn) || was_capture {
            self.halfmove_clock = 0;
        } else if self.halfmove_clock < 255 {
            self.halfmove_clock = self.halfmove_clock + 1;
        }
        if matches!(player, Color::Black) && self.fullmove_count < 65535 {
            self.fullmove_count = self.fullmove_count + 1;
        }
        self.player = self.player.flip();
        self.hash = self.hash ^ crate::zobrist::zobrist_player();
    }

    /// Flip the side to move without moving: clear the en-passant state and
    /// update the key accordingly.
    pub fn make_null_move_only(&mut self)
        ensures
            final(self).player == old(self).player.spec_flip(),
            final(self).ep_mask == 0,
            final(self).halfmove_clock == if old(self).halfmove_clock < 255 {
                old(self).halfmove_clock + 1
            } else {
                old(self).halfmove_clock as int
            },
            final(self).pawns == old(self).pawns,
            final(self).knights == old(self).knights,
            final(self).bishops == old(self).bishops,
            final(self).rooks == old(self).rooks,
            final(self).queens == old(self).queens,
            final(self).kings == old(self).kings,
            final(self).occupied == old(self).occupied,
            final(self).castles == old(self).castles,
            final(self).pawn_hash == old(self).pawn_hash,
            final(self).hash == old(self).hash ^ crate::zobrist::spec_zobrist_player()
                ^ crate::zobrist::spec_zobrist_ep(old(self).ep_mask) ^ crate::zobrist::spec_zobrist_ep(0),
    {
        self.hash = self.hash ^ crate::zobrist::zobrist_player() ^ crate::zobrist::zobrist_ep(
            self.ep_mask,
        );
        self.player = self.player.flip();
        self.ep_mask = 0;
        self.hash = self.hash ^ crate::zobrist::zobrist_ep(self.ep_mask);
        if self.halfmove_clock < 255 {
            self.halfmove_clock = self.halfmove_clock + 1;
        }
        proof {
            crate::zobrist::lemma_xor_algebra();
        }
    }

    /// Move `piece` of `color` from `from` to `to`, updating board,
    /// occupancy and main key; the pawn key is the caller's to maintain.
    pub fn move_piece(&mut self, color: Color, piece: Piece, from: u8, to: u8)
        requires
            from < 64,
            to < 64,
            from != to,
        ensures
            final(self).bb(color, piece) == old(self).bb(color, piece) ^ ((1u64 << (from as u64))
                | (1u64 << (to as u64))),
            final(self).occupied[color.spec_idx() as int] == old(self).occupied[color.spec_idx() as int]
                ^ ((1u64 << (from as u64)) | (1u64 << (to as u64))),
            final(self).hash == old(self).hash ^ spec_zobrist_piece(color, piece, from as int)
                ^ spec_zobrist_piece(color, piece, to as int),
            final(self).pawns == if piece == Piece::Pawn {
                spec_update2(old(self).pawns, color, (1u64 << (from as u64)) | (1u64 << (to as u64)))
            } else {
                old(self).pawns
            },
            final(self).knights == if piece == Piece::Knight {
                spec_update2(old(self).knights, color, (1u64 << (from as u64)) | (1u64 << (to as u64)))
            } else {
                old(self).knights
            },
            final(self).bishops == if piece == Piece::Bishop {
                spec_update2(old(self).bishops, color, (1u64 << (from as u64)) | (1u64 << (to as u64)))
            } else {
                old(self).bishops
            },
            final(self).rooks == if piece == Piece::Rook {
                spec_update2(old(self).rooks, color, (1u64 << (from as u64)) | (1u64 << (to as u64)))
            } else {
                old(self).rooks
            },
            final(self).queens == if piece == Piece::Queen {
                spec_update2(old(self).queens, color, (1u64 << (from as u64)) | (1u64 << (to as u64)))
            } else {
                old(self).queens
            },
            final(self).kings == if piece == Piece::King {
                spec_update2(old(self).kings, color, (1u64 << (from as u64)) | (1u64 << (to as u64)))
            } else {
                old(self).kings
            },
            final(self).occupied == spec_update2(old(self).occupied, color, (1u64 << (from as u64)) | (1u64 << (to as u64))),
            final(self).castles == old(self).castles,
            final(self).player == old(self).player,
            final(self).ep_mask == old(self).ep_mask,
            final(self).halfmove_clock == old(self).halfmove_clock,
            final(self).fullmove_count == old(self).fullmove_count,
            final(self).pawn_hash == old(self).pawn_hash,
    {
        let ci = color.idx();
        let mask = crate::bits::sq_bb(from) | crate::bits::sq_bb(to);
        match piece {
            Piece::Pawn => {
                self.pawns[ci] = self.pawns[ci] ^ mask;
            },
            Piece::Knight => {
                self.knights[ci] = self.knights[ci] ^ mask;
            },
            Piece::Bishop => {
                self.bishops[ci] = self.bishops[ci] ^ mask;
            },
            Piece::Rook => {
                self.rooks[ci] = self.rooks[ci] ^ mask;
            },
            Piece::Queen => {
                self.queens[ci] = self.queens[ci] ^ mask;
            },
            Piece::King => {
                self.kings[ci] = self.kings[ci] ^ mask;
            },
        }
        self.occupied[ci] = self.occupied[ci] ^ mask;
        self.hash = self.hash ^ crate::zobrist::zobrist_piece(color, piece, from)
            ^ crate::zobrist::zobrist_piece(color, piece, to);
    }
}

/// The square the king lands on when castling.
pub open spec fn spec_castle_king_target(player: Color, kingside: bool) -> int {
    (if kingside {
        6int
    } else {
        2int
    }) + 56 * player.spec_idx()
}

/// The square the rook lands on when castling.
pub open spec fn spec_castle_rook_target(player: Color, kingside: bool) -> int {
    (if kingside {
        5int
    } else {
        3int
    }) + 56 * player.spec_idx()
}

/// How the position after `mv` relates to the position before it: every
/// field of the board after `make_move_only`, stated over the position
/// before the call. The mover's piece leaves its origin and appears on its
/// destination (as the promotion piece when promoting; king and rook both,
/// when castling), the captured piece leaves, the en-passant state,
/// castling rights, clocks and side to move are updated, and both Zobrist
/// keys still equal their from-scratch recomputation if they did before.
pub open spec fn spec_move_result(pre: Board, post: Board, mv: crate::moves::Move) -> bool {
    let ci = pre.player.spec_idx() as int;
    let ei = pre.player.spec_flip().spec_idx() as int;
    let from = mv.spec_from();
    let to = mv.spec_to();
    &&& post.player == pre.player.spec_flip()
    &&& post.halfmove_clock == (if pre.spec_resets_clock(mv) {
        0int
    } else if pre.halfmove_clock < 255 {
        pre.halfmove_clock + 1
    } else {
        255int
    })
    &&& post.fullmove_count == (if pre.player == Color::Black && pre.fullmove_count < 65535 {
        pre.fullmove_count + 1
    } else {
        pre.fullmove_count as int
    })
    &&& post.ep_mask == pre.spec_ep_after(mv)
    &&& post.castles[ci][0] == (if pre.spec_moved_piece(mv) == Piece::King || has_sq(
        pre.castles[ci][0],
        from,
    ) {
        0u64
    } else {
        pre.castles[ci][0]
    })
    &&& post.castles[ci][1] == (if pre.spec_moved_piece(mv) == Piece::King || has_sq(
        pre.castles[ci][1],
        from,
    ) {
        0u64
    } else {
        pre.castles[ci][1]
    })
    &&& post.castles[ei][0] == (if has_sq(pre.castles[ei][0], to) {
        0u64
    } else {
        pre.castles[ei][0]
    })
    &&& post.castles[ei][1] == (if has_sq(pre.castles[ei][1], to) {
        0u64
    } else {
        pre.castles[ei][1]
    })
    &&& (pre.hash == pre.spec_hash() ==> post.hash == post.spec_hash())
    &&& (pre.pawn_hash == pre.spec_pawn_hash() ==> post.pawn_hash == post.spec_pawn_hash())
}

/// Where the king lands when castling.
pub fn castle_king_target(player: Color, kingside: bool) -> (r: u8)
    ensures
        r < 64,
        r == spec_castle_king_target(player, kingside),
{
    let base: u8 = if kingside {
        6
    } else {
        2
    };
    base + 56 * (player.idx() as u8)
}

/// Where the rook lands when castling.
pub fn castle_rook_target(player: Color, kingside: bool) -> (r: u8)
    ensures
        r < 64,
        r == spec_castle_rook_target(player, kingside),
{
    let base: u8 = if kingside {
        5
    } else {
        3
    };
    base + 56 * (player.idx() as u8)
}

/// The frame of one `xor_piece` or `move_piece` call in `bb` form: only
/// the board of `(c, p)` changed, and it changed by `m`.
pub proof fn lemma_bb_frame(b1: Board, b2: Board, c: Color, p: Piece, m: u64)
    requires
        b2.pawns == (if p == Piece::Pawn {
            spec_update2(b1.pawns, c, m)
        } else {
            b1.pawns
        }),
        b2.knights == (if p == Piece::Knight {
            spec_update2(b1.knights, c, m)
        } else {
            b1.knights
        }),
        b2.bishops == (if p == Piece::Bishop {
            spec_update2(b1.bishops, c, m)
        } else {
            b1.bishops
        }),
        b2.rooks == (if p == Piece::Rook {
            spec_update2(b1.rooks, c, m)
        } else {
            b1.rooks
        }),
        b2.queens == (if p == Piece::Queen {
            spec_update2(b1.queens, c, m)
        } else {
            b1.queens
        }),
        b2.kings == (if p == Piece::King {
            spec_update2(b1.kings, c, m)
        } else {
            b1.kings
        }),
    ensures
        forall|c2: Color, p2: Piece|
            !(c2 == c && p2 == p) ==> b1.bb(c2, p2) == #[trigger] b2.bb(c2, p2),
        b2.bb(c, p) == b1.bb(c, p) ^ m,
{
    assert forall|c2: Color, p2: Piece|
        !(c2 == c && p2 == p) implies b1.bb(c2, p2) == #[trigger] b2.bb(c2, p2) by {
        if p2 == p {
            assert(c2 != c);
        }
    }
}

/// Toggling squares on the board of `(c, p)` leaves every other board's
/// key contribution alone, so the piece-key XOR of the first `n` slots
/// moves by that one board's delta.
proof fn lemma_pieces_fold_update(b1: Board, b2: Board, c: Color, p: Piece, n: int)
    requires
        forall|c2: Color, p2: Piece|
            !(c2 == c && p2 == p) ==> b1.bb(c2, p2) == #[trigger] b2.bb(c2, p2),
        n <= 12,
    ensures
        b2.pieces_fold(n) == b1.pieces_fold(n) ^ (if 2 * p.spec_idx() + c.spec_idx() < n {
            piece_hash(c, p, b1.bb(c, p)) ^ piece_hash(c, p, b2.bb(c, p))
        } else {
            0u64
        }),
    decreases n,
{
    crate::zobrist::lemma_xor_algebra();
    let pi = p.spec_idx() as int;
    let ci = c.spec_idx() as int;
    assert(0 <= pi <= 5 && 0 <= ci <= 1);
    assert((2 * pi + ci) % 2 == ci && (2 * pi + ci) / 2 == pi) by (nonlinear_arith)
        requires
            0 <= pi,
            0 <= ci < 2,
    ;
    if n <= 0 {
    } else {
        lemma_pieces_fold_update(b1, b2, c, p, n - 1);
        let k = n - 1;
        let sc = Board::slot_color(k);
        let sp = Board::slot_piece(k);
        if k == 2 * pi + ci {
            assert(k % 2 == ci);
            assert(sc == c);
            assert(sp == Piece::spec_from_index(pi as u8));
            assert(sp == p);
        } else {
            if sc == c && sp == p {
                assert(k % 2 == ci);
                assert(0 <= k / 2 <= 5);
                assert(Piece::spec_from_index((k / 2) as u8) == p);
                assert(k / 2 == pi);
                assert(k == 2 * (k / 2) + k % 2) by (nonlinear_arith)
                    requires
                        k >= 0,
                ;
                assert(false);
            }
            assert(b1.bb(sc, sp) == b2.bb(sc, sp));
        }
    }
}

/// Toggling squares of one piece board moves the full piece-key XOR by
/// that board's key delta.
proof fn lemma_pieces_hash_update(b1: Board, b2: Board, c: Color, p: Piece)
    requires
        forall|c2: Color, p2: Piece|
            !(c2 == c && p2 == p) ==> b1.bb(c2, p2) == #[trigger] b2.bb(c2, p2),
    ensures
        b2.spec_pieces_hash() == b1.spec_pieces_hash() ^ (piece_hash(c, p, b1.bb(c, p))
            ^ piece_hash(c, p, b2.bb(c, p))),
{
    lemma_pieces_fold_update(b1, b2, c, p, 12);
    assert(2 * p.spec_idx() + c.spec_idx() < 12);
}

/// After toggling square `s` of the board of `(c, p)`, the piece-key XOR
/// moves by exactly that square's key.
pub proof fn lemma_pieces_hash_toggle1(b1: Board, b2: Board, c: Color, p: Piece, s: u64)
    requires
        s < 64,
        b2.bb(c, p) == b1.bb(c, p) ^ (1u64 << s),
        forall|c2: Color, p2: Piece|
            !(c2 == c && p2 == p) ==> b1.bb(c2, p2) == #[trigger] b2.bb(c2, p2),
    ensures
        b2.spec_pieces_hash() == b1.spec_pieces_hash() ^ spec_zobrist_piece(c, p, s as int),
{
    lemma_pieces_hash_update(b1, b2, c, p);
    crate::zobrist::lemma_piece_hash_toggle(c, p, b1.bb(c, p), s);
    crate::zobrist::lemma_xor_algebra();
}

/// After toggling two distinct squares of the board of `(c, p)`, the
/// piece-key XOR moves by both squares' keys.
pub proof fn lemma_pieces_hash_toggle2(b1: Board, b2: Board, c: Color, p: Piece, a: u64, b: u64)
    requires
        a < 64,
        b < 64,
        a != b,
        b2.bb(c, p) == b1.bb(c, p) ^ ((1u64 << a) | (1u64 << b)),
        forall|c2: Color, p2: Piece|
            !(c2 == c && p2 == p) ==> b1.bb(c2, p2) == #[trigger] b2.bb(c2, p2),
    ensures
        b2.spec_pieces_hash() == b1.spec_pieces_hash() ^ spec_zobrist_piece(c, p, a as int)
            ^ spec_zobrist_piece(c, p, b as int),
{
    lemma_pieces_hash_update(b1, b2, c, p);
    crate::zobrist::lemma_piece_hash_toggle2(c, p, b1.bb(c, p), a, b);
    crate::zobrist::lemma_xor_algebra();
}

/// Toggling square `s` of one color's pawn board moves the pawn key by
/// that square's key.
pub proof fn lemma_pawn_hash_toggle1(b1: Board, b2: Board, c: Color, s: u64)
    requires
        s < 64,
        b2.pawns == spec_update2(b1.pawns, c, 1u64 << s),
    ensures
        b2.spec_pawn_hash() == b1.spec_pawn_hash() ^ spec_zobrist_piece(c, Piece::Pawn, s as int),
{
    crate::zobrist::lemma_xor_algebra();
    if c == Color::White {
        crate::zobrist::lemma_piece_hash_toggle(Color::White, Piece::Pawn, b1.pawns[0], s);
    } else {
        crate::zobrist::lemma_piece_hash_toggle(Color::Black, Piece::Pawn, b1.pawns[1], s);
    }
}

/// Toggling two distinct squares of one color's pawn board moves the pawn
/// key by both squares' keys.
pub proof fn lemma_pawn_hash_toggle2(b1: Board, b2: Board, c: Color, a: u64, b: u64)
    requires
        a < 64,
        b < 64,
        a != b,
        b2.pawns == spec_update2(b1.pawns, c, (1u64 << a) | (1u64 << b)),
    ensures
        b2.spec_pawn_hash() == b1.spec_pawn_hash() ^ spec_zobrist_piece(c, Piece::Pawn, a as int)
            ^ spec_zobrist_piece(c, Piece::Pawn, b as int),
{
    crate::zobrist::lemma_xor_algebra();
    if c == Color::White {
        crate::zobrist::lemma_piece_hash_toggle2(Color::White, Piece::Pawn, b1.pawns[0], a, b);
    } else {
        crate::zobrist::lemma_piece_hash_toggle2(Color::Black, Piece::Pawn, b1.pawns[1], a, b);
    }
}

/// Two boards with the same piece placement have the same piece-key XOR.
pub proof fn lemma_pieces_fold_congr(b1: Board, b2: Board, n: int)
    requires
        b1.pawns == b2.pawns,
        b1.knights == b2.knights,
        b1.bishops == b2.bishops,
        b1.rooks == b2.rooks,
        b1.queens == b2.queens,
        b1.kings == b2.kings,
    ensures
        b1.pieces_fold(n) == b2.pieces_fold(n),
    decreases n,
{
    if n <= 0 {
    } else {
        lemma_pieces_fold_congr(b1, b2, n - 1);
        let sc = Board::slot_color(n - 1);
        let sp = Board::slot_piece(n - 1);
        assert(b1.bb(sc, sp) == b2.bb(sc, sp));
    }
}

} // verus!
