use crinnge::board::Board;
use crinnge::moves::Move;
use crinnge::types::{Color, Piece};

#[test]
fn start_position_shape() {
    let board = Board::new();
    assert_eq!(board.player(), Color::White);
    assert_eq!(board.piece_on(4), Some(Piece::King));
    assert_eq!(board.piece_on(12), Some(Piece::Pawn));
    assert_eq!(board.piece_on(27), None);
    assert_eq!(board.all_pieces().count_ones(), 32);
    assert!(!board.in_check());
    assert!(board.has_non_pawns(Color::White));
}

#[test]
fn perft_counts_from_start() {
    let board = Board::new();
    assert_eq!(board.perft(1), 20);
    assert_eq!(board.perft(2), 400);
    assert_eq!(board.perft(3), 8902);
}

#[test]
fn hash_stays_in_sync_with_recomputation() {
    let board = Board::new();
    assert_eq!(board.hash(), board.recalculate_hash());
    assert_eq!(board.pawn_hash(), board.recalculate_pawn_hash());

    // walk a few plies deep along every first legal line
    let mut stack = vec![board];
    for _ in 0..3 {
        let mut next_stack = Vec::new();
        for b in &stack {
            for mv in b.legal_moves() {
                let after = b.try_move(mv).unwrap();
                assert_eq!(after.hash(), after.recalculate_hash());
                assert_eq!(after.pawn_hash(), after.recalculate_pawn_hash());
                next_stack.push(after);
            }
        }
        stack = next_stack;
        stack.truncate(12);
    }
}

#[test]
fn copy_make_leaves_the_parent_untouched() {
    let board = Board::new();
    let before = (board.hash(), board.pawn_hash(), board.contents().0, board.player());
    for mv in board.legal_moves() {
        let _ = board.try_move(mv);
    }
    let after = (board.hash(), board.pawn_hash(), board.contents().0, board.player());
    assert_eq!(before.0, after.0);
    assert_eq!(before.1, after.1);
    assert_eq!(before.2, after.2);
    assert_eq!(before.3, after.3);
}

#[test]
fn make_move_flips_player_and_clocks() {
    let board = Board::new();
    // e2e4: a double push sets the en-passant square behind the pawn
    let e2e4 = Move::new(12, 28, None);
    let after = board.try_move(e2e4).unwrap();
    assert_eq!(after.player(), Color::Black);
    assert_eq!(after.halfmove_clock(), 0);
    assert_eq!(after.piece_on(28), Some(Piece::Pawn));
    assert_eq!(after.piece_on(12), None);
    // a knight move leaves the clock ticking
    let g1f3 = Move::new(6, 21, None);
    let after2 = board.try_move(g1f3).unwrap();
    assert_eq!(after2.halfmove_clock(), 1);
    // null move flips the player and clears en-passant state
    let mut nulled = after;
    nulled.make_null_move_only();
    assert_eq!(nulled.player(), Color::White);
    assert_eq!(nulled.hash(), nulled.recalculate_hash());
}

#[test]
fn illegal_and_shapeless_moves_are_rejected() {
    let board = Board::new();
    // a move from an empty square does not apply
    assert!(!board.move_applies(Move::new(27, 35, None)));
    assert!(board.try_move(Move::new(27, 35, None)).is_none());
    // a rook "move" through its own pawn is not generated
    let legals = board.legal_moves();
    assert_eq!(legals.len(), 20);
    assert!(!legals.contains(&Move::new(0, 16, None)));
    // the generator never emits duplicates
    let pseudo = board.pseudolegal_moves();
    for i in 0..pseudo.len() {
        for j in 0..pseudo.len() {
            if i != j {
                assert_ne!(pseudo[i].0, pseudo[j].0);
            }
        }
    }
}
