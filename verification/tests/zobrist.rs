use crinnge::attacks::{between, bishop_attacks, knight_attacks, rook_attacks};
use crinnge::bits::{first_square, pop_lowest, sq_bb, sq_file, sq_flip, sq_rank};
use crinnge::types::{Color, Piece};
use crinnge::zobrist::{zobrist_castling, zobrist_ep, zobrist_piece, zobrist_player};

#[test]
fn zobrist_keys_are_distinct_and_stable() {
    let a = zobrist_piece(Color::White, Piece::Pawn, 8);
    let b = zobrist_piece(Color::White, Piece::Pawn, 9);
    let c = zobrist_piece(Color::Black, Piece::Pawn, 8);
    let d = zobrist_piece(Color::White, Piece::Knight, 8);
    assert_ne!(a, b);
    assert_ne!(a, c);
    assert_ne!(a, d);
    assert_eq!(a, zobrist_piece(Color::White, Piece::Pawn, 8));
    assert_ne!(zobrist_player(), 0);
}

#[test]
fn castling_key_depends_on_the_rights_pattern() {
    let none = [[0u64, 0u64], [0u64, 0u64]];
    let all = [[1u64, 128u64], [1u64 << 56, 128u64 << 56]];
    assert_ne!(zobrist_castling(&none), zobrist_castling(&all));
    assert_eq!(zobrist_castling(&all), zobrist_castling(&all));
}

#[test]
fn ep_key_depends_on_the_file() {
    let e3 = sq_bb(20);
    let d3 = sq_bb(19);
    assert_ne!(zobrist_ep(e3), zobrist_ep(d3));
    // an empty mask hashes like file 0
    assert_eq!(zobrist_ep(0), zobrist_ep(sq_bb(16)));
}

#[test]
fn square_arithmetic() {
    assert_eq!(sq_file(12), 4);
    assert_eq!(sq_rank(12), 1);
    assert_eq!(sq_flip(12), 52);
    assert_eq!(first_square(0b1100), 2);
    assert_eq!(pop_lowest(0b1100), 0b1000);
    assert_eq!(first_square(0), 64);
}

#[test]
fn attack_sets_from_known_squares() {
    // knight on a1 attacks b3 and c2
    assert_eq!(knight_attacks(sq_bb(0)), sq_bb(17) | sq_bb(10));
    // rook on a1 on an empty board attacks its file and rank
    let rook = rook_attacks(0, 0);
    assert_eq!(rook.count_ones(), 14);
    // bishop on d4 with a blocker on f6 stops there
    let blocker = sq_bb(45);
    let bishop = bishop_attacks(27, blocker);
    assert!(bishop & sq_bb(45) != 0);
    assert!(bishop & sq_bb(54) == 0);
    // squares between e1 and h1
    assert_eq!(between(4, 7), sq_bb(5) | sq_bb(6));
    assert_eq!(between(4, 6), sq_bb(5));
    // unaligned squares have nothing between them
    assert_eq!(between(0, 12), 0);
}
