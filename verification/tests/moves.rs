use crinnge::moves::{Move, MoveList};
use crinnge::types::Piece;

// Square indices: file = sq % 8, rank = sq / 8.
const A7: u8 = 48;
const A8: u8 = 56;
const E1: u8 = 4;
const G1: u8 = 6;
const E5: u8 = 36;
const D6: u8 = 43;

#[test]
fn test_move_packing() {
    let mv = Move::new(A7, A8, Some(Piece::Rook));
    assert!(mv.from() == A7);
    assert!(mv.to() == A8);
    assert!(mv.promo() == Some(Piece::Rook));
    assert!(!mv.is_castling());
    assert!(!mv.is_ep());

    let mv = Move::new_castle(E1, G1);
    assert!(mv.is_castling());

    let mv = Move::new_ep(E5, D6);
    assert!(mv.is_ep());
}

#[test]
fn null_move_is_null() {
    assert!(Move::null().is_null());
    assert!(!Move::new(E1, G1, None).is_null());
    assert_eq!(Move::default().0, 0);
}

#[test]
fn packing_distinguishes_moves() {
    let quiet = Move::new(A7, A8, None);
    let promo_q = Move::new(A7, A8, Some(Piece::Queen));
    let promo_n = Move::new(A7, A8, Some(Piece::Knight));
    let castle = Move::new_castle(A7, A8);
    let ep = Move::new_ep(A7, A8);
    let all = [quiet, promo_q, promo_n, castle, ep];
    for i in 0..all.len() {
        for j in 0..all.len() {
            if i != j {
                assert_ne!(all[i].0, all[j].0);
            }
        }
    }
    assert_eq!(promo_q.promo(), Some(Piece::Queen));
    assert_eq!(promo_n.promo(), Some(Piece::Knight));
    assert_eq!(castle.promo(), None);
}

#[test]
fn move_list_selects_highest_score_first() {
    let mut list = MoveList::new();
    let a = Move::new(0, 1, None);
    let b = Move::new(0, 2, None);
    let c = Move::new(0, 3, None);
    list.push(a);
    list.push(b);
    list.push(c);
    list.set_score(0, -5);
    list.set_score(1, 30);
    list.set_score(2, 10);

    let first = list.next(0).unwrap();
    assert_eq!(first.mv, b);
    assert_eq!(first.score, 30);
    let second = list.next(1).unwrap();
    assert_eq!(second.mv, c);
    let third = list.next(2).unwrap();
    assert_eq!(third.mv, a);
    assert!(list.next(3).is_none());
}
