use crinnge::historytables::{
    apply_history_bonus, apply_history_malus, HistoryTable, HISTORY_MAX,
};
use crinnge::types::Piece;

#[test]
fn bonus_and_malus_follow_gravity_formula() {
    let mut s: i16 = 0;
    apply_history_bonus(&mut s, 100);
    assert_eq!(s, 100);
    apply_history_bonus(&mut s, 100);
    // 100 + 100 - 100*100/16383
    assert_eq!(s, 200 - (100 * 100) / 16383);
    let mut m: i16 = 0;
    apply_history_malus(&mut m, 100);
    assert_eq!(m, -100);
}

#[test]
fn history_saturates_within_bounds() {
    let mut s: i16 = 0;
    for _ in 0..1000 {
        apply_history_bonus(&mut s, HISTORY_MAX);
        assert!(-HISTORY_MAX <= s && s <= HISTORY_MAX);
    }
    assert_eq!(s, HISTORY_MAX);
    for _ in 0..1000 {
        apply_history_malus(&mut s, HISTORY_MAX);
        assert!(-HISTORY_MAX <= s && s <= HISTORY_MAX);
    }
    assert_eq!(s, -HISTORY_MAX);
    // alternating updates of every size stay inside as well
    let mut t: i16 = 0;
    for d in [1i16, 37, 500, 16383, 9, 1200] {
        apply_history_bonus(&mut t, d);
        assert!(-HISTORY_MAX <= t && t <= HISTORY_MAX);
        apply_history_malus(&mut t, d);
        assert!(-HISTORY_MAX <= t && t <= HISTORY_MAX);
    }
}

#[test]
fn table_updates_one_cell() {
    let mut table = HistoryTable::new();
    assert_eq!(table.get(Piece::Knight, 12), 0);
    table.bonus(Piece::Knight, 12, table.delta(4));
    assert_eq!(table.get(Piece::Knight, 12), 16);
    assert_eq!(table.get(Piece::Knight, 13), 0);
    assert_eq!(table.get(Piece::Bishop, 12), 0);
    table.malus(Piece::Knight, 12, 16);
    table.clear();
    assert_eq!(table.get(Piece::Knight, 12), 0);
}
