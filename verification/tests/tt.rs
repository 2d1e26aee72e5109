use std::sync::atomic::{AtomicBool, AtomicU64};

use crinnge::moves::Move;
use crinnge::search::info::SearchInfo;
use crinnge::tt::{TTEntry, TTEntryInfo, TTScore, TT};
use crinnge::types::ScoreType;

#[test]
fn tt_score_round_trips_at_same_ply() {
    for (score, ply) in [
        (0i32, 0usize),
        (125, 7),
        (-125, 7),
        (30999, 12),
        (-30999, 12),
        (29873, 128),
        (-29873, 3),
        (31000, 0),
        (-31000, 128),
    ] {
        let stored = TTScore::new(score, ply);
        assert_eq!(stored.get(ply), score);
    }
}

#[test]
fn tt_score_adjusts_mate_distances() {
    // a mate score stored deeper reads shallower by the difference
    let stored = TTScore::new(30900, 10);
    assert_eq!(stored.get(4), 30906);
    let stored = TTScore::new(-30900, 10);
    assert_eq!(stored.get(4), -30906);
}

#[test]
fn entry_info_round_trips() {
    for st in [ScoreType::Exact, ScoreType::LowerBound, ScoreType::UpperBound] {
        assert_eq!(TTEntryInfo::new(st).score_type(), st);
    }
}

#[test]
fn entry_packs_and_unpacks() {
    let e = TTEntry {
        key: 0xBEEF,
        best_move: Move::new(12, 28, None),
        score: TTScore::new(-412, 0),
        depth: 9,
        info: TTEntryInfo::new(ScoreType::LowerBound),
    };
    let d = TTEntry::unpack(e.pack());
    assert_eq!(d.key, e.key);
    assert_eq!(d.best_move, e.best_move);
    assert_eq!(d.score.get(0), e.score.get(0));
    assert_eq!(d.depth, e.depth);
    assert_eq!(d.info.score_type(), ScoreType::LowerBound);
}

#[test]
fn store_then_probe_returns_the_entry() {
    let tt = TT::new(1);
    let slice = tt.slice();
    let key = 0x1234_5678_9ABC_DEF0u64;
    let mv = Move::new(52, 36, None);
    slice.store(key, 312, ScoreType::Exact, mv, 6, 2);
    let hit = slice.get(key).expect("stored entry should be found");
    assert_eq!(hit.best_move, mv);
    assert_eq!(hit.depth, 6);
    assert_eq!(hit.score.get(2), 312);
    assert_eq!(hit.info.score_type(), ScoreType::Exact);
    // a key with a different fragment misses
    assert!(slice.get(key ^ 0xFFFF).is_none());
}

#[test]
fn empty_table_always_misses() {
    let tt = TT::new(0);
    let slice = tt.slice();
    slice.store(42, 1, ScoreType::Exact, Move::null(), 1, 0);
    assert!(slice.get(42).is_none());
}

#[test]
fn clear_and_resize_keep_shape() {
    let mut tt = TT::new(1);
    let slice = tt.slice();
    slice.store(99, 5, ScoreType::UpperBound, Move::null(), 1, 0);
    assert!(tt.slice().fill() >= 1);
    tt.clear();
    assert_eq!(tt.slice().fill(), 0);
    tt.resize(2);
    assert!(tt.slice().get(99).is_none());
}

#[test]
fn node_counting_flushes_every_1024() {
    let stop = AtomicBool::new(false);
    let nodes = AtomicU64::new(0);
    let mut info = SearchInfo::new(&stop, &nodes);
    let mut flushes = 0;
    for _ in 0..4096 {
        if info.inc_nodes() {
            flushes += 1;
        }
    }
    assert_eq!(flushes, 4);
    assert_eq!(info.local_node_count(), 4096);
    assert_eq!(info.global_node_count(), 4096);
    assert!(!info.stopped());
    info.stop();
    assert!(info.stopped());
}
