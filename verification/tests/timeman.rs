use crinnge::search::info::randomize_draw_score;
use crinnge::search::options::SearchOptions;
use crinnge::timeman::{TimeData, TimeManager};
use std::sync::atomic::{AtomicBool, AtomicU64};

#[test]
fn clock_budgets_follow_the_formulas() {
    let options = SearchOptions::default().time_options();
    let data = TimeData {
        stm_time: 60_000,
        ntm_time: 60_000,
        stm_inc: 1_000,
        ntm_inc: 1_000,
        movestogo: None,
    };
    let tm = TimeManager::new(0).time_limited(data, options);
    // hard: (60000*50 + 1000*50)/100 = 30500; soft: (60000*5 + 1000*50)/100 = 3500
    assert!(tm.hard_time_limit_reached(30_500));
    assert!(!tm.hard_time_limit_reached(30_499));
    assert!(tm.soft_time_limit_reached(3_500));
    assert!(!tm.soft_time_limit_reached(3_499));
}

#[test]
fn hard_budget_never_drops_below_a_tenth_of_the_clock() {
    let options = SearchOptions::default().time_options();
    let data = TimeData {
        stm_time: 10_000,
        ntm_time: 10_000,
        stm_inc: -20_000,
        ntm_inc: 0,
        movestogo: None,
    };
    let tm = TimeManager::new(0).time_limited(data, options);
    // percent arithmetic would go negative; the floor is stm_time/10
    assert!(!tm.hard_time_limit_reached(999));
    assert!(tm.hard_time_limit_reached(1_000));
}

#[test]
fn movestogo_splits_the_clock() {
    let options = SearchOptions::default().time_options();
    let data = TimeData {
        stm_time: 40_000,
        ntm_time: 40_000,
        stm_inc: 0,
        ntm_inc: 0,
        movestogo: Some(40),
    };
    let tm = TimeManager::new(0).time_limited(data, options);
    assert!(tm.soft_time_limit_reached(1_000));
    assert!(!tm.soft_time_limit_reached(999));
}

#[test]
fn overriding_limits() {
    let tm = TimeManager::new(5).fixed_time_millis(Some(100));
    assert!(!tm.hard_time_limit_reached(104));
    assert!(tm.hard_time_limit_reached(105));
    assert!(!tm.soft_time_limit_reached(u64::MAX));

    let tm = TimeManager::new(0).fixed_depth(Some(8));
    assert!(!tm.depth_limit_reached(7));
    assert!(tm.depth_limit_reached(8));
    assert!(!tm.hard_time_limit_reached(u64::MAX));

    let tm = TimeManager::new(0).fixed_nodes(Some(5000));
    assert!(!tm.node_limit_reached(4999));
    assert!(tm.node_limit_reached(5000));

    let options = SearchOptions::default().time_options();
    let data = TimeData {
        stm_time: 1000,
        ntm_time: 1000,
        stm_inc: 0,
        ntm_inc: 0,
        movestogo: None,
    };
    let tm = TimeManager::new(0).time_limited(data, options).infinite(true);
    assert!(!tm.hard_time_limit_reached(u64::MAX));
    assert!(!tm.soft_time_limit_reached(u64::MAX));
}

#[test]
fn draw_score_is_deterministic_zero() {
    let stop = AtomicBool::new(false);
    let nodes = AtomicU64::new(0);
    let info = crinnge::search::info::SearchInfo::new(&stop, &nodes);
    assert_eq!(randomize_draw_score(&info), 0);
    assert_eq!(randomize_draw_score(&info), 0);
}
