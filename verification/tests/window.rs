use crinnge::types::{AspirationWindow, ScoreType, INF};

#[test]
fn window_around_scores_mid_exact() {
    let w = AspirationWindow::new_around(17, 40);
    assert_eq!(w.lower, -3);
    assert_eq!(w.upper, 37);
    assert!(matches!(w.test(17), ScoreType::Exact));
}

#[test]
fn window_classifies_bounds() {
    let w = AspirationWindow::new(50, -10);
    assert!(matches!(w.test(-10), ScoreType::UpperBound));
    assert!(matches!(w.test(-300), ScoreType::UpperBound));
    assert!(matches!(w.test(50), ScoreType::LowerBound));
    assert!(matches!(w.test(70), ScoreType::LowerBound));
    assert!(matches!(w.test(0), ScoreType::Exact));
}

#[test]
fn window_expands_on_failing_side_only() {
    let mut w = AspirationWindow::new_around(0, 40);
    assert_eq!((w.lower, w.upper), (-20, 20));
    let upper_before = w.upper;
    w.expand_down(200);
    assert_eq!(w.upper, upper_before);
    // midpoint 0, distance to the lower bound 20, scaled by 200 percent
    assert_eq!(w.lower, -40);

    let mut w = AspirationWindow::new_around(0, 40);
    let lower_before = w.lower;
    w.expand_up(200);
    assert_eq!(w.lower, lower_before);
    assert_eq!(w.upper, 40);
}

#[test]
fn window_expansion_clips_at_infinity() {
    let mut w = AspirationWindow::new_around(-31000, 2000);
    for _ in 0..20 {
        w.expand_down(999);
    }
    assert!(w.lower >= -INF);
    let mut w = AspirationWindow::new_around(31000, 2000);
    for _ in 0..20 {
        w.expand_up(999);
    }
    assert!(w.upper <= INF);
}

#[test]
fn full_window_is_default() {
    let w = AspirationWindow::default();
    assert_eq!(w.lower, -INF);
    assert_eq!(w.upper, INF);
    assert!(matches!(w.test(0), ScoreType::Exact));
}
