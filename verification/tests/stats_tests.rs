use simpomo::stats::Stats;
use simpomo::timer::TimerEvent::{BreakEnded, SessionFinished, WorkEnded};
use simpomo::timer::{Config, CycleSetting, Timer};

#[test]
fn record_counts_focus_and_sets() {
    let mut s = Stats::default();
    assert!(s.record(&[WorkEnded]));
    assert_eq!(s.completed_focus, 1);
    assert_eq!(s.completed_sets, 0);
    assert!(s.record(&[BreakEnded]));
    assert_eq!(s.completed_focus, 1);
    assert_eq!(s.completed_sets, 1);
}

#[test]
fn record_handles_catch_up_batch() {
    // スリープ復帰で複数境界が一度に来ても各イベントを数える。
    let mut s = Stats::default();
    s.record(&[WorkEnded, BreakEnded, WorkEnded, BreakEnded, SessionFinished]);
    assert_eq!(s.completed_focus, 2);
    assert_eq!(s.completed_sets, 2);
}

#[test]
fn session_finished_alone_does_not_count() {
    let mut s = Stats::default();
    assert!(!s.record(&[SessionFinished]));
    assert_eq!(s, Stats::default());
}

#[test]
fn record_empty_is_noop() {
    let mut s = Stats::default();
    assert!(!s.record(&[]));
    assert_eq!(s, Stats::default());
}

#[test]
fn saturates_instead_of_overflowing() {
    // saturating_add の意図を固定（到達しない値だが、増分でパニックしない）。
    let mut s = Stats {
        completed_focus: u32::MAX,
        completed_sets: u32::MAX,
    };
    assert!(s.record(&[WorkEnded, BreakEnded]));
    assert_eq!(s.completed_focus, u32::MAX);
    assert_eq!(s.completed_sets, u32::MAX);
}

#[test]
fn counts_match_timer_real_output() {
    // record が依存する timer の出力契約（イベント順・session は末尾）を、Timer を実走させて結合検証する。
    // 不変条件: 各セットで focus と sets が 1 ずつ増え、focus >= sets が常に成立する。
    let mut t = Timer::new(Config {
        work_secs: 2,
        break_secs: 2,
        cycles: CycleSetting::Finite(3),
    });
    t.start();
    let mut s = Stats::default();
    // 3 セット（作業2秒→休憩2秒）を秒進行で消化する。
    for _ in 0..12 {
        s.record(&t.tick(1));
        assert!(s.completed_focus >= s.completed_sets, "focus >= sets 不変条件");
    }
    assert_eq!(s.completed_focus, 3);
    assert_eq!(s.completed_sets, 3);
}
