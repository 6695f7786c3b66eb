use simpomo::timer::{
    Config, CycleSetting, Phase, Status, Timer, TimerEvent, TimerState, MIN_PHASE_SECS,
};

fn config(work: u32, brk: u32, cycles: CycleSetting) -> Config {
    Config {
        work_secs: work,
        break_secs: brk,
        cycles,
    }
}

#[test]
fn default_config_is_25_5_and_finite_zero() {
    // 既定が「作業25分=1500秒 / 休憩5分=300秒」であることを生リテラルで固定する。
    let c = Config::default();
    assert_eq!(c.work_secs, 1500);
    assert_eq!(c.break_secs, 300);
    assert_eq!(c.cycles, CycleSetting::Finite(0));
}

#[test]
fn new_timer_starts_idle_at_work() {
    let t = Timer::new(Config::default());
    let s = t.snapshot();
    assert_eq!(s.status, Status::Idle);
    assert_eq!(s.phase, Phase::Work);
    assert_eq!(s.remaining_secs, 1500);
    assert_eq!(s.set_index, 0);
    assert_eq!(s.total_sets, Some(1));
}

#[test]
fn tick_while_idle_does_nothing() {
    let mut t = Timer::new(Config::default());
    let events = t.tick(60);
    assert!(events.is_empty());
    assert_eq!(t.snapshot().remaining_secs, 1500);
    assert_eq!(t.snapshot().status, Status::Idle);
}

#[test]
fn start_then_tick_counts_down() {
    let mut t = Timer::new(config(10, 5, CycleSetting::Infinite));
    t.start();
    let events = t.tick(3);
    assert!(events.is_empty());
    assert_eq!(t.snapshot().remaining_secs, 7);
    assert_eq!(t.snapshot().status, Status::Running);
}

#[test]
fn work_completes_to_break() {
    let mut t = Timer::new(config(10, 5, CycleSetting::Infinite));
    t.start();
    let events = t.tick(10);
    assert_eq!(events, vec![TimerEvent::WorkEnded]);
    let s = t.snapshot();
    assert_eq!(s.phase, Phase::Break);
    assert_eq!(s.remaining_secs, 5);
    assert_eq!(s.set_index, 0);
}

#[test]
fn cycles_zero_runs_exactly_one_set_then_idle() {
    let mut t = Timer::new(config(10, 5, CycleSetting::Finite(0)));
    t.start();
    assert_eq!(t.tick(10), vec![TimerEvent::WorkEnded]);
    let events = t.tick(5);
    assert_eq!(
        events,
        vec![TimerEvent::BreakEnded, TimerEvent::SessionFinished]
    );
    let s = t.snapshot();
    assert_eq!(s.status, Status::Idle);
    assert_eq!(s.phase, Phase::Work);
    assert_eq!(s.set_index, 0);
    assert_eq!(s.remaining_secs, 10);
}

#[test]
fn cycles_zero_and_one_are_equivalent() {
    // どちらも 1 セットで停止する（仕様上の意図的等価）。
    for cycles in [CycleSetting::Finite(0), CycleSetting::Finite(1)] {
        let mut t = Timer::new(config(2, 2, cycles));
        t.start();
        let mut all = t.tick(2);
        all.extend(t.tick(2));
        assert!(all.contains(&TimerEvent::SessionFinished), "{cycles:?}");
        assert_eq!(t.snapshot().status, Status::Idle, "{cycles:?}");
    }
}

#[test]
fn finite_n_runs_n_sets_then_stops() {
    let mut t = Timer::new(config(2, 2, CycleSetting::Finite(3)));
    t.start();
    // 2 セット分（作業+休憩）×2 を消化しても終わらない。
    for expected_set in 0..2u32 {
        assert_eq!(t.tick(2), vec![TimerEvent::WorkEnded]);
        assert_eq!(t.tick(2), vec![TimerEvent::BreakEnded]);
        assert_eq!(t.snapshot().set_index, expected_set + 1);
        assert_eq!(t.snapshot().status, Status::Running);
    }
    // 3 セット目の休憩終了でセッション完了。
    assert_eq!(t.tick(2), vec![TimerEvent::WorkEnded]);
    assert_eq!(
        t.tick(2),
        vec![TimerEvent::BreakEnded, TimerEvent::SessionFinished]
    );
    assert_eq!(t.snapshot().status, Status::Idle);
    assert_eq!(t.snapshot().set_index, 0);
}

#[test]
fn infinite_never_finishes() {
    let mut t = Timer::new(config(1, 1, CycleSetting::Infinite));
    t.start();
    for _ in 0..50 {
        let mut events = t.tick(1); // work end
        events.extend(t.tick(1)); // break end
        assert!(!events.contains(&TimerEvent::SessionFinished));
        assert_eq!(t.snapshot().status, Status::Running);
    }
    assert_eq!(t.snapshot().set_index, 50);
    assert_eq!(t.snapshot().total_sets, None);
}

#[test]
fn pause_stops_countdown_and_start_resumes() {
    let mut t = Timer::new(config(10, 5, CycleSetting::Infinite));
    t.start();
    t.tick(3);
    t.pause();
    assert_eq!(t.snapshot().status, Status::Paused);
    assert!(t.tick(100).is_empty());
    assert_eq!(t.snapshot().remaining_secs, 7); // 進まない
    t.start(); // 再開
    assert_eq!(t.snapshot().status, Status::Running);
    t.tick(7);
    assert_eq!(t.snapshot().phase, Phase::Break);
}

#[test]
fn reset_returns_to_idle_work_head() {
    let mut t = Timer::new(config(10, 5, CycleSetting::Finite(3)));
    t.start();
    t.tick(10); // → break
    t.reset();
    let s = t.snapshot();
    assert_eq!(s.status, Status::Idle);
    assert_eq!(s.phase, Phase::Work);
    assert_eq!(s.remaining_secs, 10);
    assert_eq!(s.set_index, 0);
}

#[test]
fn skip_work_jumps_to_break() {
    let mut t = Timer::new(config(10, 5, CycleSetting::Infinite));
    t.start();
    let events = t.skip();
    assert_eq!(events, vec![TimerEvent::WorkEnded]);
    assert_eq!(t.snapshot().phase, Phase::Break);
    assert_eq!(t.snapshot().remaining_secs, 5);
}

#[test]
fn skip_last_break_finishes_session() {
    let mut t = Timer::new(config(10, 5, CycleSetting::Finite(0)));
    t.start();
    assert_eq!(t.skip(), vec![TimerEvent::WorkEnded]); // → break
    let events = t.skip(); // break → finish
    assert_eq!(
        events,
        vec![TimerEvent::BreakEnded, TimerEvent::SessionFinished]
    );
    assert_eq!(t.snapshot().status, Status::Idle);
}

#[test]
fn skip_while_idle_is_noop() {
    let mut t = Timer::new(Config::default());
    assert!(t.skip().is_empty());
    assert_eq!(t.snapshot().status, Status::Idle);
}

#[test]
fn skip_while_paused_advances_phase_but_stays_paused() {
    let mut t = Timer::new(config(10, 5, CycleSetting::Infinite));
    t.start();
    t.tick(3);
    t.pause();
    let events = t.skip();
    assert_eq!(events, vec![TimerEvent::WorkEnded]);
    let s = t.snapshot();
    assert_eq!(s.phase, Phase::Break);
    assert_eq!(s.remaining_secs, 5);
    assert_eq!(s.status, Status::Paused); // skip しても一時停止は維持
}

#[test]
fn skip_final_break_while_paused_finishes_to_idle() {
    // 最終セットの休憩を Paused 中に skip すると、SessionFinished で Idle へ落ちる
    // （Paused という稼働状態が reset により消える非自明な副作用を固定する）。
    let mut t = Timer::new(config(10, 5, CycleSetting::Finite(0)));
    t.start();
    assert_eq!(t.skip(), vec![TimerEvent::WorkEnded]); // work → break (Running)
    t.pause();
    let events = t.skip(); // break(最終) → finish
    assert_eq!(
        events,
        vec![TimerEvent::BreakEnded, TimerEvent::SessionFinished]
    );
    assert_eq!(t.snapshot().status, Status::Idle);
}

#[test]
fn start_while_running_is_noop() {
    let mut t = Timer::new(config(10, 5, CycleSetting::Infinite));
    t.start();
    t.tick(3);
    t.start(); // 進行中の start は無視され、巻き戻らない
    assert_eq!(t.snapshot().remaining_secs, 7);
    assert_eq!(t.snapshot().status, Status::Running);
}

#[test]
fn tick_across_multiple_boundaries_in_one_call() {
    // work=2, break=1, 2 セット。10 秒一気に進めて完了まで到達する。
    let mut t = Timer::new(config(2, 1, CycleSetting::Finite(2)));
    t.start();
    let events = t.tick(10);
    // 1set: WorkEnded,BreakEnded / 2set: WorkEnded,BreakEnded+SessionFinished
    assert_eq!(
        events,
        vec![
            TimerEvent::WorkEnded,
            TimerEvent::BreakEnded,
            TimerEvent::WorkEnded,
            TimerEvent::BreakEnded,
            TimerEvent::SessionFinished,
        ]
    );
    assert_eq!(t.snapshot().status, Status::Idle);
    // 完了後は Idle なので、余った時間は消費されず巻き込まれない。
    assert_eq!(t.snapshot().remaining_secs, 2);
}

#[test]
fn zero_duration_config_is_clamped_and_safe() {
    // 0 秒設定は最小 1 秒に丸められ、tick が無限ループしない。
    let mut t = Timer::new(config(0, 0, CycleSetting::Infinite));
    let s = t.snapshot();
    assert_eq!(s.work_secs, MIN_PHASE_SECS);
    assert_eq!(s.break_secs, MIN_PHASE_SECS);
    t.start();
    let events = t.tick(3); // 3 秒で複数境界を跨ぐが停止する
    assert!(events.contains(&TimerEvent::WorkEnded));
}

#[test]
fn snapshot_total_sets_reflects_setting() {
    assert_eq!(
        Timer::new(config(1, 1, CycleSetting::Finite(0)))
            .snapshot()
            .total_sets,
        Some(1)
    );
    assert_eq!(
        Timer::new(config(1, 1, CycleSetting::Finite(4)))
            .snapshot()
            .total_sets,
        Some(4)
    );
    assert_eq!(
        Timer::new(config(1, 1, CycleSetting::Infinite))
            .snapshot()
            .total_sets,
        None
    );
}

#[test]
fn state_restore_round_trips_running_session() {
    // 走行中の状態を取り出して同じ config で復元すると、snapshot が一致する。
    let mut t = Timer::new(config(100, 30, CycleSetting::Finite(3)));
    t.start();
    t.tick(40); // 作業フェーズ、残り 60
    let restored = Timer::restore(t.config(), t.state());
    assert_eq!(restored.snapshot(), t.snapshot());
    assert_eq!(restored.snapshot().status, Status::Running);
    assert_eq!(restored.snapshot().remaining_secs, 60);
}

#[test]
fn restore_then_tick_catches_up_wall_elapsed() {
    // 復元後に「停止していた間の経過秒」を 1 回の tick で与えると、正しく進む（kill/Doze からの復帰）。
    let mut t = Timer::new(config(100, 30, CycleSetting::Infinite));
    t.start();
    t.tick(40); // 残り 60
    let mut restored = Timer::restore(t.config(), t.state());
    // プロセス停止中に 70 秒経過 → 作業(残り60)を越えて休憩へ入り、残り 20。
    let events = restored.tick(70);
    assert_eq!(events, vec![TimerEvent::WorkEnded]);
    assert_eq!(restored.snapshot().phase, Phase::Break);
    assert_eq!(restored.snapshot().remaining_secs, 20);
}

#[test]
fn restore_clamps_remaining_to_phase_length() {
    // 設定が縮んだ（あるいは壊れた永続値の）場合でも、remaining は現フェーズ長へクランプされる。
    let state = TimerState {
        phase: Phase::Work,
        status: Status::Running,
        remaining_secs: 9999,
        set_index: 0,
    };
    let restored = Timer::restore(config(60, 10, CycleSetting::Infinite), state);
    assert_eq!(restored.snapshot().remaining_secs, 60); // work_secs へクランプ
}

#[test]
fn restore_clamps_set_index_to_cycles() {
    // 永続後に cycles が縮んでも、set_index は total_sets-1 へクランプされ "9/3" のような不整合を防ぐ。
    let state = TimerState {
        phase: Phase::Break,
        status: Status::Running,
        remaining_secs: 5,
        set_index: 9,
    };
    let t = Timer::restore(config(60, 10, CycleSetting::Finite(3)), state);
    assert_eq!(t.snapshot().set_index, 2); // target 3 → 最大 index 2
    assert!(t.snapshot().set_index < t.snapshot().total_sets.unwrap());
}

#[test]
fn restore_for_launch_running_catches_up() {
    let state = TimerState {
        phase: Phase::Work,
        status: Status::Running,
        remaining_secs: 100,
        set_index: 0,
    };
    // 40 秒経過 → 100 - 40 = 60。
    let t = Timer::restore_for_launch(
        Some((state, 1000)),
        config(120, 30, CycleSetting::Infinite),
        false,
        1040,
    );
    assert_eq!(t.snapshot().status, Status::Running);
    assert_eq!(t.snapshot().remaining_secs, 60);
}

#[test]
fn restore_for_launch_paused_ignores_autostart_and_elapsed() {
    let state = TimerState {
        phase: Phase::Break,
        status: Status::Paused,
        remaining_secs: 15,
        set_index: 1,
    };
    let t = Timer::restore_for_launch(
        Some((state, 1000)),
        config(120, 30, CycleSetting::Finite(3)),
        true, // autostart は Paused 復元では無視される
        9_999_999,
    );
    assert_eq!(t.snapshot().status, Status::Paused);
    assert_eq!(t.snapshot().remaining_secs, 15);
}

#[test]
fn restore_for_launch_idle_persisted_with_autostart_starts() {
    let state = TimerState {
        phase: Phase::Work,
        status: Status::Idle,
        remaining_secs: 120,
        set_index: 0,
    };
    let t = Timer::restore_for_launch(
        Some((state, 1000)),
        config(120, 30, CycleSetting::Infinite),
        true,
        2000,
    );
    assert_eq!(t.snapshot().status, Status::Running); // autostart 発火
}

#[test]
fn restore_for_launch_no_session_respects_autostart() {
    let idle = Timer::restore_for_launch(None, config(120, 30, CycleSetting::Infinite), false, 2000);
    assert_eq!(idle.snapshot().status, Status::Idle);
    assert_eq!(idle.snapshot().remaining_secs, 120);
    let started = Timer::restore_for_launch(None, config(120, 30, CycleSetting::Infinite), true, 2000);
    assert_eq!(started.snapshot().status, Status::Running);
}

#[test]
fn restore_for_launch_running_clock_backwards_does_not_advance() {
    // anchor が now より未来（時計巻き戻し/NTP）でも saturating で経過 0 → 巻き戻らない。
    let state = TimerState {
        phase: Phase::Work,
        status: Status::Running,
        remaining_secs: 80,
        set_index: 0,
    };
    let t = Timer::restore_for_launch(
        Some((state, 5000)), // anchor は now より未来
        config(120, 30, CycleSetting::Infinite),
        false,
        4000, // now < anchor
    );
    assert_eq!(t.snapshot().status, Status::Running);
    assert_eq!(t.snapshot().remaining_secs, 80); // 進まない
}

#[test]
fn restore_for_launch_anchor_zero_running_falls_back_to_fresh() {
    // anchor=0（保存時に壁時計取得失敗）の Running は異常として通常起動へフォールバックし、
    // 巨大な elapsed でセッションが勝手に飛ぶのを防ぐ。
    let state = TimerState {
        phase: Phase::Work,
        status: Status::Running,
        remaining_secs: 50,
        set_index: 0,
    };
    let t = Timer::restore_for_launch(
        Some((state, 0)),
        config(120, 30, CycleSetting::Infinite),
        false,
        9_999_999,
    );
    assert_eq!(t.snapshot().status, Status::Idle); // フォールバック
    assert_eq!(t.snapshot().remaining_secs, 120);
}

#[test]
fn restore_paused_does_not_advance_without_tick() {
    let state = TimerState {
        phase: Phase::Break,
        status: Status::Paused,
        remaining_secs: 15,
        set_index: 1,
    };
    let restored = Timer::restore(config(100, 30, CycleSetting::Finite(3)), state);
    let s = restored.snapshot();
    assert_eq!(s.status, Status::Paused);
    assert_eq!(s.phase, Phase::Break);
    assert_eq!(s.remaining_secs, 15);
    assert_eq!(s.set_index, 1);
}

#[test]
fn set_config_while_idle_applies_and_resets() {
    let mut t = Timer::new(config(10, 5, CycleSetting::Infinite));
    t.set_config(config(30, 10, CycleSetting::Finite(2)));
    let s = t.snapshot();
    assert_eq!(s.status, Status::Idle);
    assert_eq!(s.remaining_secs, 30); // 次セッション先頭に新しい作業時間が反映
    assert_eq!(s.work_secs, 30);
    assert_eq!(s.break_secs, 10);
    assert_eq!(s.total_sets, Some(2));
}

#[test]
fn set_config_while_running_keeps_session_and_applies_to_future() {
    let mut t = Timer::new(config(10, 5, CycleSetting::Infinite));
    t.start();
    t.tick(3); // 作業フェーズ、残り 7
    t.set_config(config(30, 8, CycleSetting::Finite(2)));
    let s = t.snapshot();
    // 進行中セッションは壊さない: 現フェーズの残り時間・状態は保持される。
    assert_eq!(s.status, Status::Running);
    assert_eq!(s.phase, Phase::Work);
    assert_eq!(s.remaining_secs, 7);
    // 新しい時間は次フェーズ以降に反映: 現作業を skip すると休憩は新しい 8 秒。
    assert_eq!(t.skip(), vec![TimerEvent::WorkEnded]);
    assert_eq!(t.snapshot().remaining_secs, 8);
    // サイクル数は即時反映される。
    assert_eq!(t.snapshot().total_sets, Some(2));
}
