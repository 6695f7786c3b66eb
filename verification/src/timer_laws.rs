//! Properties of the timer state machine that span several operations or calls.

use vstd::prelude::*;

use crate::stats::{count_of, lemma_count_of_concat};
use crate::timer::{
    complete_step, config_ok, consistent, head_state, is_last_set_of, launch_state, pause_step,
    reconfigured_state, restored_state, saturating_inc, sanitized_config, skip_step, start_step,
    target_sets_of, tick_run, Config, CycleSetting, Phase, Status, TimerEvent, TimerState,
};

verus! {

/// Time handed over in one tick has the same effect as the same time handed over in two
/// ticks: the state is the same and the events are the two lists one after the other.
/// This is what lets a whole background gap be caught up in one call.
pub proof fn law_tick_additive(c: Config, s: TimerState, a: nat, b: nat)
    requires
        config_ok(c),
    ensures
        tick_run(c, s, a + b) == (
            tick_run(c, tick_run(c, s, a).0, b).0,
            tick_run(c, s, a).1 + tick_run(c, tick_run(c, s, a).0, b).1,
        ),
    decreases a, (if s.remaining_secs == 0 { 1int } else { 0int }),
{
    let empty = Seq::<TimerEvent>::empty();
    if a == 0 || s.status != Status::Running {
        assert(empty + tick_run(c, s, b).1 == tick_run(c, s, b).1);
        if a == 0 {
            assert(a + b == b);
        } else {
            assert(empty + empty == empty);
        }
    } else if a < s.remaining_secs {
        let s1 = TimerState { remaining_secs: (s.remaining_secs - a) as u32, ..s };
        assert(tick_run(c, s, a) == (s1, empty));
        assert(TimerState { remaining_secs: 0, ..s1 } == TimerState { remaining_secs: 0, ..s });
        assert(empty + tick_run(c, s1, b).1 == tick_run(c, s1, b).1);
        if b > 0 && a + b >= s.remaining_secs {
            assert(((a + b) - s.remaining_secs) as nat == (b - s1.remaining_secs) as nat);
        }
    } else {
        let done = complete_step(c, TimerState { remaining_secs: 0, ..s });
        let rest_a = (a - s.remaining_secs) as nat;
        law_tick_additive(c, done.0, rest_a, b);
        assert(((a + b) - s.remaining_secs) as nat == rest_a + b);
        let r1 = tick_run(c, done.0, rest_a);
        let r2 = tick_run(c, r1.0, b);
        assert(done.1 + (r1.1 + r2.1) == (done.1 + r1.1) + r2.1);
    }
}

/// A paused or idle timer does not count down: ticking changes nothing and produces no event.
pub proof fn law_no_time_passes_unless_running(c: Config, s: TimerState, secs: nat)
    requires
        config_ok(c),
        s.status != Status::Running,
    ensures
        tick_run(c, s, secs) == (s, Seq::<TimerEvent>::empty()),
{
}

/// Pausing a running timer and starting it again resumes it exactly where it was.
pub proof fn law_pause_then_start_resumes(c: Config, s: TimerState)
    requires
        s.status == Status::Running,
    ensures
        start_step(c, pause_step(s)) == s,
{
}

/// Skipping a running phase is letting its remaining time pass: same state, same events.
pub proof fn law_skip_is_ticking_the_rest(c: Config, s: TimerState)
    requires
        config_ok(c),
        s.status == Status::Running,
        s.remaining_secs >= 1,
    ensures
        skip_step(c, s) == tick_run(c, s, s.remaining_secs as nat),
{
    let done = complete_step(c, TimerState { remaining_secs: 0, ..s });
    assert(done == complete_step(c, s));
    assert(tick_run(c, done.0, 0) == (done.0, Seq::<TimerEvent>::empty()));
    assert(done.1 + Seq::<TimerEvent>::empty() == done.1);
}

/// A restored state always agrees with its config.
pub proof fn law_restored_is_consistent(c: Config, st: TimerState)
    requires
        config_ok(c),
    ensures
        consistent(c, restored_state(c, st)),
{
}

/// Restoring a state that agrees with the config gives it back unchanged, so saving a
/// session and restoring it under the same config is the identity.
pub proof fn law_restore_round_trip(c: Config, s: TimerState)
    requires
        config_ok(c),
        consistent(c, s),
    ensures
        restored_state(c, s) == s,
        sanitized_config(c) == c,
{
}

/// The end of a phase keeps the state consistent with the config.
pub proof fn lemma_complete_step_consistent(c: Config, s: TimerState)
    requires
        config_ok(c),
        consistent(c, s),
    ensures
        consistent(c, complete_step(c, s).0),
{
}

/// Starting, pausing, resetting, skipping and ticking all keep the run state consistent
/// with the config.
pub proof fn law_operations_stay_consistent(c: Config, s: TimerState, secs: nat)
    requires
        config_ok(c),
        consistent(c, s),
    ensures
        consistent(c, start_step(c, s)),
        consistent(c, pause_step(s)),
        consistent(c, head_state(c)),
        consistent(c, skip_step(c, s).0),
        consistent(c, tick_run(c, s, secs).0),
    decreases secs, (if s.remaining_secs == 0 { 1int } else { 0int }),
{
    lemma_complete_step_consistent(c, s);
    if secs == 0 || s.status != Status::Running {
    } else if secs < s.remaining_secs {
    } else {
        let z = TimerState { remaining_secs: 0, ..s };
        lemma_complete_step_consistent(c, z);
        let done = complete_step(c, z);
        law_operations_stay_consistent(c, done.0, (secs - s.remaining_secs) as nat);
    }
}

/// The set index stays below the number of sets of a finite cycle setting: the end of a
/// phase, a skip, a tick, a start, a pause and a reset all keep `set_index < sets`, so the
/// display never shows more sets done than configured.
pub proof fn law_set_index_stays_below_target(c: Config, s: TimerState, t: u32, secs: nat)
    requires
        config_ok(c),
        target_sets_of(c.cycles) == Some(t),
        s.set_index < t,
    ensures
        complete_step(c, s).0.set_index < t,
        skip_step(c, s).0.set_index < t,
        tick_run(c, s, secs).0.set_index < t,
        start_step(c, s).set_index < t,
        pause_step(s).set_index < t,
        head_state(c).set_index < t,
    decreases secs, (if s.remaining_secs == 0 { 1int } else { 0int }),
{
    if secs == 0 || s.status != Status::Running {
    } else if secs < s.remaining_secs {
    } else {
        let z = TimerState { remaining_secs: 0, ..s };
        let done = complete_step(c, z);
        law_set_index_stays_below_target(c, z, t, 0);
        law_set_index_stays_below_target(c, done.0, t, (secs - s.remaining_secs) as nat);
    }
}

/// A running session that was persisted with a valid anchor and restored at a later
/// launch is where it would be had the process kept running: restoring and catching up
/// the wall-clock time since the anchor is ticking that time.
pub proof fn law_launch_resumes_running_session(
    c: Config,
    s: TimerState,
    anchor: u64,
    now: u64,
    autostart: bool,
)
    requires
        config_ok(c),
        consistent(c, s),
        s.status == Status::Running,
        anchor != 0,
        anchor <= now,
        now - anchor <= u32::MAX,
    ensures
        launch_state(Some((s, anchor)), c, autostart, now) == tick_run(c, s, (now - anchor) as nat).0,
{
    law_restore_round_trip(c, s);
}

/// A launch never moves a session backwards or forwards when the wall clock reads at or
/// before the anchor: the restored state is kept as it was.
pub proof fn law_launch_clock_backwards_does_not_advance(
    c: Config,
    s: TimerState,
    anchor: u64,
    now: u64,
    autostart: bool,
)
    requires
        s.status == Status::Running,
        anchor != 0,
        now <= anchor,
    ensures
        launch_state(Some((s, anchor)), c, autostart, now) == restored_state(sanitized_config(c), s),
{
}

/// A paused session comes back as it was, whatever the clock and the autostart setting.
pub proof fn law_launch_paused_ignores_clock_and_autostart(
    c: Config,
    s: TimerState,
    anchor: u64,
    now: u64,
    autostart: bool,
)
    requires
        s.status == Status::Paused,
    ensures
        launch_state(Some((s, anchor)), c, autostart, now) == restored_state(sanitized_config(c), s),
{
}

/// With an unlimited cycle setting a running timer never stops on its own: it stays
/// running and never reports a finished session.
pub proof fn law_infinite_never_finishes(c: Config, s: TimerState, secs: nat)
    requires
        config_ok(c),
        c.cycles == CycleSetting::Infinite,
        s.status == Status::Running,
    ensures
        tick_run(c, s, secs).0.status == Status::Running,
        !tick_run(c, s, secs).1.contains(TimerEvent::SessionFinished),
    decreases secs, (if s.remaining_secs == 0 { 1int } else { 0int }),
{
    if secs == 0 {
    } else if secs < s.remaining_secs {
    } else {
        let done = complete_step(c, TimerState { remaining_secs: 0, ..s });
        let rest = (secs - s.remaining_secs) as nat;
        law_infinite_never_finishes(c, done.0, rest);
        let r = tick_run(c, done.0, rest);
        assert(!done.1.contains(TimerEvent::SessionFinished));
        assert forall|i: int| 0 <= i < (done.1 + r.1).len() implies (done.1 + r.1)[i]
            != TimerEvent::SessionFinished by {
            if i >= done.1.len() {
                assert((done.1 + r.1)[i] == r.1[i - done.1.len()]);
            } else {
                assert((done.1 + r.1)[i] == done.1[i]);
            }
        }
    }
}

/// The cycle settings `Finite(0)` and `Finite(1)` behave the same: both run one set.
pub proof fn law_zero_and_one_sets_are_equivalent(c: Config, s: TimerState, secs: nat)
    requires
        config_ok(c),
        c.cycles == CycleSetting::Finite(0),
    ensures
        tick_run(c, s, secs) == tick_run(Config { cycles: CycleSetting::Finite(1), ..c }, s, secs),
        skip_step(c, s) == skip_step(Config { cycles: CycleSetting::Finite(1), ..c }, s),
        target_sets_of(c.cycles) == target_sets_of(CycleSetting::Finite(1)),
    decreases secs, (if s.remaining_secs == 0 { 1int } else { 0int }),
{
    let c1 = Config { cycles: CycleSetting::Finite(1), ..c };
    assert(complete_step(c, s) == complete_step(c1, s));
    if secs == 0 || s.status != Status::Running {
    } else if secs < s.remaining_secs {
    } else {
        let z = TimerState { remaining_secs: 0, ..s };
        assert(complete_step(c, z) == complete_step(c1, z));
        let done = complete_step(c, z);
        law_zero_and_one_sets_are_equivalent(c, done.0, (secs - s.remaining_secs) as nat);
    }
}

/// 1 during a break, 0 during work.
pub open spec fn in_break(s: TimerState) -> int {
    if s.phase == Phase::Break { 1 } else { 0 }
}

/// Work ends and break ends alternate: across any tick, the ended work phases and the
/// ended breaks differ exactly by the change of phase.
pub proof fn law_events_alternate(c: Config, s: TimerState, secs: nat)
    requires
        config_ok(c),
    ensures
        count_of(tick_run(c, s, secs).1, TimerEvent::WorkEnded) + in_break(s)
            == count_of(tick_run(c, s, secs).1, TimerEvent::BreakEnded) + in_break(tick_run(c, s, secs).0),
    decreases secs, (if s.remaining_secs == 0 { 1int } else { 0int }),
{
    if secs == 0 || s.status != Status::Running {
        assert(count_of(Seq::<TimerEvent>::empty(), TimerEvent::WorkEnded) == 0);
        assert(count_of(Seq::<TimerEvent>::empty(), TimerEvent::BreakEnded) == 0);
    } else if secs < s.remaining_secs {
        assert(count_of(Seq::<TimerEvent>::empty(), TimerEvent::WorkEnded) == 0);
        assert(count_of(Seq::<TimerEvent>::empty(), TimerEvent::BreakEnded) == 0);
    } else {
        let z = TimerState { remaining_secs: 0, ..s };
        let done = complete_step(c, z);
        let rest = (secs - s.remaining_secs) as nat;
        law_events_alternate(c, done.0, rest);
        let r = tick_run(c, done.0, rest);
        lemma_count_of_concat(done.1, r.1, TimerEvent::WorkEnded);
        lemma_count_of_concat(done.1, r.1, TimerEvent::BreakEnded);
        lemma_complete_step_counts(c, z);
    }
}

/// The events of one phase end and the phase change they come with.
pub proof fn lemma_complete_step_counts(c: Config, s: TimerState)
    ensures
        count_of(complete_step(c, s).1, TimerEvent::WorkEnded) + in_break(s)
            == count_of(complete_step(c, s).1, TimerEvent::BreakEnded) + in_break(complete_step(c, s).0),
{
    let ev = complete_step(c, s).1;
    reveal_with_fuel(count_of, 3);
    if s.phase == Phase::Work {
        assert(ev.drop_last().len() == 0);
    } else {
        if ev.len() == 2 {
            assert(ev.drop_last() == seq![TimerEvent::BreakEnded]);
            assert(ev.drop_last().drop_last().len() == 0);
        } else {
            assert(ev.drop_last().len() == 0);
        }
    }
}


/// Number of sets a finite setting `n` asks for: `n`, where 0 means one set.
pub open spec fn sets_asked(n: u32) -> u32 {
    if n == 0 { 1 } else { n }
}

/// The session ends at a set count exactly when the count has reached the number of sets
/// asked for (at or beyond it, also when the count was already past it), and never with an
/// unlimited setting.
pub proof fn law_last_set_is_reaching_the_count(n: u32, completed: u32)
    ensures
        is_last_set_of(CycleSetting::Finite(n), completed) <==> completed >= sets_asked(n),
        !is_last_set_of(CycleSetting::Infinite, completed),
{
}

/// Pausing: a running timer becomes paused in either phase with phase, remaining time and
/// set kept; a timer that is not running is left as it is.
pub proof fn law_pause_outcome(s: TimerState)
    ensures
        s.status == Status::Running ==> pause_step(s) == (TimerState {
            phase: s.phase,
            status: Status::Paused,
            remaining_secs: s.remaining_secs,
            set_index: s.set_index,
        }),
        s.status != Status::Running ==> pause_step(s) == s,
{
}

/// Starting: an idle timer starts a fresh session (work, full length, set 0); a paused one
/// resumes with everything else kept; a running one is left as it is.
pub proof fn law_start_outcome(c: Config, s: TimerState)
    ensures
        s.status == Status::Idle ==> start_step(c, s) == (TimerState {
            phase: Phase::Work,
            status: Status::Running,
            remaining_secs: c.work_secs,
            set_index: 0,
        }),
        s.status == Status::Paused ==> start_step(c, s) == (TimerState {
            phase: s.phase,
            status: Status::Running,
            remaining_secs: s.remaining_secs,
            set_index: s.set_index,
        }),
        s.status == Status::Running ==> start_step(c, s) == s,
{
}

/// Changing the config never touches a running or paused session; only an idle timer
/// goes back to the head (work, the new full work length, set 0, idle).
pub proof fn law_reconfigure_keeps_active_session(c: Config, s: TimerState)
    ensures
        s.status != Status::Idle ==> reconfigured_state(c, s) == s,
        s.status == Status::Idle ==> reconfigured_state(c, s) == (TimerState {
            phase: Phase::Work,
            status: Status::Idle,
            remaining_secs: c.work_secs,
            set_index: 0,
        }),
{
}

/// Skipping ends the current phase whatever the status, keeping `Running` or `Paused`:
/// - from work: the break of the same set, at full length, with "work ended";
/// - from a break that is not the last: the work of the next set (index one higher,
///   saturating), at full length, with "break ended";
/// - from the last break of a finite setting (the next count reaches the number of sets
///   asked for): back to the idle head, with "break ended" and "session finished";
/// - an idle timer is left as it is, with no event.
pub proof fn law_skip_outcome(c: Config, s: TimerState)
    ensures
        ({
            let next = if s.set_index < u32::MAX { (s.set_index + 1) as u32 } else { u32::MAX };
            let last = match c.cycles {
                CycleSetting::Finite(n) => next >= sets_asked(n),
                CycleSetting::Infinite => false,
            };
            &&& s.status == Status::Idle ==> skip_step(c, s) == (s, Seq::<TimerEvent>::empty())
            &&& (s.status != Status::Idle && s.phase == Phase::Work) ==> skip_step(c, s) == (
                TimerState {
                    phase: Phase::Break,
                    status: s.status,
                    remaining_secs: c.break_secs,
                    set_index: s.set_index,
                },
                seq![TimerEvent::WorkEnded],
            )
            &&& (s.status != Status::Idle && s.phase == Phase::Break && !last) ==> skip_step(c, s) == (
                TimerState {
                    phase: Phase::Work,
                    status: s.status,
                    remaining_secs: c.work_secs,
                    set_index: next,
                },
                seq![TimerEvent::BreakEnded],
            )
            &&& (s.status != Status::Idle && s.phase == Phase::Break && last) ==> skip_step(c, s) == (
                TimerState {
                    phase: Phase::Work,
                    status: Status::Idle,
                    remaining_secs: c.work_secs,
                    set_index: 0,
                },
                seq![TimerEvent::BreakEnded, TimerEvent::SessionFinished],
            )
        }),
{
}

/// With a finite setting, a running break whose end brings the set count to the number of
/// sets asked for (or past it, as after the count was lowered mid-session) finishes the
/// session at the break's end: any tick reaching it ends at the idle head with "break
/// ended" and "session finished", and the time left over is dropped.
pub proof fn law_finite_break_end_finishes(c: Config, s: TimerState, n: u32, secs: nat)
    requires
        config_ok(c),
        c.cycles == CycleSetting::Finite(n),
        s.status == Status::Running,
        s.phase == Phase::Break,
        s.set_index >= sets_asked(n) - 1,
        secs >= s.remaining_secs,
        secs >= 1,
    ensures
        tick_run(c, s, secs) == (
            TimerState {
                phase: Phase::Work,
                status: Status::Idle,
                remaining_secs: c.work_secs,
                set_index: 0,
            },
            seq![TimerEvent::BreakEnded, TimerEvent::SessionFinished],
        ),
{
    let z = TimerState { remaining_secs: 0, ..s };
    let done = complete_step(c, z);
    assert(done.0 == head_state(c));
    assert(tick_run(c, done.0, (secs - s.remaining_secs) as nat) == (done.0, Seq::<TimerEvent>::empty()));
    assert(done.1 + Seq::<TimerEvent>::empty() == done.1);
}

/// At launch, unless the persisted session was running with a valid anchor or paused (no
/// session, an idle one, or a running one with anchor 0), the timer comes up fresh at the
/// head of the sanitized config: idle when autostart is off, running when it is on.
pub proof fn law_launch_fresh_follows_autostart(
    persisted: Option<(TimerState, u64)>,
    c: Config,
    autostart: bool,
    now: u64,
)
    requires
        match persisted {
            Some((st, anchor)) => st.status == Status::Idle || (st.status == Status::Running
                && anchor == 0),
            None => true,
        },
    ensures
        launch_state(persisted, c, autostart, now) == (TimerState {
            phase: Phase::Work,
            status: if autostart { Status::Running } else { Status::Idle },
            remaining_secs: if c.work_secs < 1 { 1 } else { c.work_secs },
            set_index: 0,
        }),
{
}

/// The head of set `k` of a running session.
pub open spec fn running_set_head(c: Config, k: u32) -> TimerState {
    TimerState { phase: Phase::Work, status: Status::Running, remaining_secs: c.work_secs, set_index: k }
}

/// The events of `n` whole sets: work ended, break ended, `n` times.
pub open spec fn set_events(n: nat) -> Seq<TimerEvent>
    decreases n,
{
    if n == 0 {
        Seq::empty()
    } else {
        seq![TimerEvent::WorkEnded, TimerEvent::BreakEnded] + set_events((n - 1) as nat)
    }
}

proof fn lemma_mul_succ(m: nat, x: nat)
    ensures
        (m + 1) * x == x + m * x,
        m == 0 ==> m * x == 0,
{
    assert((m + 1) * x == x + m * x) by (nonlinear_arith);
    assert(m == 0 ==> m * x == 0) by (nonlinear_arith);
}

/// One whole set (work then break) from the head of set `k`: on to the head of the next
/// set, or, after the last set, back to the idle head with the session finished.
proof fn lemma_one_set(c: Config, k: u32, t: u32)
    requires
        config_ok(c),
        target_sets_of(c.cycles) == Some(t),
        k < t,
    ensures
        tick_run(c, running_set_head(c, k), (c.work_secs + c.break_secs) as nat) == (if k + 1 < t {
            (running_set_head(c, (k + 1) as u32), seq![TimerEvent::WorkEnded, TimerEvent::BreakEnded])
        } else {
            (
                head_state(c),
                seq![TimerEvent::WorkEnded, TimerEvent::BreakEnded, TimerEvent::SessionFinished],
            )
        }),
{
    let w = c.work_secs;
    let b = c.break_secs;
    let s0 = running_set_head(c, k);
    let d0 = complete_step(c, TimerState { remaining_secs: 0, ..s0 });
    let s1 = TimerState { phase: Phase::Break, status: Status::Running, remaining_secs: b, set_index: k };
    assert(d0 == (s1, seq![TimerEvent::WorkEnded]));
    assert(((w + b) - w) as nat == b as nat);
    let d1 = complete_step(c, TimerState { remaining_secs: 0, ..s1 });
    assert(saturating_inc_is_succ(k));
    let empty = Seq::<TimerEvent>::empty();
    assert(tick_run(c, d1.0, 0) == (d1.0, empty));
    assert(tick_run(c, s1, b as nat) == (d1.0, d1.1 + empty));
    assert(d1.1 + empty == d1.1);
    assert(tick_run(c, s0, (w + b) as nat) == (d1.0, d0.1 + d1.1));
    if k + 1 < t {
        assert(d0.1 + d1.1 == seq![TimerEvent::WorkEnded, TimerEvent::BreakEnded]);
    } else {
        assert(d0.1 + d1.1 == seq![
            TimerEvent::WorkEnded,
            TimerEvent::BreakEnded,
            TimerEvent::SessionFinished,
        ]);
    }
}

spec fn saturating_inc_is_succ(k: u32) -> bool {
    k < u32::MAX ==> saturating_inc(k) == k + 1
}

/// From the head of set `k`, the remaining sets take their whole length and finish the session.
proof fn lemma_sets_from(c: Config, k: u32, t: u32)
    requires
        config_ok(c),
        target_sets_of(c.cycles) == Some(t),
        k < t,
    ensures
        tick_run(c, running_set_head(c, k), ((t - k) * (c.work_secs + c.break_secs)) as nat) == (
            head_state(c),
            set_events((t - k) as nat) + seq![TimerEvent::SessionFinished],
        ),
    decreases t - k,
{
    let x = (c.work_secs + c.break_secs) as nat;
    let m = (t - k - 1) as nat;
    lemma_mul_succ(m, x);
    lemma_one_set(c, k, t);
    reveal_with_fuel(set_events, 2);
    if k + 1 == t {
        assert(set_events(1) == seq![TimerEvent::WorkEnded, TimerEvent::BreakEnded]);
        assert(set_events(1) + seq![TimerEvent::SessionFinished] == seq![
            TimerEvent::WorkEnded,
            TimerEvent::BreakEnded,
            TimerEvent::SessionFinished,
        ]);
    } else {
        law_tick_additive(c, running_set_head(c, k), x, m * x);
        lemma_sets_from(c, (k + 1) as u32, t);
        assert((t - (k + 1)) as nat == m);
        let pair = seq![TimerEvent::WorkEnded, TimerEvent::BreakEnded];
        assert(pair + (set_events(m) + seq![TimerEvent::SessionFinished]) == (pair + set_events(m))
            + seq![TimerEvent::SessionFinished]);
    }
}

/// Before the remaining sets have run their whole length, the session is still running.
proof fn lemma_running_within(c: Config, k: u32, t: u32, secs: nat)
    requires
        config_ok(c),
        target_sets_of(c.cycles) == Some(t),
        k < t,
        secs < (t - k) * (c.work_secs + c.break_secs),
    ensures
        tick_run(c, running_set_head(c, k), secs).0.status == Status::Running,
    decreases t - k,
{
    let w = c.work_secs;
    let b = c.break_secs;
    let x = (w + b) as nat;
    let m = (t - k - 1) as nat;
    lemma_mul_succ(m, x);
    let s0 = running_set_head(c, k);
    if secs < x {
        if secs >= w {
            let s1 = TimerState { phase: Phase::Break, status: Status::Running, remaining_secs: b, set_index: k };
            assert(complete_step(c, TimerState { remaining_secs: 0, ..s0 }).0 == s1);
            let r = (secs - w) as nat;
            assert(r < b);
            assert(tick_run(c, s1, r).0.status == Status::Running);
        }
    } else {
        lemma_one_set(c, k, t);
        law_tick_additive(c, s0, x, (secs - x) as nat);
        assert(k + 1 < t);
        assert((t - (k + 1)) as nat == m);
        lemma_running_within(c, (k + 1) as u32, t, (secs - x) as nat);
    }
}

/// A finite cycle setting runs exactly its number of sets and stops: started from the
/// idle head, the session takes `sets × (work + break)` seconds, produces "work ended,
/// break ended" once per set and then "session finished", and is back at the idle head;
/// at any earlier time it is still running.
pub proof fn law_finite_session_runs_target_sets(c: Config, secs: nat)
    requires
        config_ok(c),
        c.cycles != CycleSetting::Infinite,
    ensures
        ({
            let t = target_sets_of(c.cycles).unwrap();
            let total = (t * (c.work_secs + c.break_secs)) as nat;
            &&& tick_run(c, start_step(c, head_state(c)), total) == (
                head_state(c),
                set_events(t as nat) + seq![TimerEvent::SessionFinished],
            )
            &&& secs < total ==> tick_run(c, start_step(c, head_state(c)), secs).0.status == Status::Running
        }),
{
    let t = target_sets_of(c.cycles).unwrap();
    assert(t >= 1);
    assert(start_step(c, head_state(c)) == running_set_head(c, 0));
    lemma_sets_from(c, 0, t);
    if secs < (t * (c.work_secs + c.break_secs)) as nat {
        lemma_running_within(c, 0, t, secs);
    }
}

} // verus!
