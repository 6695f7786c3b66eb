//! Completion statistics: how many focus (work) phases and how many sets were completed.
//!
//! The counts grow from the timer's boundary events. A set counts when its break ends;
//! the end of a session is already the end of its last set and is not counted again.

use vstd::prelude::*;

use crate::timer::{config_ok, tick_run, Config, TimerEvent, TimerState};
use crate::timer_laws::{in_break, law_events_alternate};

verus! {

/// Completed focus phases and completed sets.
#[derive(Debug, Clone, Copy, PartialEq, Eq, Structural)]
pub struct Stats {
    /// Completed work phases (pomodoros).
    pub completed_focus: u32,
    /// Completed sets (work then break, counted when the break ends).
    pub completed_sets: u32,
}

impl Default for Stats {
    fn default() -> (s: Self)
        ensures
            s == (Stats { completed_focus: 0, completed_sets: 0 }),
    {
        Stats { completed_focus: 0, completed_sets: 0 }
    }
}

/// How many times `e` occurs in `events`.
pub open spec fn count_of(events: Seq<TimerEvent>, e: TimerEvent) -> nat
    decreases events.len(),
{
    if events.len() == 0 {
        0
    } else {
        count_of(events.drop_last(), e) + (if events.last() == e { 1nat } else { 0nat })
    }
}

/// `x + n`, saturating at `u32::MAX`.
pub open spec fn saturating_add_nat(x: u32, n: nat) -> u32 {
    if x + n > u32::MAX {
        u32::MAX
    } else {
        (x + n) as u32
    }
}

/// The statistics after recording `events`: one focus per `WorkEnded`, one set per
/// `BreakEnded`, each count saturating at `u32::MAX`.
pub open spec fn recorded(s: Stats, events: Seq<TimerEvent>) -> Stats {
    Stats {
        completed_focus: saturating_add_nat(s.completed_focus, count_of(events, TimerEvent::WorkEnded)),
        completed_sets: saturating_add_nat(s.completed_sets, count_of(events, TimerEvent::BreakEnded)),
    }
}

/// Whether `events` holds anything that counts.
pub open spec fn counts_anything(events: Seq<TimerEvent>) -> bool {
    count_of(events, TimerEvent::WorkEnded) + count_of(events, TimerEvent::BreakEnded) > 0
}

/// Counting over two lists one after the other adds up.
pub proof fn lemma_count_of_concat(a: Seq<TimerEvent>, b: Seq<TimerEvent>, e: TimerEvent)
    ensures
        count_of(a + b, e) == count_of(a, e) + count_of(b, e),
    decreases b.len(),
{
    if b.len() == 0 {
        assert(a + b == a);
    } else {
        lemma_count_of_concat(a, b.drop_last(), e);
        assert((a + b).drop_last() == a + b.drop_last());
        assert((a + b).last() == b.last());
    }
}

proof fn lemma_saturating_add_nat_twice(x: u32, n: nat, m: nat)
    ensures
        saturating_add_nat(saturating_add_nat(x, n), m) == saturating_add_nat(x, n + m),
{
}

/// Recording two lists of events one after the other is recording them joined.
pub proof fn law_record_additive(s: Stats, a: Seq<TimerEvent>, b: Seq<TimerEvent>)
    ensures
        recorded(recorded(s, a), b) == recorded(s, a + b),
        counts_anything(a + b) == (counts_anything(a) || counts_anything(b)),
{
    lemma_count_of_concat(a, b, TimerEvent::WorkEnded);
    lemma_count_of_concat(a, b, TimerEvent::BreakEnded);
    lemma_saturating_add_nat_twice(
        s.completed_focus,
        count_of(a, TimerEvent::WorkEnded),
        count_of(b, TimerEvent::WorkEnded),
    );
    lemma_saturating_add_nat_twice(
        s.completed_sets,
        count_of(a, TimerEvent::BreakEnded),
        count_of(b, TimerEvent::BreakEnded),
    );
}

/// Counting the events of a tick keeps the focus count ahead of the set count by exactly
/// the phase change: when the counts are no further apart than the timer's phase says
/// (one more focus during a break), they stay so after recording the tick. In
/// particular, counts that start equal at a work phase never show more sets than focus
/// phases. (Stated below the saturation point of the counts.)
pub proof fn law_stats_follow_timer(st: Stats, c: Config, s: TimerState, secs: nat)
    requires
        config_ok(c),
        st.completed_focus >= st.completed_sets + in_break(s),
        st.completed_focus + count_of(tick_run(c, s, secs).1, TimerEvent::WorkEnded) <= u32::MAX,
        st.completed_sets + count_of(tick_run(c, s, secs).1, TimerEvent::BreakEnded) <= u32::MAX,
    ensures
        recorded(st, tick_run(c, s, secs).1).completed_focus >= recorded(
            st,
            tick_run(c, s, secs).1,
        ).completed_sets + in_break(tick_run(c, s, secs).0),
        recorded(st, tick_run(c, s, secs).1).completed_focus >= recorded(
            st,
            tick_run(c, s, secs).1,
        ).completed_sets,
{
    law_events_alternate(c, s, secs);
}

impl Stats {
    /// Adds the boundary events to the counts. Returns whether any event counted (so the
    /// caller knows to save and announce), also when a count is already saturated.
    pub fn record(&mut self, events: &[TimerEvent]) -> (changed: bool)
        ensures
            *final(self) == recorded(*old(self), events@),
            changed == counts_anything(events@),
    {
        let ghost s0 = *self;
        let mut changed = false;
        let n = events.len();
        let mut i: usize = 0;
        while i < n
            invariant
                n == events@.len(),
                0 <= i <= n,
                *self == recorded(s0, events@.take(i as int)),
                changed == counts_anything(events@.take(i as int)),
            decreases n - i,
        {
            assert(events@.take(i + 1).drop_last() == events@.take(i as int));
            match events[i] {
                TimerEvent::WorkEnded => {
                    self.completed_focus = self.completed_focus.saturating_add(1);
                    changed = true;
                },
                TimerEvent::BreakEnded => {
                    self.completed_sets = self.completed_sets.saturating_add(1);
                    changed = true;
                },
                TimerEvent::SessionFinished => {},
            }
            i = i + 1;
        }
        assert(events@.take(n as int) == events@);
        changed
    }
}

} // verus!
