//! The pomodoro state machine.
//!
//! It never reads a clock: time advances only through `tick(elapsed)`, which may cross
//! any number of phase boundaries in one call (a whole background gap can be handed over
//! at once). A set is one work phase followed by one break phase. The cycle setting says
//! how many sets run before the timer stops on its own: `Finite(0)` and `Finite(1)` run
//! one set, `Finite(n)` runs `n` sets, `Infinite` never stops.
//!
//! Every operation is specified over the model `(Config, TimerState)`; the spec functions
//! below are the meaning of the state machine, and the exec methods of `Timer` are proved
//! to compute exactly them.

use vstd::prelude::*;

verus! {

/// Default work phase length (25 minutes).
pub const DEFAULT_WORK_SECS: u32 = 25 * 60;

/// Default break phase length (5 minutes).
pub const DEFAULT_BREAK_SECS: u32 = 5 * 60;

/// Shortest phase length. A zero-second phase would make a tick spin on boundaries.
pub const MIN_PHASE_SECS: u32 = 1;

/// The current phase.
#[derive(Debug, Clone, Copy, PartialEq, Eq, Structural)]
pub enum Phase {
    Work,
    Break,
}

/// Whether the timer is counting down. `Idle` means not started, or stopped after a
/// finished session, waiting for the next start.
#[derive(Debug, Clone, Copy, PartialEq, Eq, Structural)]
pub enum Status {
    Idle,
    Running,
    Paused,
}

/// How many sets run before the timer stops on its own.
///
/// `Finite(0)` (the default) and `Finite(1)` both run exactly one set; `0` is kept as the
/// stored value meaning "no automatic continuation".
#[derive(Debug, Clone, Copy, PartialEq, Eq, Structural)]
pub enum CycleSetting {
    Finite(u32),
    Infinite,
}

/// Number of sets that a cycle setting runs; `None` for no limit.
pub open spec fn target_sets_of(cycles: CycleSetting) -> Option<u32> {
    match cycles {
        CycleSetting::Finite(n) => if n == 0 { Some(1u32) } else { Some(n) },
        CycleSetting::Infinite => None,
    }
}

/// Whether the session ends once `completed` sets are done.
pub open spec fn is_last_set_of(cycles: CycleSetting, completed: u32) -> bool {
    match target_sets_of(cycles) {
        Some(target) => completed >= target,
        None => false,
    }
}

impl CycleSetting {
    /// The number of sets to run (`Finite(0)` counts as one set).
    pub fn target_sets(self) -> (r: Option<u32>)
        ensures
            r == target_sets_of(self),
    {
        match self {
            CycleSetting::Finite(n) => if n == 0 { Some(1) } else { Some(n) },
            CycleSetting::Infinite => None,
        }
    }

    /// Whether the session ends once `completed` sets are done.
    pub fn is_last_set(self, completed: u32) -> (r: bool)
        ensures
            r == is_last_set_of(self, completed),
    {
        match self.target_sets() {
            Some(target) => completed >= target,
            None => false,
        }
    }
}

/// Timer settings.
#[derive(Debug, Clone, Copy, PartialEq, Eq, Structural)]
pub struct Config {
    pub work_secs: u32,
    pub break_secs: u32,
    pub cycles: CycleSetting,
}

/// Both phases last at least one second.
pub open spec fn config_ok(c: Config) -> bool {
    c.work_secs >= MIN_PHASE_SECS && c.break_secs >= MIN_PHASE_SECS
}

/// The config with each phase length raised to at least `MIN_PHASE_SECS`.
pub open spec fn sanitized_config(c: Config) -> Config {
    Config {
        work_secs: if c.work_secs < MIN_PHASE_SECS { MIN_PHASE_SECS } else { c.work_secs },
        break_secs: if c.break_secs < MIN_PHASE_SECS { MIN_PHASE_SECS } else { c.break_secs },
        cycles: c.cycles,
    }
}

/// The default config: 25 minutes of work, 5 minutes of break, one set.
pub open spec fn default_config() -> Config {
    Config { work_secs: 1500, break_secs: 300, cycles: CycleSetting::Finite(0) }
}

impl Default for Config {
    fn default() -> (c: Self)
        ensures
            c == default_config(),
    {
        Config {
            work_secs: DEFAULT_WORK_SECS,
            break_secs: DEFAULT_BREAK_SECS,
            cycles: CycleSetting::Finite(0),
        }
    }
}

impl Config {
    /// This config with both phase lengths raised to at least `MIN_PHASE_SECS`.
    pub fn sanitized(self) -> (c: Self)
        ensures
            c == sanitized_config(self),
            config_ok(c),
    {
        Config {
            work_secs: if self.work_secs < MIN_PHASE_SECS { MIN_PHASE_SECS } else { self.work_secs },
            break_secs: if self.break_secs < MIN_PHASE_SECS { MIN_PHASE_SECS } else { self.break_secs },
            cycles: self.cycles,
        }
    }
}

/// What happens at a phase boundary; the caller plays sounds and counts statistics on it.
#[derive(Debug, Clone, Copy, PartialEq, Eq, Structural)]
pub enum TimerEvent {
    /// A work phase ended (a break follows).
    WorkEnded,
    /// A break phase ended.
    BreakEnded,
    /// The configured number of sets is done; the timer went back to `Idle`.
    SessionFinished,
}

/// What the display shows.
#[derive(Debug, Clone, Copy, PartialEq, Eq, Structural)]
pub struct TimerSnapshot {
    pub phase: Phase,
    pub status: Status,
    pub remaining_secs: u32,
    /// Index of the current set, from 0.
    pub set_index: u32,
    /// Number of sets to run; `None` when unlimited.
    pub total_sets: Option<u32>,
    pub work_secs: u32,
    pub break_secs: u32,
}

/// The run state that is persisted and restored (the config is kept apart).
#[derive(Debug, Clone, Copy, PartialEq, Eq, Structural)]
pub struct TimerState {
    pub phase: Phase,
    pub status: Status,
    pub remaining_secs: u32,
    pub set_index: u32,
}

/// Length of phase `p` under config `c`.
pub open spec fn phase_len(c: Config, p: Phase) -> u32 {
    match p {
        Phase::Work => c.work_secs,
        Phase::Break => c.break_secs,
    }
}

/// The head of a session: work phase, full length, set 0, idle.
pub open spec fn head_state(c: Config) -> TimerState {
    TimerState { phase: Phase::Work, status: Status::Idle, remaining_secs: c.work_secs, set_index: 0 }
}

/// `x + 1`, saturating at `u32::MAX`.
pub open spec fn saturating_inc(x: u32) -> u32 {
    if x == u32::MAX { x } else { (x + 1) as u32 }
}

/// The transition at the end of the current phase and the events it produces:
/// work goes to break; break goes to the next set's work, or, after the last set,
/// finishes the session and goes back to the idle head.
pub open spec fn complete_step(c: Config, s: TimerState) -> (TimerState, Seq<TimerEvent>) {
    match s.phase {
        Phase::Work => (
            TimerState { phase: Phase::Break, remaining_secs: c.break_secs, ..s },
            seq![TimerEvent::WorkEnded],
        ),
        Phase::Break => {
            let completed = saturating_inc(s.set_index);
            if is_last_set_of(c.cycles, completed) {
                (head_state(c), seq![TimerEvent::BreakEnded, TimerEvent::SessionFinished])
            } else {
                (
                    TimerState {
                        phase: Phase::Work,
                        remaining_secs: c.work_secs,
                        set_index: completed,
                        ..s
                    },
                    seq![TimerEvent::BreakEnded],
                )
            }
        },
    }
}

/// Letting `secs` seconds pass in state `s`: nothing happens unless the timer is running;
/// otherwise the time is consumed phase by phase, and the boundaries crossed produce their
/// events in order. Time left over after the session finishes is dropped.
pub open spec fn tick_run(c: Config, s: TimerState, secs: nat) -> (TimerState, Seq<TimerEvent>)
    decreases secs, (if s.remaining_secs == 0 { 1int } else { 0int }),
    when config_ok(c)
{
    if secs == 0 || s.status != Status::Running {
        (s, Seq::empty())
    } else if secs < s.remaining_secs {
        (TimerState { remaining_secs: (s.remaining_secs - secs) as u32, ..s }, Seq::empty())
    } else {
        let done = complete_step(c, TimerState { remaining_secs: 0, ..s });
        let rest = tick_run(c, done.0, (secs - s.remaining_secs) as nat);
        (rest.0, done.1 + rest.1)
    }
}

/// Skipping: end the current phase now (keeping `Running` or `Paused`); no-op when idle.
pub open spec fn skip_step(c: Config, s: TimerState) -> (TimerState, Seq<TimerEvent>) {
    if s.status == Status::Idle {
        (s, Seq::empty())
    } else {
        complete_step(c, s)
    }
}

/// Starting: a new session from the head when idle, resuming when paused, no-op when running.
pub open spec fn start_step(c: Config, s: TimerState) -> TimerState {
    match s.status {
        Status::Running => s,
        Status::Paused => TimerState { status: Status::Running, ..s },
        Status::Idle => TimerState {
            phase: Phase::Work,
            status: Status::Running,
            remaining_secs: c.work_secs,
            set_index: 0,
        },
    }
}

/// Pausing: only a running timer pauses.
pub open spec fn pause_step(s: TimerState) -> TimerState {
    if s.status == Status::Running {
        TimerState { status: Status::Paused, ..s }
    } else {
        s
    }
}

/// The state kept when the config changes to `c`: an idle timer goes back to the head
/// (so the new work length shows), a running or paused session is kept as it is.
pub open spec fn reconfigured_state(c: Config, s: TimerState) -> TimerState {
    if s.status == Status::Idle {
        head_state(c)
    } else {
        s
    }
}

/// The state rebuilt from a persisted one under config `c` (already sanitized): the
/// remaining time is clamped to the phase length and the set index to the last set.
pub open spec fn restored_state(c: Config, st: TimerState) -> TimerState {
    let len = phase_len(c, st.phase);
    TimerState {
        phase: st.phase,
        status: st.status,
        remaining_secs: if st.remaining_secs < len { st.remaining_secs } else { len },
        set_index: match target_sets_of(c.cycles) {
            Some(target) => {
                let last = if target == 0 { 0u32 } else { (target - 1) as u32 };
                if st.set_index < last { st.set_index } else { last }
            },
            None => st.set_index,
        },
    }
}

/// How the timer comes up at launch, from the persisted session (run state and the wall
/// clock second it was recorded at), the config, the autostart setting and the wall clock:
/// - a running session with a valid (non-zero) anchor is restored and then catches up on
///   the wall-clock time since the anchor in one tick (the crossed boundaries are dropped);
/// - a paused session is restored as it was (no time passes, autostart is ignored);
/// - otherwise (no session, an idle one, or a running one with anchor 0) a fresh timer,
///   started when autostart is on.
pub open spec fn launch_state(
    persisted: Option<(TimerState, u64)>,
    config: Config,
    autostart: bool,
    now_unix: u64,
) -> TimerState {
    let c = sanitized_config(config);
    match persisted {
        Some((st, anchor)) => {
            if st.status == Status::Running && anchor != 0 {
                tick_run(c, restored_state(c, st), elapsed_secs_spec(anchor, now_unix) as nat).0
            } else if st.status == Status::Paused {
                restored_state(c, st)
            } else if autostart {
                start_step(c, head_state(c))
            } else {
                head_state(c)
            }
        },
        None => if autostart { start_step(c, head_state(c)) } else { head_state(c) },
    }
}

/// The run state agrees with the config: the remaining time fits in the phase and the
/// set index is below the number of sets. Every operation but a config change keeps it.
pub open spec fn consistent(c: Config, s: TimerState) -> bool {
    &&& s.remaining_secs <= phase_len(c, s.phase)
    &&& match target_sets_of(c.cycles) {
        Some(target) => s.set_index < target,
        None => true,
    }
}

/// Whole seconds from `from` to `to` on the wall clock: 0 when the clock went backwards,
/// capped at `u32::MAX`.
pub open spec fn elapsed_secs_spec(from: u64, to: u64) -> u32 {
    if to <= from {
        0u32
    } else if to - from > u32::MAX {
        u32::MAX
    } else {
        (to - from) as u32
    }
}

/// Whole seconds from `from` to `to` on the wall clock: 0 when the clock went backwards,
/// capped at `u32::MAX`.
pub fn wall_elapsed_secs(from: u64, to: u64) -> (e: u32)
    ensures
        e == elapsed_secs_spec(from, to),
{
    let d = to.saturating_sub(from);
    if d > u32::MAX as u64 {
        u32::MAX
    } else {
        d as u32
    }
}


/// The pomodoro state machine.
#[derive(Debug, Clone, Copy)]
pub struct Timer {
    config: Config,
    phase: Phase,
    status: Status,
    remaining: u32,
    /// Index of the current set, from 0.
    set_index: u32,
}

impl Timer {
    /// The config the timer runs with.
    pub closed spec fn model_config(self) -> Config {
        self.config
    }

    /// The run state of the timer.
    pub closed spec fn model_state(self) -> TimerState {
        TimerState {
            phase: self.phase,
            status: self.status,
            remaining_secs: self.remaining,
            set_index: self.set_index,
        }
    }

    /// Well-formedness: the config has no zero-length phase.
    pub open spec fn wf(self) -> bool {
        config_ok(self.model_config())
    }

    /// A timer at the head of a session (work phase, idle) under the sanitized config.
    pub fn new(config: Config) -> (t: Self)
        ensures
            t.wf(),
            t.model_config() == sanitized_config(config),
            t.model_state() == head_state(sanitized_config(config)),
    {
        let config = config.sanitized();
        Timer {
            config,
            phase: Phase::Work,
            status: Status::Idle,
            remaining: config.work_secs,
            set_index: 0,
        }
    }

    /// The run state, for persisting.
    pub fn state(&self) -> (st: TimerState)
        ensures
            st == self.model_state(),
    {
        TimerState {
            phase: self.phase,
            status: self.status,
            remaining_secs: self.remaining,
            set_index: self.set_index,
        }
    }

    /// A timer rebuilt from a persisted run state under `config` (sanitized first); the
    /// remaining time is clamped to the phase length and the set index to the last set.
    pub fn restore(config: Config, state: TimerState) -> (t: Self)
        ensures
            t.wf(),
            t.model_config() == sanitized_config(config),
            t.model_state() == restored_state(sanitized_config(config), state),
    {
        let config = config.sanitized();
        let phase_len = match state.phase {
            Phase::Work => config.work_secs,
            Phase::Break => config.break_secs,
        };
        let set_index = match config.cycles.target_sets() {
            Some(target) => {
                let last = target.saturating_sub(1);
                if state.set_index < last { state.set_index } else { last }
            },
            None => state.set_index,
        };
        Timer {
            config,
            phase: state.phase,
            status: state.status,
            remaining: if state.remaining_secs < phase_len { state.remaining_secs } else { phase_len },
            set_index,
        }
    }

    /// Decides how the timer comes up at launch (see `launch_state`).
    pub fn restore_for_launch(
        persisted: Option<(TimerState, u64)>,
        config: Config,
        autostart: bool,
        now_unix: u64,
    ) -> (t: Self)
        ensures
            t.wf(),
            t.model_config() == sanitized_config(config),
            t.model_state() == launch_state(persisted, config, autostart, now_unix),
    {
        match persisted {
            Some((state, anchor)) if state.status == Status::Running && anchor != 0 => {
                let mut t = Self::restore(config, state);
                let elapsed = wall_elapsed_secs(anchor, now_unix);
                let _ = t.tick(elapsed);
                t
            },
            Some((state, _)) if state.status == Status::Paused => Self::restore(config, state),
            _ => {
                let mut t = Self::new(config);
                if autostart {
                    t.start();
                }
                t
            },
        }
    }

    /// What the display shows.
    pub fn snapshot(&self) -> (snap: TimerSnapshot)
        ensures
            snap == (TimerSnapshot {
                phase: self.model_state().phase,
                status: self.model_state().status,
                remaining_secs: self.model_state().remaining_secs,
                set_index: self.model_state().set_index,
                total_sets: target_sets_of(self.model_config().cycles),
                work_secs: self.model_config().work_secs,
                break_secs: self.model_config().break_secs,
            }),
    {
        TimerSnapshot {
            phase: self.phase,
            status: self.status,
            remaining_secs: self.remaining,
            set_index: self.set_index,
            total_sets: self.config.cycles.target_sets(),
            work_secs: self.config.work_secs,
            break_secs: self.config.break_secs,
        }
    }

    /// The current config.
    pub fn config(&self) -> (c: Config)
        ensures
            c == self.model_config(),
    {
        self.config
    }

    /// Replaces the config (sanitized). An idle timer goes back to the head so the new
    /// work length shows; a running or paused session keeps its phase and remaining time,
    /// and the new lengths apply from the next phase, the new cycle count from the next
    /// end-of-set decision.
    pub fn set_config(&mut self, config: Config)
        requires
            old(self).wf(),
        ensures
            final(self).wf(),
            final(self).model_config() == sanitized_config(config),
            final(self).model_state() == reconfigured_state(
                sanitized_config(config),
                old(self).model_state(),
            ),
    {
        self.config = config.sanitized();
        if self.status == Status::Idle {
            self.reset();
        }
    }

    /// Starts a new session when idle, resumes when paused, does nothing when running.
    pub fn start(&mut self)
        requires
            old(self).wf(),
        ensures
            final(self).wf(),
            final(self).model_config() == old(self).model_config(),
            final(self).model_state() == start_step(old(self).model_config(), old(self).model_state()),
    {
        match self.status {
            Status::Running => {},
            Status::Paused => self.status = Status::Running,
            Status::Idle => {
                self.phase = Phase::Work;
                self.remaining = self.config.work_secs;
                self.set_index = 0;
                self.status = Status::Running;
            },
        }
    }

    /// Pauses a running timer; does nothing otherwise.
    pub fn pause(&mut self)
        requires
            old(self).wf(),
        ensures
            final(self).wf(),
            final(self).model_config() == old(self).model_config(),
            final(self).model_state() == pause_step(old(self).model_state()),
    {
        if self.status == Status::Running {
            self.status = Status::Paused;
        }
    }

    /// Back to the head of a session: work phase, full length, set 0, idle.
    pub fn reset(&mut self)
        requires
            old(self).wf(),
        ensures
            final(self).wf(),
            final(self).model_config() == old(self).model_config(),
            final(self).model_state() == head_state(old(self).model_config()),
    {
        self.phase = Phase::Work;
        self.remaining = self.config.work_secs;
        self.set_index = 0;
        self.status = Status::Idle;
    }

    /// Ends the current phase now and moves on, keeping `Running` or `Paused`; does
    /// nothing when idle. Returns the events of the boundary crossed.
    pub fn skip(&mut self) -> (events: Vec<TimerEvent>)
        requires
            old(self).wf(),
        ensures
            final(self).wf(),
            final(self).model_config() == old(self).model_config(),
            (final(self).model_state(), events@) == skip_step(
                old(self).model_config(),
                old(self).model_state(),
            ),
    {
        let mut events = Vec::new();
        if self.status == Status::Idle {
            return events;
        }
        self.complete_phase(&mut events);
        events
    }

    /// Lets `secs` seconds pass. Nothing happens unless running. Returns the events of
    /// every boundary crossed, in order, however many there are.
    pub fn tick(&mut self, secs: u32) -> (events: Vec<TimerEvent>)
        requires
            old(self).wf(),
        ensures
            final(self).wf(),
            final(self).model_config() == old(self).model_config(),
            (final(self).model_state(), events@) == tick_run(
                old(self).model_config(),
                old(self).model_state(),
                secs as nat,
            ),
    {
        let ghost c = self.config;
        let ghost goal = tick_run(c, self.model_state(), secs as nat);
        let mut events: Vec<TimerEvent> = Vec::new();
        if self.status != Status::Running {
            return events;
        }
        let mut left: u32 = secs;
        while left > 0 && self.status == Status::Running
            invariant
                self.wf(),
                self.config == c,
                tick_run(c, self.model_state(), left as nat).0 == goal.0,
                events@ + tick_run(c, self.model_state(), left as nat).1 == goal.1,
            decreases left, (if self.remaining == 0 { 1int } else { 0int }),
        {
            let ghost before = self.model_state();
            if left < self.remaining {
                self.remaining = self.remaining - left;
                left = 0;
                assert(events@ + Seq::<TimerEvent>::empty() == events@);
            } else {
                left = left - self.remaining;
                self.remaining = 0;
                let ghost ev0 = events@;
                self.complete_phase(&mut events);
                assert(ev0 + (complete_step(c, TimerState { remaining_secs: 0, ..before }).1
                    + tick_run(c, self.model_state(), left as nat).1)
                    == events@ + tick_run(c, self.model_state(), left as nat).1);
            }
        }
        proof {
            assert(tick_run(c, self.model_state(), left as nat).1 == Seq::<TimerEvent>::empty());
            assert(events@ + Seq::<TimerEvent>::empty() == events@);
        }
        events
    }

    /// The end-of-phase transition, appending its events to `events`.
    fn complete_phase(&mut self, events: &mut Vec<TimerEvent>)
        requires
            old(self).wf(),
        ensures
            final(self).wf(),
            final(self).model_config() == old(self).model_config(),
            final(self).model_state() == complete_step(
                old(self).model_config(),
                old(self).model_state(),
            ).0,
            final(events)@ == old(events)@ + complete_step(
                old(self).model_config(),
                old(self).model_state(),
            ).1,
    {
        match self.phase {
            Phase::Work => {
                events.push(TimerEvent::WorkEnded);
                self.phase = Phase::Break;
                self.remaining = self.config.break_secs;
            },
            Phase::Break => {
                events.push(TimerEvent::BreakEnded);
                let completed = self.set_index.saturating_add(1);
                if self.config.cycles.is_last_set(completed) {
                    events.push(TimerEvent::SessionFinished);
                    self.reset();
                } else {
                    self.set_index = completed;
                    self.phase = Phase::Work;
                    self.remaining = self.config.work_secs;
                }
            },
        }
    }
}

} // verus!
