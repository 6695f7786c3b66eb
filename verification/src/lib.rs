//! Core logic of a landscape pomodoro timer: the timer state machine, the settings
//! model with its validation, the completion statistics, the persisted session that
//! lets a running timer survive a process restart, and the decisions that drive the
//! timer from the wall clock.

pub mod session;
pub mod settings;
pub mod stats;
pub mod timer;
pub mod timer_laws;

use vstd::prelude::*;

use crate::session::PersistedSession;
use crate::settings::{
    effective_config, is_sanitized_of, law_sanitized_in_range, law_stored_settings_take_effect,
    settings_config, AppSettings,
};
use crate::timer::{
    elapsed_secs_spec, launch_state, reconfigured_state, sanitized_config, tick_run, Timer,
    TimerEvent,
};

verus! {

/// The driver ticks about once a second. A gap larger than this between two ticks means
/// the process was throttled in the background; the boundaries crossed in such a batch
/// are neither announced nor counted in the statistics.
pub const MAX_LIVE_GAP_SECS: u32 = 15;

/// Whether a tick of `elapsed_secs` seconds is an ordinary live tick (as opposed to a
/// catch-up batch after a background gap).
pub fn is_live_gap(elapsed_secs: u32) -> (live: bool)
    ensures
        live == (elapsed_secs <= MAX_LIVE_GAP_SECS),
{
    elapsed_secs <= MAX_LIVE_GAP_SECS
}


/// What the driver does after one wake-up of the tick loop.
pub struct TickPlan {
    /// Whether at least one whole second passed and the timer was ticked; when false the
    /// timer is unchanged and nothing is published.
    pub ticked: bool,
    /// The wall-clock second to measure the next tick from.
    pub next_last_unix: u64,
    /// The boundary events of this tick, in order.
    pub events: Vec<TimerEvent>,
    /// Announce the events (sounds, notifications): only for a live tick.
    pub announce: bool,
    /// Persist the session: a boundary was crossed, so the recorded pair changed.
    pub persist: bool,
    /// Count the events in the statistics: only a live tick that crossed a boundary.
    pub count: bool,
}

/// One wake-up of the tick loop of a running timer: the whole seconds passed on the wall
/// clock since `last_unix` (0 when the clock went backwards) are handed to one tick.
/// When no whole second passed, nothing happens and `last_unix` is kept, so the fraction
/// carries over. A batch longer than `MAX_LIVE_GAP_SECS` (a background gap) updates the
/// timer but is neither announced nor counted.
pub fn advance_by_wall_clock(timer: &mut Timer, last_unix: u64, now_unix: u64) -> (plan: TickPlan)
    requires
        old(timer).wf(),
    ensures
        final(timer).wf(),
        final(timer).model_config() == old(timer).model_config(),
        ({
            let e = elapsed_secs_spec(last_unix, now_unix);
            if e == 0 {
                &&& !plan.ticked
                &&& plan.next_last_unix == last_unix
                &&& plan.events@ == Seq::<TimerEvent>::empty()
                &&& !plan.announce && !plan.persist && !plan.count
                &&& final(timer).model_state() == old(timer).model_state()
            } else {
                let run = tick_run(old(timer).model_config(), old(timer).model_state(), e as nat);
                &&& plan.ticked
                &&& plan.next_last_unix == now_unix
                &&& final(timer).model_state() == run.0
                &&& plan.events@ == run.1
                &&& plan.announce == (e <= MAX_LIVE_GAP_SECS)
                &&& plan.persist == (run.1.len() > 0)
                &&& plan.count == (e <= MAX_LIVE_GAP_SECS && run.1.len() > 0)
            }
        }),
{
    let elapsed = crate::timer::wall_elapsed_secs(last_unix, now_unix);
    if elapsed == 0 {
        return TickPlan {
            ticked: false,
            next_last_unix: last_unix,
            events: Vec::new(),
            announce: false,
            persist: false,
            count: false,
        };
    }
    let events = timer.tick(elapsed);
    let live = is_live_gap(elapsed);
    let crossed = events.len() > 0;
    TickPlan {
        ticked: true,
        next_last_unix: now_unix,
        events,
        announce: live,
        persist: crossed,
        count: live && crossed,
    }
}

/// The timer at launch, from the loaded settings, the persisted session and the wall
/// clock (see `timer::launch_state`). The loaded settings are sanitized before they are
/// applied, like any settings, so the timer runs with `effective_config` of them.
pub fn launch_timer(settings: AppSettings, persisted: Option<PersistedSession>, now_unix: u64) -> (t: Timer)
    ensures
        t.wf(),
        t.model_config() == effective_config(settings),
        t.model_state() == launch_state(
            match persisted {
                Some(p) => Some((p.state, p.anchor_unix_secs)),
                None => None,
            },
            effective_config(settings),
            settings.autostart_timer,
            now_unix,
        ),
{
    let persisted_pair = match persisted {
        Some(p) => Some((p.state, p.anchor_unix_secs)),
        None => None,
    };
    let autostart = settings.autostart_timer;
    let applied = settings.sanitized();
    proof {
        law_sanitized_in_range(applied, settings);
        law_stored_settings_take_effect(applied);
    }
    Timer::restore_for_launch(persisted_pair, applied.to_config(), autostart, now_unix)
}

/// Settings saved from the settings view: they are sanitized, applied to the timer (an
/// idle timer goes back to the head, a running session keeps going), and the sanitized
/// settings are returned for storing, so that what is stored is what takes effect.
pub fn apply_settings(timer: &mut Timer, settings: AppSettings) -> (stored: AppSettings)
    requires
        old(timer).wf(),
    ensures
        final(timer).wf(),
        is_sanitized_of(stored, settings),
        final(timer).model_config() == sanitized_config(settings_config(stored)),
        final(timer).model_state() == reconfigured_state(
            sanitized_config(settings_config(stored)),
            old(timer).model_state(),
        ),
{
    let stored = settings.sanitized();
    timer.set_config(stored.to_config());
    stored
}

} // verus!
