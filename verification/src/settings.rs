//! Application settings and their validation.
//!
//! The library is the authority on valid values: `AppSettings::sanitized` brings every
//! field into its range before the settings are saved or applied, so what is stored is
//! what takes effect.

use vstd::prelude::*;
use vstd::string::*;

use crate::timer::{config_ok, sanitized_config, Config, CycleSetting};

verus! {

/// Shortest phase the settings allow (1 minute).
pub const MIN_PHASE_SECS: u32 = 60;

/// Longest phase the settings allow (180 minutes).
pub const MAX_PHASE_SECS: u32 = 180 * 60;

/// Largest number of sets.
pub const MAX_CYCLES: u32 = 99;

/// Largest volume (volumes run from 0 to 100).
pub const MAX_VOLUME: u8 = 100;

/// Default background during work (`#rrggbb`).
pub const DEFAULT_FOCUS_BG: &'static str = "#1c1c1e";

/// Default background during breaks (`#rrggbb`).
pub const DEFAULT_BREAK_BG: &'static str = "#f0efe9";

/// A hexadecimal digit, either case.
pub open spec fn is_hex_digit_char(c: char) -> bool {
    ('0' <= c && c <= '9') || ('a' <= c && c <= 'f') || ('A' <= c && c <= 'F')
}

/// Text of the form `#rrggbb`.
pub open spec fn is_hex_color_text(t: Seq<char>) -> bool {
    &&& t.len() == 7
    &&& t[0] == '#'
    &&& forall|i: int| 1 <= i < 7 ==> is_hex_digit_char(#[trigger] t[i])
}

/// A valid color is kept, anything else becomes the default.
pub open spec fn sanitized_color_text(t: Seq<char>, default: Seq<char>) -> Seq<char> {
    if is_hex_color_text(t) {
        t
    } else {
        default
    }
}

fn is_hex_digit(c: char) -> (r: bool)
    ensures
        r == is_hex_digit_char(c),
{
    ('0' <= c && c <= '9') || ('a' <= c && c <= 'f') || ('A' <= c && c <= 'F')
}

/// Whether `s` has the form `#rrggbb`.
pub fn is_hex_color(s: &str) -> (r: bool)
    ensures
        r == is_hex_color_text(s@),
{
    if s.unicode_len() != 7 {
        return false;
    }
    if s.get_char(0) != '#' {
        return false;
    }
    let mut i: usize = 1;
    while i < 7
        invariant
            s@.len() == 7,
            s@[0] == '#',
            1 <= i <= 7,
            forall|j: int| 1 <= j < i ==> is_hex_digit_char(#[trigger] s@[j]),
        decreases 7 - i,
    {
        let c = s.get_char(i);
        if !is_hex_digit(c) {
            return false;
        }
        i = i + 1;
    }
    true
}

/// `s` when it is a valid color, `default` otherwise.
pub fn sanitize_color(s: &str, default: &str) -> (r: String)
    ensures
        r@ == sanitized_color_text(s@, default@),
{
    if is_hex_color(s) {
        s.to_owned()
    } else {
        default.to_owned()
    }
}

/// Sound played at a boundary. The front end synthesizes it; the library keeps the id.
#[derive(Debug, Clone, Copy, PartialEq, Eq, Structural)]
pub enum SoundId {
    /// No sound.
    Silent,
    Beep,
    Chime,
    Ding,
    Blip,
    Fanfare,
}

/// Background sound during focus. The front end synthesizes it; the library keeps the id.
#[derive(Debug, Clone, Copy, PartialEq, Eq, Structural)]
pub enum BgmId {
    /// No background sound.
    Silent,
    White,
    Pink,
    Brown,
    Rain,
    Campfire,
}

/// The persisted application settings.
#[derive(Debug, Clone, PartialEq, Eq)]
pub struct AppSettings {
    /// Work phase length in seconds.
    pub work_secs: u32,
    /// Break phase length in seconds.
    pub break_secs: u32,
    /// Repeat without end; `cycles_count` is then ignored (and stored as 0).
    pub cycles_infinite: bool,
    /// Sets to run (0 = one set, the default); used when `cycles_infinite` is false.
    pub cycles_count: u32,
    /// Start the timer when the app starts.
    pub autostart_timer: bool,
    /// Sound at the end of a work phase.
    pub work_end_sound: SoundId,
    /// Sound at the end of a break phase.
    pub break_end_sound: SoundId,
    /// Sound when the session finishes.
    pub session_end_sound: SoundId,
    /// Sound volume (0 to 100).
    pub volume: u8,
    /// Also announce boundaries with OS notifications while in the background.
    pub os_notifications: bool,
    /// Background sound during focus (stopped during breaks).
    pub focus_bgm: BgmId,
    /// Background sound volume (0 to 100).
    pub bgm_volume: u8,
    /// Background color during work (`#rrggbb`).
    pub focus_bg_color: String,
    /// Background color during breaks (`#rrggbb`).
    pub break_bg_color: String,
}

/// `x` brought into `[lo, hi]`.
pub open spec fn clamp_u32(x: u32, lo: u32, hi: u32) -> u32 {
    if x < lo {
        lo
    } else if x > hi {
        hi
    } else {
        x
    }
}

/// `x` capped at `hi`.
pub open spec fn cap_u8(x: u8, hi: u8) -> u8 {
    if x > hi {
        hi
    } else {
        x
    }
}

/// The default settings.
pub open spec fn is_default_settings(s: AppSettings) -> bool {
    &&& s.work_secs == 1500
    &&& s.break_secs == 300
    &&& !s.cycles_infinite
    &&& s.cycles_count == 0
    &&& !s.autostart_timer
    &&& s.work_end_sound == SoundId::Chime
    &&& s.break_end_sound == SoundId::Ding
    &&& s.session_end_sound == SoundId::Fanfare
    &&& s.volume == 70
    &&& !s.os_notifications
    &&& s.focus_bgm == BgmId::Silent
    &&& s.bgm_volume == 25
    &&& s.focus_bg_color@ == DEFAULT_FOCUS_BG@
    &&& s.break_bg_color@ == DEFAULT_BREAK_BG@
}

/// `r` is `s` with every field brought into its range: phase lengths clamped to
/// `[MIN_PHASE_SECS, MAX_PHASE_SECS]`, the set count capped at `MAX_CYCLES` (and 0 when
/// infinite), volumes capped at `MAX_VOLUME`, invalid colors replaced by the defaults,
/// and the fields that have no range kept.
pub open spec fn is_sanitized_of(r: AppSettings, s: AppSettings) -> bool {
    &&& r.work_secs == clamp_u32(s.work_secs, MIN_PHASE_SECS, MAX_PHASE_SECS)
    &&& r.break_secs == clamp_u32(s.break_secs, MIN_PHASE_SECS, MAX_PHASE_SECS)
    &&& r.cycles_infinite == s.cycles_infinite
    &&& r.cycles_count == (if s.cycles_infinite {
        0u32
    } else if s.cycles_count > MAX_CYCLES {
        MAX_CYCLES
    } else {
        s.cycles_count
    })
    &&& r.autostart_timer == s.autostart_timer
    &&& r.work_end_sound == s.work_end_sound
    &&& r.break_end_sound == s.break_end_sound
    &&& r.session_end_sound == s.session_end_sound
    &&& r.volume == cap_u8(s.volume, MAX_VOLUME)
    &&& r.os_notifications == s.os_notifications
    &&& r.focus_bgm == s.focus_bgm
    &&& r.bgm_volume == cap_u8(s.bgm_volume, MAX_VOLUME)
    &&& r.focus_bg_color@ == sanitized_color_text(s.focus_bg_color@, DEFAULT_FOCUS_BG@)
    &&& r.break_bg_color@ == sanitized_color_text(s.break_bg_color@, DEFAULT_BREAK_BG@)
}

/// Every field is in its range.
pub open spec fn settings_in_range(s: AppSettings) -> bool {
    &&& MIN_PHASE_SECS <= s.work_secs <= MAX_PHASE_SECS
    &&& MIN_PHASE_SECS <= s.break_secs <= MAX_PHASE_SECS
    &&& s.cycles_count <= MAX_CYCLES
    &&& s.cycles_infinite ==> s.cycles_count == 0
    &&& s.volume <= MAX_VOLUME
    &&& s.bgm_volume <= MAX_VOLUME
    &&& is_hex_color_text(s.focus_bg_color@)
    &&& is_hex_color_text(s.break_bg_color@)
}

/// The timer config the settings describe.
pub open spec fn settings_config(s: AppSettings) -> Config {
    Config {
        work_secs: s.work_secs,
        break_secs: s.break_secs,
        cycles: if s.cycles_infinite {
            CycleSetting::Infinite
        } else {
            CycleSetting::Finite(s.cycles_count)
        },
    }
}

/// The timer config that settings take effect with: the config of the settings brought
/// into range (phases clamped to `[MIN_PHASE_SECS, MAX_PHASE_SECS]`, the set count capped
/// at `MAX_CYCLES`).
pub open spec fn effective_config(s: AppSettings) -> Config {
    Config {
        work_secs: clamp_u32(s.work_secs, MIN_PHASE_SECS, MAX_PHASE_SECS),
        break_secs: clamp_u32(s.break_secs, MIN_PHASE_SECS, MAX_PHASE_SECS),
        cycles: if s.cycles_infinite {
            CycleSetting::Infinite
        } else if s.cycles_count > MAX_CYCLES {
            CycleSetting::Finite(MAX_CYCLES)
        } else {
            CycleSetting::Finite(s.cycles_count)
        },
    }
}

/// The two settings hold the same values (colors compared as text).
pub open spec fn same_settings(a: AppSettings, b: AppSettings) -> bool {
    &&& a.work_secs == b.work_secs
    &&& a.break_secs == b.break_secs
    &&& a.cycles_infinite == b.cycles_infinite
    &&& a.cycles_count == b.cycles_count
    &&& a.autostart_timer == b.autostart_timer
    &&& a.work_end_sound == b.work_end_sound
    &&& a.break_end_sound == b.break_end_sound
    &&& a.session_end_sound == b.session_end_sound
    &&& a.volume == b.volume
    &&& a.os_notifications == b.os_notifications
    &&& a.focus_bgm == b.focus_bgm
    &&& a.bgm_volume == b.bgm_volume
    &&& a.focus_bg_color@ == b.focus_bg_color@
    &&& a.break_bg_color@ == b.break_bg_color@
}

proof fn lemma_default_colors_valid()
    ensures
        is_hex_color_text(DEFAULT_FOCUS_BG@),
        is_hex_color_text(DEFAULT_BREAK_BG@),
{
    reveal_strlit("#1c1c1e");
    reveal_strlit("#f0efe9");
}

/// Sanitized settings are in range, whatever they were sanitized from.
pub proof fn law_sanitized_in_range(r: AppSettings, s: AppSettings)
    requires
        is_sanitized_of(r, s),
    ensures
        settings_in_range(r),
{
    lemma_default_colors_valid();
}

/// Settings already in range come out of sanitizing unchanged.
pub proof fn law_in_range_unchanged(r: AppSettings, s: AppSettings)
    requires
        settings_in_range(s),
        is_sanitized_of(r, s),
    ensures
        same_settings(r, s),
{
}

/// Sanitizing twice is sanitizing once.
pub proof fn law_sanitize_idempotent(r: AppSettings, r2: AppSettings, s: AppSettings)
    requires
        is_sanitized_of(r, s),
        is_sanitized_of(r2, r),
    ensures
        same_settings(r2, r),
{
    law_sanitized_in_range(r, s);
    law_in_range_unchanged(r2, r);
}

/// Stored settings are the effective ones: the timer config of settings in range has no
/// phase shorter than a minute, and the timer takes it without changing anything.
pub proof fn law_stored_settings_take_effect(s: AppSettings)
    requires
        settings_in_range(s),
    ensures
        config_ok(settings_config(s)),
        sanitized_config(settings_config(s)) == settings_config(s),
{
}

impl Default for AppSettings {
    fn default() -> (s: Self)
        ensures
            is_default_settings(s),
    {
        let c = Config::default();
        AppSettings {
            work_secs: c.work_secs,
            break_secs: c.break_secs,
            cycles_infinite: false,
            cycles_count: 0,
            autostart_timer: false,
            work_end_sound: SoundId::Chime,
            break_end_sound: SoundId::Ding,
            session_end_sound: SoundId::Fanfare,
            volume: 70,
            os_notifications: false,
            focus_bgm: BgmId::Silent,
            bgm_volume: 25,
            focus_bg_color: DEFAULT_FOCUS_BG.to_owned(),
            break_bg_color: DEFAULT_BREAK_BG.to_owned(),
        }
    }
}

impl AppSettings {
    /// These settings with every field brought into its range (see `is_sanitized_of`).
    /// Applied before saving and before applying, so that the stored values are the
    /// effective ones.
    pub fn sanitized(self) -> (r: Self)
        ensures
            is_sanitized_of(r, self),
            settings_config(r) == effective_config(self),
    {
        let work_secs = if self.work_secs < MIN_PHASE_SECS {
            MIN_PHASE_SECS
        } else if self.work_secs > MAX_PHASE_SECS {
            MAX_PHASE_SECS
        } else {
            self.work_secs
        };
        let break_secs = if self.break_secs < MIN_PHASE_SECS {
            MIN_PHASE_SECS
        } else if self.break_secs > MAX_PHASE_SECS {
            MAX_PHASE_SECS
        } else {
            self.break_secs
        };
        let cycles_count = if self.cycles_infinite {
            0
        } else if self.cycles_count > MAX_CYCLES {
            MAX_CYCLES
        } else {
            self.cycles_count
        };
        let volume = if self.volume > MAX_VOLUME { MAX_VOLUME } else { self.volume };
        let bgm_volume = if self.bgm_volume > MAX_VOLUME { MAX_VOLUME } else { self.bgm_volume };
        let focus_bg_color = sanitize_color(self.focus_bg_color.as_str(), DEFAULT_FOCUS_BG);
        let break_bg_color = sanitize_color(self.break_bg_color.as_str(), DEFAULT_BREAK_BG);
        AppSettings {
            work_secs,
            break_secs,
            cycles_infinite: self.cycles_infinite,
            cycles_count,
            autostart_timer: self.autostart_timer,
            work_end_sound: self.work_end_sound,
            break_end_sound: self.break_end_sound,
            session_end_sound: self.session_end_sound,
            volume,
            os_notifications: self.os_notifications,
            focus_bgm: self.focus_bgm,
            bgm_volume,
            focus_bg_color,
            break_bg_color,
        }
    }

    /// The timer config these settings describe.
    pub fn to_config(&self) -> (c: Config)
        ensures
            c == settings_config(*self),
    {
        Config {
            work_secs: self.work_secs,
            break_secs: self.break_secs,
            cycles: if self.cycles_infinite {
                CycleSetting::Infinite
            } else {
                CycleSetting::Finite(self.cycles_count)
            },
        }
    }
}

} // verus!
