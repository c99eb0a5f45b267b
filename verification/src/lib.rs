use vstd::prelude::*;
use vstd::string::StrSliceExecFns;

pub mod gametime;
pub mod memory;
pub mod pairs;
pub mod settings;
pub mod splits;
pub mod strutil;
pub mod utf16;

use crate::gametime::{filtered, GameTime};
use crate::memory::{get_pointer_paths, paths_selected};
use crate::pairs::{int_pair_updated, Pair};
use crate::settings::Settings;
use crate::splits::split_decision;
use crate::strutil::{contains_str, has_substring, str_eq};
use crate::utf16::{decode_utf16_buffer, decoded_text};

verus! {

/// Which accumulated-frames counter feeds the elapsed-time computation.
/// Fixed at run start, not reconsidered while a run is going.
#[derive(Clone, Copy, Debug, PartialEq, Eq, Structural)]
pub enum GameMode {
    Normal,
    Survival,
}

/// A supported build of the target game, recognised by the in-memory size
/// of its main module; anything unrecognised is explicitly unsupported.
#[derive(Clone, Copy, Debug, PartialEq, Eq, Structural)]
pub enum Version {
    Unsupported,
    V08SR14424,
    V07SR13648,
}

/// One pointer chain per tracked quantity: the first offset is relative to
/// the module base, each later one is applied after a dereference.
pub struct PointerPaths {
    pub submenus_open: Vec<u64>,
    pub current_section_frames: Vec<u64>,
    pub accum_frames: Vec<u64>,
    pub accum_frames_survival: Vec<u64>,
    pub current_lvl: Vec<u64>,
    pub current_music: Vec<u64>,
}

impl PointerPaths {
    /// Only empty chains: every read through them fails closed.
    pub fn empty() -> (r: Self)
        ensures
            paths_selected(r, Version::Unsupported),
    {
        PointerPaths {
            submenus_open: Vec::new(),
            current_section_frames: Vec::new(),
            accum_frames: Vec::new(),
            accum_frames_survival: Vec::new(),
            current_lvl: Vec::new(),
            current_music: Vec::new(),
        }
    }
}

/// The change-tracked store: previous and current sample of every tracked
/// quantity.
pub struct MemoryValues {
    pub submenus_open: Pair<i32>,
    pub current_section_frames: Pair<i32>,
    pub accum_frames: Pair<i32>,
    pub accum_frames_survival: Pair<i32>,
    pub current_lvl: Pair<String>,
    pub current_music: Pair<String>,
}

/// What one poll's memory reads yielded. `None` is a failed read; a string
/// read yields the raw fixed-capacity UTF-16 buffer.
pub struct SampledValues {
    pub submenus_open: Option<i32>,
    pub current_section_frames: Option<i32>,
    pub accum_frames: Option<i32>,
    pub accum_frames_survival: Option<i32>,
    pub current_lvl: Option<Vec<u16>>,
    pub current_music: Option<Vec<u16>>,
}

/// The signals one poll asks the external timer host to deliver, in order:
/// start, publish game time, reset, split, pause time updates.
pub struct TimerActions {
    pub start: bool,
    pub set_game_time_frames: Option<u64>,
    pub reset: bool,
    pub split: bool,
    pub pause_game_time: bool,
}

/// The module image size each version is recognised by.
pub open spec fn version_for_size(module_size: u64) -> Version {
    if module_size == 0x1657000 {
        Version::V08SR14424
    } else if module_size == 0x1638000 {
        Version::V07SR13648
    } else {
        Version::Unsupported
    }
}

/// Exact-match lookup of the module image size; no fuzzy matching.
pub fn detect_version(module_size: u64) -> (v: Version)
    ensures
        v == version_for_size(module_size),
{
    if module_size == 0x1657000 {
        Version::V08SR14424
    } else if module_size == 0x1638000 {
        Version::V07SR13648
    } else {
        Version::Unsupported
    }
}

/// Normal play is any level whose name speaks of a stage or a boss, or an
/// empty (yet unread) name; every other level name means survival mode.
pub open spec fn spec_game_mode(level: Seq<char>) -> GameMode {
    if has_substring(level, "stage"@) || has_substring(level, "boss"@) || level.len() == 0 {
        GameMode::Normal
    } else {
        GameMode::Survival
    }
}

/// Derive the game mode from the current level name.
pub fn check_current_game_mode(level_name: &String) -> (r: GameMode)
    ensures
        r == spec_game_mode(level_name@),
{
    if contains_str(level_name.as_str(), "stage") || contains_str(level_name.as_str(), "boss")
        || level_name.as_str().unicode_len() == 0 {
        GameMode::Normal
    } else {
        GameMode::Survival
    }
}

/// An integer pair after merging one read: a successful read shifts the
/// pair, a failed one leaves it untouched.
pub open spec fn int_refreshed(old_pair: Pair<i32>, sample: Option<i32>, new_pair: Pair<i32>) -> bool {
    match sample {
        Some(v) => new_pair == int_pair_updated(old_pair, v),
        None => new_pair == old_pair,
    }
}

/// A string pair after merging one read: a successful read shifts the pair
/// and stores the decoded text, a failed one leaves it untouched.
pub open spec fn str_refreshed(old_pair: Pair<String>, sample: Option<Vec<u16>>, new_pair: Pair<String>) -> bool {
    match sample {
        Some(buf) => new_pair.previous@ == old_pair.current@ && new_pair.current@ == decoded_text(
            buf@,
        ),
        None => new_pair == old_pair,
    }
}

/// The whole store after merging one poll's reads, quantity by quantity;
/// one failed read degrades only its own quantity.
pub open spec fn values_refreshed(
    old_values: MemoryValues,
    sample: SampledValues,
    new_values: MemoryValues,
) -> bool {
    &&& int_refreshed(old_values.submenus_open, sample.submenus_open, new_values.submenus_open)
    &&& int_refreshed(
        old_values.current_section_frames,
        sample.current_section_frames,
        new_values.current_section_frames,
    )
    &&& int_refreshed(old_values.accum_frames, sample.accum_frames, new_values.accum_frames)
    &&& int_refreshed(
        old_values.accum_frames_survival,
        sample.accum_frames_survival,
        new_values.accum_frames_survival,
    )
    &&& str_refreshed(old_values.current_lvl, sample.current_lvl, new_values.current_lvl)
    &&& str_refreshed(old_values.current_music, sample.current_music, new_values.current_music)
}

/// A run starts when the current-section frame counter just moved into the
/// open interval from zero to sixty, on a named level that is not the
/// training room.
pub open spec fn start_condition(v: MemoryValues) -> bool {
    &&& 0 < v.current_section_frames.current < 60
    &&& v.current_section_frames.spec_changed()
    &&& v.current_lvl.current@.len() > 0
    &&& v.current_lvl.current@ != "training"@
}

/// The run is reset when the submenu-open counter goes from exactly two to
/// exactly zero.
pub open spec fn reset_condition(v: MemoryValues) -> bool {
    v.submenus_open.previous == 2 && v.submenus_open.current == 0
}

/// All per-session state at its initial value.
pub open spec fn session_cleared(s: State) -> bool {
    &&& s.values.submenus_open == (Pair::<i32> { previous: 0, current: 0 })
    &&& s.values.current_section_frames == (Pair::<i32> { previous: 0, current: 0 })
    &&& s.values.accum_frames == (Pair::<i32> { previous: 0, current: 0 })
    &&& s.values.accum_frames_survival == (Pair::<i32> { previous: 0, current: 0 })
    &&& s.values.current_lvl.previous@ == Seq::<char>::empty()
    &&& s.values.current_lvl.current@ == Seq::<char>::empty()
    &&& s.values.current_music.previous@ == Seq::<char>::empty()
    &&& s.values.current_music.current@ == Seq::<char>::empty()
    &&& s.igt.frames == 0
    &&& s.game_mode is Normal
    &&& s.last_split_key@ == Seq::<char>::empty()
}

/// Everything one poll decides, as a relation between the state before the
/// poll, the sampled values, the timer's running flag, the state after the
/// poll and the emitted actions.
pub open spec fn poll_spec(
    pre: State,
    sample: SampledValues,
    timer_running: bool,
    post: State,
    acts: TimerActions,
) -> bool {
    let v = post.values;
    let started = !timer_running && start_condition(v);
    let mode = if started {
        spec_game_mode(v.current_lvl.current@)
    } else {
        pre.game_mode
    };
    let cursor = if started {
        Seq::<char>::empty()
    } else {
        pre.last_split_key@
    };
    let stored: int = if started {
        0
    } else {
        pre.igt.frames as int
    };
    let candidate: int = v.current_section_frames.current + (if mode is Survival {
        v.accum_frames_survival.current
    } else {
        v.accum_frames.current
    });
    let elapsed: int = filtered(stored, candidate);
    let resetting = reset_condition(v);
    let decision = match pre.settings {
        Some(s) => split_decision(v, mode, cursor, s),
        None => Option::<Seq<char>>::None,
    };
    &&& values_refreshed(pre.values, sample, v)
    &&& acts.start == started
    &&& post.game_mode == mode
    &&& post.igt.frames == (if resetting {
        0int
    } else {
        elapsed
    })
    &&& acts.reset == resetting
    &&& acts.set_game_time_frames == (if resetting {
        Option::Some(0u64)
    } else if timer_running {
        Option::Some(elapsed as u64)
    } else {
        Option::<u64>::None
    })
    &&& acts.split == (decision is Some)
    &&& post.last_split_key@ == (match decision {
        Some(k) => k,
        None => cursor,
    })
    &&& acts.pause_game_time == true
    &&& post.settings == pre.settings
    &&& post.version == pre.version
    &&& post.pointer_paths == pre.pointer_paths
    &&& post.attached == pre.attached
    &&& post.started_up == pre.started_up
}

/// The whole session: lifecycle, resolved version, change-tracked values,
/// smoothed game time, active mode and the split cursor.
pub struct State {
    pub started_up: bool,
    pub settings: Option<Settings>,
    pub attached: bool,
    pub version: Version,
    pub pointer_paths: PointerPaths,
    pub values: MemoryValues,
    pub igt: GameTime,
    pub game_mode: GameMode,
    pub last_split_key: String,
}

impl State {
    /// A fresh, disconnected session.
    pub fn new() -> (r: Self)
        ensures
            session_cleared(r),
            !r.attached,
            !r.started_up,
            r.settings is None,
            r.version is Unsupported,
            paths_selected(r.pointer_paths, Version::Unsupported),
            r.igt.wf(),
    {
        State {
            started_up: false,
            settings: None,
            attached: false,
            version: Version::Unsupported,
            pointer_paths: PointerPaths::empty(),
            values: MemoryValues {
                submenus_open: Pair::new(0),
                current_section_frames: Pair::new(0),
                accum_frames: Pair::new(0),
                accum_frames_survival: Pair::new(0),
                current_lvl: Pair::new_empty(),
                current_music: Pair::new_empty(),
            },
            igt: GameTime::new(),
            game_mode: GameMode::Normal,
            last_split_key: String::new(),
        }
    }

    /// One-time startup: take the user's checkpoint configuration.
    pub fn startup(&mut self, settings: Settings)
        ensures
            final(self).settings == Some(settings),
            final(self).started_up,
            final(self).attached == old(self).attached,
            final(self).version == old(self).version,
            final(self).pointer_paths == old(self).pointer_paths,
            final(self).values == old(self).values,
            final(self).igt == old(self).igt,
            final(self).game_mode == old(self).game_mode,
            final(self).last_split_key == old(self).last_split_key,
    {
        self.settings = Some(settings);
        self.started_up = true;
    }

    /// Reset every per-session value, touching nothing else.
    fn clear_session_values(&mut self)
        ensures
            session_cleared(*final(self)),
            final(self).igt.wf(),
            final(self).started_up == old(self).started_up,
            final(self).settings == old(self).settings,
            final(self).attached == old(self).attached,
            final(self).version == old(self).version,
            final(self).pointer_paths == old(self).pointer_paths,
    {
        self.values.submenus_open = Pair::new(0);
        self.values.current_section_frames = Pair::new(0);
        self.values.accum_frames = Pair::new(0);
        self.values.accum_frames_survival = Pair::new(0);
        self.values.current_lvl = Pair::new_empty();
        self.values.current_music = Pair::new_empty();
        self.igt.clear();
        self.game_mode = GameMode::Normal;
        self.last_split_key = String::new();
    }

    /// On a fresh attach: detect the version from the module image size —
    /// exactly once per attach — select its pointer-chain table, and start
    /// the session from clean per-session state.
    pub fn init(&mut self, module_size: u64)
        ensures
            final(self).attached,
            final(self).version == version_for_size(module_size),
            paths_selected(final(self).pointer_paths, version_for_size(module_size)),
            session_cleared(*final(self)),
            final(self).igt.wf(),
            final(self).started_up == old(self).started_up,
            final(self).settings == old(self).settings,
    {
        self.version = detect_version(module_size);
        self.pointer_paths = get_pointer_paths(self.version);
        self.attached = true;
        self.clear_session_values();
    }

    /// The target process is gone: discard all per-session state and go
    /// back to searching.
    pub fn detach(&mut self)
        ensures
            !final(self).attached,
            final(self).version is Unsupported,
            paths_selected(final(self).pointer_paths, Version::Unsupported),
            session_cleared(*final(self)),
            final(self).igt.wf(),
            final(self).started_up == old(self).started_up,
            final(self).settings == old(self).settings,
    {
        self.version = Version::Unsupported;
        self.pointer_paths = PointerPaths::empty();
        self.attached = false;
        self.clear_session_values();
    }

    /// Merge one poll's reads into the change-tracked store; each failed
    /// read leaves its quantity untouched.
    pub fn refresh_mem_values(&mut self, sample: &SampledValues)
        ensures
            values_refreshed(old(self).values, *sample, final(self).values),
            final(self).started_up == old(self).started_up,
            final(self).settings == old(self).settings,
            final(self).attached == old(self).attached,
            final(self).version == old(self).version,
            final(self).pointer_paths == old(self).pointer_paths,
            final(self).igt == old(self).igt,
            final(self).game_mode == old(self).game_mode,
            final(self).last_split_key == old(self).last_split_key,
    {
        match sample.submenus_open {
            Some(v) => self.values.submenus_open.update(v),
            None => {},
        }
        match sample.current_section_frames {
            Some(v) => self.values.current_section_frames.update(v),
            None => {},
        }
        match sample.accum_frames {
            Some(v) => self.values.accum_frames.update(v),
            None => {},
        }
        match sample.accum_frames_survival {
            Some(v) => self.values.accum_frames_survival.update(v),
            None => {},
        }
        match &sample.current_lvl {
            Some(buf) => {
                let text = decode_utf16_buffer(buf);
                self.values.current_lvl.update(text);
            },
            None => {},
        }
        match &sample.current_music {
            Some(buf) => {
                let text = decode_utf16_buffer(buf);
                self.values.current_music.update(text);
            },
            None => {},
        }
    }

    /// One poll while attached: merge the reads, evaluate the start
    /// condition, feed the frame counters through the anti-glitch filter,
    /// evaluate the reset condition, decide a split, and say what the
    /// external timer host should be told.
    pub fn update(&mut self, sample: &SampledValues, timer_running: bool) -> (acts: TimerActions)
        requires
            old(self).igt.wf(),
        ensures
            poll_spec(*old(self), *sample, timer_running, *final(self), acts),
            final(self).igt.wf(),
    {
        self.refresh_mem_values(sample);

        let frames_now: i32 = self.values.current_section_frames.current;
        let frames_changed: bool = self.values.current_section_frames.changed();
        let level_named: bool = self.values.current_lvl.current.as_str().unicode_len() > 0;
        let not_training: bool = !str_eq(self.values.current_lvl.current.as_str(), "training");
        let started: bool = !timer_running && 0 < frames_now && frames_now < 60 && frames_changed
            && level_named && not_training;

        if started {
            self.igt.clear();
            self.game_mode = check_current_game_mode(&self.values.current_lvl.current);
            self.last_split_key = String::new();
        }

        let accum: i32 = match self.game_mode {
            GameMode::Normal => self.values.accum_frames.current,
            GameMode::Survival => self.values.accum_frames_survival.current,
        };
        self.igt.calculate_game_time(self.values.current_section_frames.current, accum);

        let resetting: bool = self.values.submenus_open.previous == 2
            && self.values.submenus_open.current == 0;
        let set_game_time_frames: Option<u64> = if resetting {
            Some(0)
        } else if timer_running {
            Some(self.igt.frames)
        } else {
            None
        };
        if resetting {
            self.igt.clear();
        }

        let split: bool = self.should_split();

        TimerActions {
            start: started,
            set_game_time_frames,
            reset: resetting,
            split,
            pause_game_time: true,
        }
    }
}

} // verus!
