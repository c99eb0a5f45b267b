use vstd::prelude::*;
use vstd::string::StringExecFns;
use crate::settings::{spec_setting, Settings};
use crate::strutil::{contains_str, has_substring, str_eq};
use crate::{GameMode, MemoryValues, State};

verus! {

/// The checkpoint key a split decision stores in the cursor when the
/// survival counter fires.
pub open spec fn survival_key() -> Seq<char> {
    "survival"@
}

/// The split decision for one poll: the key of the checkpoint that fires,
/// or nothing. The conditions are tried in priority order and the first
/// match wins, so at most one split fires per poll:
/// section advance, music cue, boss-rush music, survival advance.
/// The cursor — the key of the checkpoint fired last — suppresses firing
/// the same section or music checkpoint twice in a row.
pub open spec fn split_decision(
    v: MemoryValues,
    mode: GameMode,
    cursor: Seq<char>,
    s: Settings,
) -> Option<Seq<char>> {
    let active_accum = if mode is Survival {
        v.accum_frames_survival
    } else {
        v.accum_frames
    };
    if active_accum.spec_increased() && spec_setting(s, v.current_lvl.previous@)
        && v.current_lvl.previous@ != cursor {
        Some(v.current_lvl.previous@)
    } else if v.current_music.spec_changed() && spec_setting(s, v.current_music.current@)
        && v.current_music.current@ != cursor {
        Some(v.current_music.current@)
    } else if v.current_music.spec_changed() && has_substring(v.current_music.current@, "BossRush"@)
        && v.current_music.current@ != "Music_BossRush!A00_Diva"@ && s.splits_boss_rush_new_boss {
        Some(v.current_music.current@)
    } else if v.accum_frames_survival.spec_increased() && s.splits_survival {
        Some(survival_key())
    } else {
        None
    }
}

impl State {
    /// Decide whether this poll fires a checkpoint; when one fires, the
    /// cursor remembers its key. Without a configuration nothing fires.
    pub fn should_split(&mut self) -> (r: bool)
        ensures
            ({
                let pre = *old(self);
                let post = *final(self);
                match pre.settings {
                    None => r == false && post == pre,
                    Some(s) => {
                        let decision = split_decision(
                            pre.values,
                            pre.game_mode,
                            pre.last_split_key@,
                            s,
                        );
                        &&& r == (decision is Some)
                        &&& post.last_split_key@ == (match decision {
                            Some(k) => k,
                            None => pre.last_split_key@,
                        })
                        &&& post.values == pre.values
                        &&& post.igt == pre.igt
                        &&& post.game_mode == pre.game_mode
                        &&& post.settings == pre.settings
                        &&& post.version == pre.version
                        &&& post.pointer_paths == pre.pointer_paths
                        &&& post.attached == pre.attached
                        &&& post.started_up == pre.started_up
                    },
                }
            }),
    {
        let settings: Settings = match &self.settings {
            Some(s) => *s,
            None => {
                return false;
            },
        };

        let active_increased: bool = match self.game_mode {
            GameMode::Normal => self.values.accum_frames.increased(),
            GameMode::Survival => self.values.accum_frames_survival.increased(),
        };

        // level/section change
        if active_increased
            && crate::settings::get_setting_from_string(
            self.values.current_lvl.previous.as_str(),
            &settings,
        ) && !str_eq(self.values.current_lvl.previous.as_str(), self.last_split_key.as_str()) {
            self.last_split_key = self.values.current_lvl.previous.clone();
            return true;
        }

        let music_changed: bool = self.values.current_music.changed();

        // music change
        if music_changed
            && crate::settings::get_setting_from_string(
            self.values.current_music.current.as_str(),
            &settings,
        ) && !str_eq(self.values.current_music.current.as_str(), self.last_split_key.as_str()) {
            self.last_split_key = self.values.current_music.current.clone();
            return true;
        }

        // boss rush music splits
        if music_changed && contains_str(self.values.current_music.current.as_str(), "BossRush")
            && !str_eq(self.values.current_music.current.as_str(), "Music_BossRush!A00_Diva")
            && settings.splits_boss_rush_new_boss {
            self.last_split_key = self.values.current_music.current.clone();
            return true;
        }

        // survival
        if self.values.accum_frames_survival.increased() && settings.splits_survival {
            self.last_split_key = String::from_str("survival");
            return true;
        }

        false
    }
}

} // verus!
