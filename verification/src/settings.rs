use vstd::prelude::*;
use crate::strutil::str_eq;

verus! {

/// The user-configured checkpoint flags: one per level section plus the
/// special music, boss-rush and survival triggers. Supplied once at
/// startup and read-only afterwards.
#[derive(Clone, Copy)]
pub struct Settings {
    /// Boss Rush - Boss Defeated
    pub splits_boss_rush_new_boss: bool,
    /// Boss Rush Completed
    pub splits_boss_rush_complete: bool,
    /// Survival Mode - Level Complete
    pub splits_survival: bool,
    /// Streets
    pub splits_stage1_1: bool,
    /// Sewers
    pub splits_stage1_2: bool,
    /// Diva
    pub splits_stage1_3: bool,
    /// Jail
    pub splits_stage2_1: bool,
    /// HQ
    pub splits_stage2_2: bool,
    /// Commissioner
    pub splits_stage2_3: bool,
    /// Outside
    pub splits_stage3_1a: bool,
    /// Inside
    pub splits_stage3_1b: bool,
    /// Hallway
    pub splits_stage3_1c: bool,
    /// Nora
    pub splits_stage3_2: bool,
    /// Pier
    pub splits_stage4_1: bool,
    /// Estel Start
    pub splits_music_level04_boss: bool,
    /// Estel
    pub splits_stage4_2: bool,
    /// Underground
    pub splits_stage5_1: bool,
    /// Bar
    pub splits_stage5_2: bool,
    /// Barbon
    pub splits_stage5_3: bool,
    /// Streets
    pub splits_stage6_1: bool,
    /// Dojo - Galsia Room
    pub splits_stage6_2a: bool,
    /// Dojo - Donovan Room
    pub splits_stage6_2b: bool,
    /// Dojo - Pheasant Room
    pub splits_stage6_2c: bool,
    /// Shiva
    pub splits_stage6_3: bool,
    /// Estel Start
    pub splits_music_level07_boss: bool,
    /// Estel
    pub splits_stage7_1: bool,
    /// Gallery
    pub splits_stage8_1: bool,
    /// Beyo and Riha
    pub splits_stage8_2: bool,
    /// Sauna
    pub splits_stage9_1: bool,
    /// Elevator
    pub splits_stage9_2: bool,
    /// Max
    pub splits_stage9_3: bool,
    /// Rooftops - Arrival
    pub splits_stage10_1a: bool,
    /// Rooftops - Advance
    pub splits_stage10_1b: bool,
    /// Rooftops - Wrecking Balls
    pub splits_stage10_1c: bool,
    /// DJ K-Washi
    pub splits_stage10_3: bool,
    /// Platform
    pub splits_stage11_1: bool,
    /// Boarding the Airplane
    pub splits_stage11_2a: bool,
    /// Inside the Airplane
    pub splits_stage11_2b: bool,
    /// Mr. Y
    pub splits_stage11_3: bool,
    /// Wreckage
    pub splits_stage12_1: bool,
    /// Hallway
    pub splits_stage12_2a: bool,
    /// Inside Castle
    pub splits_stage12_2b: bool,
    /// Ms. Y
    pub splits_stage12_2c: bool,
    /// Ms. Y, Mr. Y and Y Mecha
    pub splits_stage12_3: bool,
}

/// Which checkpoint flag a level-section or music-cue name selects, and its
/// value; names that select no checkpoint are disabled.
pub open spec fn spec_setting(s: Settings, key: Seq<char>) -> bool {
    if key == "stage1_1"@ {
        s.splits_stage1_1
    } else if key == "stage1_2"@ {
        s.splits_stage1_2
    } else if key == "stage1_3"@ {
        s.splits_stage1_3
    } else if key == "stage2_1"@ {
        s.splits_stage2_1
    } else if key == "stage2_2"@ {
        s.splits_stage2_2
    } else if key == "stage2_3"@ {
        s.splits_stage2_3
    } else if key == "stage3_1a"@ {
        s.splits_stage3_1a
    } else if key == "stage3_1b"@ {
        s.splits_stage3_1b
    } else if key == "stage3_1c"@ {
        s.splits_stage3_1c
    } else if key == "stage3_2"@ {
        s.splits_stage3_2
    } else if key == "stage4_1"@ {
        s.splits_stage4_1
    } else if key == "Music_Level04!BOSS"@ {
        s.splits_music_level04_boss
    } else if key == "stage4_2"@ {
        s.splits_stage4_2
    } else if key == "stage5_1"@ {
        s.splits_stage5_1
    } else if key == "stage5_2"@ {
        s.splits_stage5_2
    } else if key == "stage5_3"@ {
        s.splits_stage5_3
    } else if key == "stage6_1"@ {
        s.splits_stage6_1
    } else if key == "stage6_2a"@ {
        s.splits_stage6_2a
    } else if key == "stage6_2b"@ {
        s.splits_stage6_2b
    } else if key == "stage6_2c"@ {
        s.splits_stage6_2c
    } else if key == "stage6_3"@ {
        s.splits_stage6_3
    } else if key == "Music_Level07!BOSS"@ {
        s.splits_music_level07_boss
    } else if key == "stage7_1"@ {
        s.splits_stage7_1
    } else if key == "stage8_1"@ {
        s.splits_stage8_1
    } else if key == "stage8_2"@ {
        s.splits_stage8_2
    } else if key == "stage9_1"@ {
        s.splits_stage9_1
    } else if key == "stage9_2"@ {
        s.splits_stage9_2
    } else if key == "stage9_3"@ {
        s.splits_stage9_3
    } else if key == "stage10_1a"@ {
        s.splits_stage10_1a
    } else if key == "stage10_1b"@ {
        s.splits_stage10_1b
    } else if key == "stage10_1c"@ {
        s.splits_stage10_1c
    } else if key == "stage10_3"@ {
        s.splits_stage10_3
    } else if key == "stage11_1"@ {
        s.splits_stage11_1
    } else if key == "stage11_2a"@ {
        s.splits_stage11_2a
    } else if key == "stage11_2b"@ {
        s.splits_stage11_2b
    } else if key == "stage11_3"@ {
        s.splits_stage11_3
    } else if key == "stage12_1"@ {
        s.splits_stage12_1
    } else if key == "stage12_2a"@ {
        s.splits_stage12_2a
    } else if key == "stage12_2b"@ {
        s.splits_stage12_2b
    } else if key == "stage12_2c"@ {
        s.splits_stage12_2c
    } else if key == "stage12_3"@ {
        s.splits_stage12_3
    } else if key == "splits_llenge_01_bossrun_v3"@ {
        s.splits_boss_rush_complete
    } else {
        false
    }
}

/// Look a level-section or music-cue name up among the checkpoint flags.
pub fn get_setting_from_string(key: &str, settings: &Settings) -> (r: bool)
    ensures
        r == spec_setting(*settings, key@),
{
    if str_eq(key, "stage1_1") {
        settings.splits_stage1_1
    } else if str_eq(key, "stage1_2") {
        settings.splits_stage1_2
    } else if str_eq(key, "stage1_3") {
        settings.splits_stage1_3
    } else if str_eq(key, "stage2_1") {
        settings.splits_stage2_1
    } else if str_eq(key, "stage2_2") {
        settings.splits_stage2_2
    } else if str_eq(key, "stage2_3") {
        settings.splits_stage2_3
    } else if str_eq(key, "stage3_1a") {
        settings.splits_stage3_1a
    } else if str_eq(key, "stage3_1b") {
        settings.splits_stage3_1b
    } else if str_eq(key, "stage3_1c") {
        settings.splits_stage3_1c
    } else if str_eq(key, "stage3_2") {
        settings.splits_stage3_2
    } else if str_eq(key, "stage4_1") {
        settings.splits_stage4_1
    } else if str_eq(key, "Music_Level04!BOSS") {
        settings.splits_music_level04_boss
    } else if str_eq(key, "stage4_2") {
        settings.splits_stage4_2
    } else if str_eq(key, "stage5_1") {
        settings.splits_stage5_1
    } else if str_eq(key, "stage5_2") {
        settings.splits_stage5_2
    } else if str_eq(key, "stage5_3") {
        settings.splits_stage5_3
    } else if str_eq(key, "stage6_1") {
        settings.splits_stage6_1
    } else if str_eq(key, "stage6_2a") {
        settings.splits_stage6_2a
    } else if str_eq(key, "stage6_2b") {
        settings.splits_stage6_2b
    } else if str_eq(key, "stage6_2c") {
        settings.splits_stage6_2c
    } else if str_eq(key, "stage6_3") {
        settings.splits_stage6_3
    } else if str_eq(key, "Music_Level07!BOSS") {
        settings.splits_music_level07_boss
    } else if str_eq(key, "stage7_1") {
        settings.splits_stage7_1
    } else if str_eq(key, "stage8_1") {
        settings.splits_stage8_1
    } else if str_eq(key, "stage8_2") {
        settings.splits_stage8_2
    } else if str_eq(key, "stage9_1") {
        settings.splits_stage9_1
    } else if str_eq(key, "stage9_2") {
        settings.splits_stage9_2
    } else if str_eq(key, "stage9_3") {
        settings.splits_stage9_3
    } else if str_eq(key, "stage10_1a") {
        settings.splits_stage10_1a
    } else if str_eq(key, "stage10_1b") {
        settings.splits_stage10_1b
    } else if str_eq(key, "stage10_1c") {
        settings.splits_stage10_1c
    } else if str_eq(key, "stage10_3") {
        settings.splits_stage10_3
    } else if str_eq(key, "stage11_1") {
        settings.splits_stage11_1
    } else if str_eq(key, "stage11_2a") {
        settings.splits_stage11_2a
    } else if str_eq(key, "stage11_2b") {
        settings.splits_stage11_2b
    } else if str_eq(key, "stage11_3") {
        settings.splits_stage11_3
    } else if str_eq(key, "stage12_1") {
        settings.splits_stage12_1
    } else if str_eq(key, "stage12_2a") {
        settings.splits_stage12_2a
    } else if str_eq(key, "stage12_2b") {
        settings.splits_stage12_2b
    } else if str_eq(key, "stage12_2c") {
        settings.splits_stage12_2c
    } else if str_eq(key, "stage12_3") {
        settings.splits_stage12_3
    } else if str_eq(key, "splits_llenge_01_bossrun_v3") {
        settings.splits_boss_rush_complete
    } else {
        false
    }
}

/// The default flag values: the end-of-stage boss checkpoints, the
/// boss-rush triggers and nothing else.
pub open spec fn spec_default_settings() -> Settings {
    Settings {
        splits_boss_rush_new_boss: true,
        splits_boss_rush_complete: true,
        splits_survival: false,
        splits_stage1_1: false,
        splits_stage1_2: false,
        splits_stage1_3: true,
        splits_stage2_1: false,
        splits_stage2_2: false,
        splits_stage2_3: true,
        splits_stage3_1a: false,
        splits_stage3_1b: false,
        splits_stage3_1c: false,
        splits_stage3_2: true,
        splits_stage4_1: false,
        splits_music_level04_boss: false,
        splits_stage4_2: true,
        splits_stage5_1: false,
        splits_stage5_2: false,
        splits_stage5_3: true,
        splits_stage6_1: false,
        splits_stage6_2a: false,
        splits_stage6_2b: false,
        splits_stage6_2c: false,
        splits_stage6_3: true,
        splits_music_level07_boss: false,
        splits_stage7_1: true,
        splits_stage8_1: false,
        splits_stage8_2: true,
        splits_stage9_1: false,
        splits_stage9_2: false,
        splits_stage9_3: true,
        splits_stage10_1a: false,
        splits_stage10_1b: false,
        splits_stage10_1c: false,
        splits_stage10_3: true,
        splits_stage11_1: false,
        splits_stage11_2a: false,
        splits_stage11_2b: false,
        splits_stage11_3: true,
        splits_stage12_1: false,
        splits_stage12_2a: false,
        splits_stage12_2b: false,
        splits_stage12_2c: false,
        splits_stage12_3: true,
    }
}

/// Every flag switched off; a convenient base for picking single
/// checkpoints.
pub open spec fn spec_no_settings() -> Settings {
    Settings {
        splits_boss_rush_new_boss: false,
        splits_boss_rush_complete: false,
        splits_survival: false,
        splits_stage1_1: false,
        splits_stage1_2: false,
        splits_stage1_3: false,
        splits_stage2_1: false,
        splits_stage2_2: false,
        splits_stage2_3: false,
        splits_stage3_1a: false,
        splits_stage3_1b: false,
        splits_stage3_1c: false,
        splits_stage3_2: false,
        splits_stage4_1: false,
        splits_music_level04_boss: false,
        splits_stage4_2: false,
        splits_stage5_1: false,
        splits_stage5_2: false,
        splits_stage5_3: false,
        splits_stage6_1: false,
        splits_stage6_2a: false,
        splits_stage6_2b: false,
        splits_stage6_2c: false,
        splits_stage6_3: false,
        splits_music_level07_boss: false,
        splits_stage7_1: false,
        splits_stage8_1: false,
        splits_stage8_2: false,
        splits_stage9_1: false,
        splits_stage9_2: false,
        splits_stage9_3: false,
        splits_stage10_1a: false,
        splits_stage10_1b: false,
        splits_stage10_1c: false,
        splits_stage10_3: false,
        splits_stage11_1: false,
        splits_stage11_2a: false,
        splits_stage11_2b: false,
        splits_stage11_3: false,
        splits_stage12_1: false,
        splits_stage12_2a: false,
        splits_stage12_2b: false,
        splits_stage12_2c: false,
        splits_stage12_3: false,
    }
}

impl Settings {
    /// Every flag switched off.
    pub fn all_disabled() -> (r: Self)
        ensures
            r == spec_no_settings(),
    {
        Settings {
            splits_boss_rush_new_boss: false,
            splits_boss_rush_complete: false,
            splits_survival: false,
            splits_stage1_1: false,
            splits_stage1_2: false,
            splits_stage1_3: false,
            splits_stage2_1: false,
            splits_stage2_2: false,
            splits_stage2_3: false,
            splits_stage3_1a: false,
            splits_stage3_1b: false,
            splits_stage3_1c: false,
            splits_stage3_2: false,
            splits_stage4_1: false,
            splits_music_level04_boss: false,
            splits_stage4_2: false,
            splits_stage5_1: false,
            splits_stage5_2: false,
            splits_stage5_3: false,
            splits_stage6_1: false,
            splits_stage6_2a: false,
            splits_stage6_2b: false,
            splits_stage6_2c: false,
            splits_stage6_3: false,
            splits_music_level07_boss: false,
            splits_stage7_1: false,
            splits_stage8_1: false,
            splits_stage8_2: false,
            splits_stage9_1: false,
            splits_stage9_2: false,
            splits_stage9_3: false,
            splits_stage10_1a: false,
            splits_stage10_1b: false,
            splits_stage10_1c: false,
            splits_stage10_3: false,
            splits_stage11_1: false,
            splits_stage11_2a: false,
            splits_stage11_2b: false,
            splits_stage11_3: false,
            splits_stage12_1: false,
            splits_stage12_2a: false,
            splits_stage12_2b: false,
            splits_stage12_2c: false,
            splits_stage12_3: false,
        }
    }
}

impl Default for Settings {
    /// The shipped defaults.
    fn default() -> (r: Self)
        ensures
            r == spec_default_settings(),
    {
        Settings {
            splits_boss_rush_new_boss: true,
            splits_boss_rush_complete: true,
            splits_survival: false,
            splits_stage1_1: false,
            splits_stage1_2: false,
            splits_stage1_3: true,
            splits_stage2_1: false,
            splits_stage2_2: false,
            splits_stage2_3: true,
            splits_stage3_1a: false,
            splits_stage3_1b: false,
            splits_stage3_1c: false,
            splits_stage3_2: true,
            splits_stage4_1: false,
            splits_music_level04_boss: false,
            splits_stage4_2: true,
            splits_stage5_1: false,
            splits_stage5_2: false,
            splits_stage5_3: true,
            splits_stage6_1: false,
            splits_stage6_2a: false,
            splits_stage6_2b: false,
            splits_stage6_2c: false,
            splits_stage6_3: true,
            splits_music_level07_boss: false,
            splits_stage7_1: true,
            splits_stage8_1: false,
            splits_stage8_2: true,
            splits_stage9_1: false,
            splits_stage9_2: false,
            splits_stage9_3: true,
            splits_stage10_1a: false,
            splits_stage10_1b: false,
            splits_stage10_1c: false,
            splits_stage10_3: true,
            splits_stage11_1: false,
            splits_stage11_2a: false,
            splits_stage11_2b: false,
            splits_stage11_3: true,
            splits_stage12_1: false,
            splits_stage12_2a: false,
            splits_stage12_2b: false,
            splits_stage12_2c: false,
            splits_stage12_3: true,
        }
    }
}

} // verus!
