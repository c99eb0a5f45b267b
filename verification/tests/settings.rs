use sor4_splitter::settings::{get_setting_from_string, Settings};

#[test]
fn lookup_finds_stage_keys() {
    let mut s = Settings::all_disabled();
    s.splits_stage1_1 = true;
    s.splits_stage12_3 = true;
    assert!(get_setting_from_string("stage1_1", &s));
    assert!(get_setting_from_string("stage12_3", &s));
    assert!(!get_setting_from_string("stage1_2", &s));
    assert!(!get_setting_from_string("stage10_1c", &s));
}

#[test]
fn lookup_finds_music_keys() {
    let mut s = Settings::all_disabled();
    s.splits_music_level04_boss = true;
    assert!(get_setting_from_string("Music_Level04!BOSS", &s));
    assert!(!get_setting_from_string("Music_Level07!BOSS", &s));
    s.splits_music_level07_boss = true;
    assert!(get_setting_from_string("Music_Level07!BOSS", &s));
}

#[test]
fn lookup_maps_the_boss_run_level_to_boss_rush_complete() {
    let mut s = Settings::all_disabled();
    s.splits_boss_rush_complete = true;
    assert!(get_setting_from_string("splits_llenge_01_bossrun_v3", &s));
    s.splits_boss_rush_complete = false;
    assert!(!get_setting_from_string("splits_llenge_01_bossrun_v3", &s));
}

#[test]
fn lookup_rejects_unknown_keys() {
    let s = Settings::default();
    assert!(!get_setting_from_string("", &s));
    assert!(!get_setting_from_string("training", &s));
    assert!(!get_setting_from_string("stage13_1", &s));
    assert!(!get_setting_from_string("survival", &s));
}

#[test]
fn shipped_defaults_enable_the_boss_checkpoints() {
    let s = Settings::default();
    assert!(s.splits_boss_rush_new_boss);
    assert!(s.splits_boss_rush_complete);
    assert!(!s.splits_survival);
    assert!(!s.splits_stage1_1);
    assert!(s.splits_stage1_3);
    assert!(s.splits_stage2_3);
    assert!(s.splits_stage3_2);
    assert!(s.splits_stage4_2);
    assert!(s.splits_stage5_3);
    assert!(s.splits_stage6_3);
    assert!(s.splits_stage7_1);
    assert!(s.splits_stage8_2);
    assert!(s.splits_stage9_3);
    assert!(s.splits_stage10_3);
    assert!(s.splits_stage11_3);
    assert!(s.splits_stage12_3);
    assert!(!s.splits_stage12_2c);
}
