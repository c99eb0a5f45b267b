use sor4_splitter::settings::Settings;
use sor4_splitter::{GameMode, SampledValues, State, Version};

fn wide(s: &str) -> Vec<u16> {
    let mut v: Vec<u16> = s.encode_utf16().collect();
    v.push(0);
    v
}

fn no_reads() -> SampledValues {
    SampledValues {
        submenus_open: None,
        current_section_frames: None,
        accum_frames: None,
        accum_frames_survival: None,
        current_lvl: None,
        current_music: None,
    }
}

fn attached_state(settings: Settings) -> State {
    let mut state = State::new();
    state.startup(settings);
    state.init(0x1657000);
    state
}

#[test]
fn run_start_fires_once_per_transition() {
    let mut state = attached_state(Settings::all_disabled());
    let mut running = false;
    let mut starts = 0;
    let mut started_at: Option<usize> = None;
    for (i, frames) in [0, 0, 30, 45, 90].into_iter().enumerate() {
        let mut sample = no_reads();
        sample.current_section_frames = Some(frames);
        sample.current_lvl = Some(wide("stage1_1"));
        let acts = state.update(&sample, running);
        if acts.start {
            starts += 1;
            started_at = Some(i);
            running = true;
        }
    }
    assert_eq!(starts, 1);
    assert_eq!(started_at, Some(2));
}

#[test]
fn run_start_window_is_zero_to_sixty_exclusive() {
    for (frames, expected) in [(1, true), (59, true), (60, false), (0, false)] {
        let mut state = attached_state(Settings::all_disabled());
        let mut sample = no_reads();
        sample.current_section_frames = Some(frames);
        sample.current_lvl = Some(wide("stage1_1"));
        let acts = state.update(&sample, false);
        assert_eq!(acts.start, expected, "section frames {frames}");
    }
}

#[test]
fn run_start_needs_a_named_level() {
    let mut state = attached_state(Settings::all_disabled());
    let mut sample = no_reads();
    sample.current_section_frames = Some(30);
    let acts = state.update(&sample, false);
    assert!(!acts.start);
}

#[test]
fn run_start_skips_the_training_room() {
    let mut state = attached_state(Settings::all_disabled());
    let mut sample = no_reads();
    sample.current_section_frames = Some(30);
    sample.current_lvl = Some(wide("training"));
    let acts = state.update(&sample, false);
    assert!(!acts.start);
}

#[test]
fn run_start_resets_time_and_mode() {
    let mut state = attached_state(Settings::default());
    assert_eq!(state.version, Version::V08SR14424);
    let mut sample = no_reads();
    sample.current_section_frames = Some(45);
    sample.accum_frames = Some(0);
    sample.current_lvl = Some(wide("stage4_2"));
    let acts = state.update(&sample, false);
    assert!(acts.start);
    assert!(!acts.reset);
    assert!(!acts.split);
    assert_eq!(state.game_mode, GameMode::Normal);
    // cleared at the start, then filled from this poll's counters
    assert_eq!(state.igt.frames, 45);
    assert_eq!(acts.set_game_time_frames, None);

    // the host's timer now runs; the same counters fire nothing further
    let mut again = no_reads();
    again.current_section_frames = Some(45);
    again.accum_frames = Some(0);
    again.current_lvl = Some(wide("stage4_2"));
    let acts2 = state.update(&again, true);
    assert!(!acts2.start);
    assert_eq!(acts2.set_game_time_frames, Some(45));
}

#[test]
fn reset_fires_only_on_two_to_zero() {
    let mut state = attached_state(Settings::all_disabled());
    let mut resets = 0;
    let mut reset_at: Option<usize> = None;
    for (i, submenus) in [1, 0, 2, 0].into_iter().enumerate() {
        let mut sample = no_reads();
        sample.submenus_open = Some(submenus);
        let acts = state.update(&sample, true);
        if acts.reset {
            resets += 1;
            reset_at = Some(i);
            assert_eq!(acts.set_game_time_frames, Some(0));
        }
    }
    assert_eq!(resets, 1);
    assert_eq!(reset_at, Some(3));
    assert_eq!(state.igt.frames, 0);
}

#[test]
fn section_split_is_suppressed_on_repeat() {
    let mut settings = Settings::all_disabled();
    settings.splits_stage1_1 = true;
    let mut state = attached_state(settings);

    // fill previous and current level name without starting a run
    for _ in 0..2 {
        let mut sample = no_reads();
        sample.current_lvl = Some(wide("stage1_1"));
        let acts = state.update(&sample, true);
        assert!(!acts.split);
    }

    // first increase of the accumulated counter: the checkpoint fires
    let mut sample = no_reads();
    sample.current_lvl = Some(wide("stage1_1"));
    sample.accum_frames = Some(100);
    let acts = state.update(&sample, true);
    assert!(acts.split);
    assert_eq!(state.last_split_key, "stage1_1");

    // second increase, same level: the cursor suppresses it
    let mut again = no_reads();
    again.current_lvl = Some(wide("stage1_1"));
    again.accum_frames = Some(200);
    let acts2 = state.update(&again, true);
    assert!(!acts2.split);
}

#[test]
fn music_cue_split_fires_on_change_only() {
    let mut settings = Settings::all_disabled();
    settings.splits_music_level04_boss = true;
    let mut state = attached_state(settings);

    let mut sample = no_reads();
    sample.current_music = Some(wide("Music_Level04!BOSS"));
    let acts = state.update(&sample, true);
    assert!(acts.split);
    assert_eq!(state.last_split_key, "Music_Level04!BOSS");

    // the cue keeps playing: no change, no second split
    let mut again = no_reads();
    again.current_music = Some(wide("Music_Level04!BOSS"));
    let acts2 = state.update(&again, true);
    assert!(!acts2.split);
}

#[test]
fn boss_rush_music_splits_without_its_own_checkpoint() {
    let mut settings = Settings::all_disabled();
    settings.splits_boss_rush_new_boss = true;
    let mut state = attached_state(settings);

    let mut sample = no_reads();
    sample.current_music = Some(wide("Music_BossRush!B02_SomeBoss"));
    let acts = state.update(&sample, true);
    assert!(acts.split);
    assert_eq!(state.last_split_key, "Music_BossRush!B02_SomeBoss");
}

#[test]
fn boss_rush_intro_track_never_splits() {
    for flag in [false, true] {
        let mut settings = Settings::all_disabled();
        settings.splits_boss_rush_new_boss = flag;
        let mut state = attached_state(settings);

        let mut sample = no_reads();
        sample.current_music = Some(wide("Music_BossRush!A00_Diva"));
        let acts = state.update(&sample, true);
        assert!(!acts.split);
    }
}

#[test]
fn survival_splits_on_every_advance() {
    let mut settings = Settings::all_disabled();
    settings.splits_survival = true;
    let mut state = attached_state(settings);

    // a survival run starts: the level name names neither stage nor boss
    let mut sample = no_reads();
    sample.current_section_frames = Some(30);
    sample.current_lvl = Some(wide("survival_arena01"));
    let acts = state.update(&sample, false);
    assert!(acts.start);
    assert_eq!(state.game_mode, GameMode::Survival);

    // each completed survival level bumps the survival counter
    let mut first = no_reads();
    first.accum_frames_survival = Some(1000);
    let acts1 = state.update(&first, true);
    assert!(acts1.split);
    let mut second = no_reads();
    second.accum_frames_survival = Some(2000);
    let acts2 = state.update(&second, true);
    assert!(acts2.split);
}

#[test]
fn survival_time_sums_the_survival_counter() {
    let mut state = attached_state(Settings::all_disabled());
    let mut sample = no_reads();
    sample.current_section_frames = Some(30);
    sample.current_lvl = Some(wide("survival_arena01"));
    sample.accum_frames = Some(9999);
    sample.accum_frames_survival = Some(570);
    let acts = state.update(&sample, false);
    assert!(acts.start);
    assert_eq!(state.game_mode, GameMode::Survival);
    assert_eq!(state.igt.frames, 600);
}

#[test]
fn failed_reads_leave_every_quantity_as_it_was() {
    let mut state = attached_state(Settings::all_disabled());
    let sample = SampledValues {
        submenus_open: Some(3),
        current_section_frames: Some(70),
        accum_frames: Some(20),
        accum_frames_survival: Some(5),
        current_lvl: Some(wide("stage2_1")),
        current_music: Some(wide("Music_Level02!A")),
    };
    state.update(&sample, true);
    let acts = state.update(&no_reads(), true);
    assert!(!acts.start && !acts.reset && !acts.split);
    assert_eq!(state.values.submenus_open.previous, 0);
    assert_eq!(state.values.submenus_open.current, 3);
    assert_eq!(state.values.current_section_frames.current, 70);
    assert_eq!(state.values.accum_frames.current, 20);
    assert_eq!(state.values.accum_frames_survival.current, 5);
    assert_eq!(state.values.current_lvl.current, "stage2_1");
    assert_eq!(state.values.current_music.current, "Music_Level02!A");
}

#[test]
fn boss_rush_splits_again_on_the_next_track() {
    let mut settings = Settings::all_disabled();
    settings.splits_boss_rush_new_boss = true;
    let mut state = attached_state(settings);

    let mut first = no_reads();
    first.current_music = Some(wide("Music_BossRush!B02_SomeBoss"));
    assert!(state.update(&first, true).split);

    // the same track keeps playing: nothing fires
    let mut same = no_reads();
    same.current_music = Some(wide("Music_BossRush!B02_SomeBoss"));
    assert!(!state.update(&same, true).split);

    // the next boss brings a new track: fire again
    let mut next = no_reads();
    next.current_music = Some(wide("Music_BossRush!B03_OtherBoss"));
    assert!(state.update(&next, true).split);
}

#[test]
fn session_rearms_after_detach() {
    let mut state = attached_state(Settings::all_disabled());
    let mut sample = no_reads();
    sample.submenus_open = Some(7);
    sample.current_lvl = Some(wide("stage3_2"));
    state.update(&sample, true);
    state.detach();
    assert!(!state.attached);
    assert_eq!(state.values.submenus_open.current, 0);
    assert_eq!(state.values.current_lvl.current, "");

    state.init(0x1638000);
    assert!(state.attached);
    assert_eq!(state.version, Version::V07SR13648);
    assert_eq!(state.igt.frames, 0);
    assert_eq!(state.last_split_key, "");
}

#[test]
fn polling_without_a_configuration_never_splits() {
    let mut state = State::new();
    state.init(0x1657000);
    let mut settingsless = no_reads();
    settingsless.current_music = Some(wide("Music_BossRush!B02_SomeBoss"));
    let acts = state.update(&settingsless, true);
    assert!(!acts.split);
}
