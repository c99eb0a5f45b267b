use sor4_splitter::gametime::GameTime;

// All values are frame counts at sixty frames per second, so 7200 frames
// stand for two minutes of elapsed time.

#[test]
fn estimator_accepts_small_forward_step() {
    let mut igt = GameTime::new();
    igt.calculate_game_time(7200, 0);
    assert_eq!(igt.frames, 7200);
    // one second forward: believable
    igt.calculate_game_time(7260, 0);
    assert_eq!(igt.frames, 7260);
}

#[test]
fn estimator_rejects_backward_jump() {
    let mut igt = GameTime::new();
    igt.calculate_game_time(7200, 0);
    // forty seconds backwards: garbage, keep the stored value
    igt.calculate_game_time(4800, 0);
    assert_eq!(igt.frames, 7200);
}

#[test]
fn estimator_rejects_large_forward_jump() {
    let mut igt = GameTime::new();
    igt.calculate_game_time(7200, 0);
    // fifteen seconds forward in one tick: garbage, keep the stored value
    igt.calculate_game_time(8100, 0);
    assert_eq!(igt.frames, 7200);
}

#[test]
fn estimator_always_accepts_zero() {
    let mut igt = GameTime::new();
    igt.calculate_game_time(7200, 0);
    igt.calculate_game_time(0, 0);
    assert_eq!(igt.frames, 0);
}

#[test]
fn estimator_fills_in_a_cleared_value() {
    let mut igt = GameTime::new();
    assert_eq!(igt.frames, 0);
    // from zero, any forward value is accepted
    igt.calculate_game_time(9000, 0);
    assert_eq!(igt.frames, 9000);
}

#[test]
fn estimator_sums_both_counters() {
    let mut igt = GameTime::new();
    igt.calculate_game_time(100, 7100);
    assert_eq!(igt.frames, 7200);
    igt.calculate_game_time(160, 7100);
    assert_eq!(igt.frames, 7260);
}

#[test]
fn estimator_boundary_of_the_forward_window() {
    let mut igt = GameTime::new();
    igt.calculate_game_time(7200, 0);
    // exactly ten seconds ahead is already implausible
    igt.calculate_game_time(7800, 0);
    assert_eq!(igt.frames, 7200);
    // just under ten seconds ahead is accepted
    igt.calculate_game_time(7799, 0);
    assert_eq!(igt.frames, 7799);
}
