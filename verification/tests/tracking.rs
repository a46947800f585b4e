use pizza_tower_splitter::pair::Pair;
use pizza_tower_splitter::rooms_ids::Level;
use pizza_tower_splitter::settings::{Settings, TimerMode};
use pizza_tower_splitter::tracker::{evaluate_tick, RunState, TickInput, TimerIntent, TimerPhase};

fn held<T: Copy>(v: T) -> Pair<T> {
    Pair { previous: v, current: v }
}

fn names(previous: &str, current: &str) -> Pair<String> {
    Pair { previous: String::from(previous), current: String::from(current) }
}

fn quiet_input() -> TickInput {
    TickInput {
        room_id: held(0),
        room_name: names("somewhere", "somewhere"),
        file_minutes: held(0),
        file_seconds_ms: held(0),
        level_minutes: held(0),
        level_seconds_ms: held(0),
        end_of_level: held(false),
        boss_hp: held(0),
        timer_phase: TimerPhase::Running,
    }
}

fn splits(intents: &[TimerIntent]) -> usize {
    intents.iter().filter(|x| matches!(x, TimerIntent::Split)).count()
}

fn has_start(intents: &[TimerIntent]) -> bool {
    intents.iter().any(|x| matches!(x, TimerIntent::Start))
}

fn has_reset(intents: &[TimerIntent]) -> bool {
    intents.iter().any(|x| matches!(x, TimerIntent::Reset))
}

fn game_time_of(intents: &[TimerIntent]) -> i64 {
    match intents.last() {
        Some(TimerIntent::SetGameTime(ms)) => *ms,
        other => panic!("expected a SetGameTime intent last, found {:?}", other),
    }
}

fn room_split_settings() -> Settings {
    let mut s = Settings::default();
    s.timer_mode = TimerMode::IL;
    s.load_default_settings_for_mode();
    s
}

fn room_split_state(level: Level, sequence: Vec<i32>) -> RunState {
    let mut state = RunState::initial();
    state.current_level = level;
    state.set_level_sequence(sequence);
    state
}

#[test]
fn positional_split_example() {
    // Sequence [10, 11, 12]: the change 10 -> 11 splits and advances to
    // index 1; the change 11 -> 99 is not the entry at index 2, so no split.
    let config = room_split_settings();
    let mut state = room_split_state(Level::F1JohnGutter, vec![10, 11, 12]);
    let mut input = quiet_input();
    input.room_id = Pair { previous: 10, current: 11 };
    input.level_seconds_ms = Pair { previous: 100, current: 200 };
    let intents = evaluate_tick(&mut state, &config, &input);
    assert_eq!(splits(&intents), 1);
    assert_eq!(state.room_index, 1);

    input.room_id = Pair { previous: 11, current: 99 };
    input.level_seconds_ms = Pair { previous: 200, current: 300 };
    let intents = evaluate_tick(&mut state, &config, &input);
    assert_eq!(splits(&intents), 0);
    assert_eq!(state.room_index, 1);
}

#[test]
fn positional_split_handles_repeats() {
    // Sequence [A, B, A, C] with the stream A, A, B, A, C: exactly the
    // transitions to B and to C split; the repeated leading A does not, and
    // the bounce back to A is jitter-blocked while its position advances.
    let a = 1;
    let b = 2;
    let c = 3;
    let config = room_split_settings();
    let mut state = room_split_state(Level::F1Pizzascape, vec![a, b, a, c]);
    let mut input = quiet_input();

    input.room_id = Pair { previous: a, current: a };
    input.level_seconds_ms = Pair { previous: 100, current: 200 };
    assert_eq!(splits(&evaluate_tick(&mut state, &config, &input)), 0);
    assert_eq!(state.room_index, 0);

    input.room_id = Pair { previous: a, current: b };
    input.level_seconds_ms = Pair { previous: 200, current: 300 };
    assert_eq!(splits(&evaluate_tick(&mut state, &config, &input)), 1);
    assert_eq!(state.room_index, 1);

    input.room_id = Pair { previous: b, current: a };
    input.level_seconds_ms = Pair { previous: 300, current: 400 };
    assert_eq!(splits(&evaluate_tick(&mut state, &config, &input)), 0);
    assert_eq!(state.room_index, 2);

    input.room_id = Pair { previous: a, current: c };
    input.level_seconds_ms = Pair { previous: 400, current: 500 };
    assert_eq!(splits(&evaluate_tick(&mut state, &config, &input)), 1);
    assert_eq!(state.room_index, 3);
}

#[test]
fn anti_jitter_blocks_and_expires() {
    // A split at t0 records the entered room; bouncing back within three
    // seconds does not split, a later advance past three seconds does.
    let config = room_split_settings();
    let mut state = room_split_state(Level::F1AncientCheese, vec![1, 2, 1, 3]);
    let mut input = quiet_input();

    // t0 = 1s: split into room 2.
    input.room_id = Pair { previous: 1, current: 2 };
    input.level_seconds_ms = Pair { previous: 900, current: 1000 };
    assert_eq!(splits(&evaluate_tick(&mut state, &config, &input)), 1);
    assert_eq!(state.last_split_room, Some(2));
    assert_eq!(state.last_split_time_ms, 1000);

    // t0 + 1s: back into room 1, leaving the just-entered room 2: blocked.
    input.room_id = Pair { previous: 2, current: 1 };
    input.level_seconds_ms = Pair { previous: 1000, current: 2000 };
    assert_eq!(splits(&evaluate_tick(&mut state, &config, &input)), 0);

    // t0 + 4s: the guard has expired; the next advance splits.
    input.room_id = Pair { previous: 1, current: 3 };
    input.level_seconds_ms = Pair { previous: 2000, current: 5000 };
    assert_eq!(splits(&evaluate_tick(&mut state, &config, &input)), 1);
}

#[test]
fn secret_rooms_do_not_advance_split() {
    // The same positional advance splits with ordinary names and is
    // suppressed when either endpoint of the name transition is secret.
    let config = room_split_settings();

    let mut state = room_split_state(Level::F1JohnGutter, vec![10, 11]);
    let mut input = quiet_input();
    input.room_name = names("entrance_1", "entrance_2");
    input.room_id = Pair { previous: 10, current: 11 };
    input.level_seconds_ms = Pair { previous: 100, current: 200 };
    assert_eq!(splits(&evaluate_tick(&mut state, &config, &input)), 1);

    let mut state = room_split_state(Level::F1JohnGutter, vec![10, 11]);
    input.room_name = names("entrance_1", "entrance_secret2");
    assert_eq!(splits(&evaluate_tick(&mut state, &config, &input)), 0);
    // The position still advanced; the split alone was withheld.
    assert_eq!(state.room_index, 1);

    let mut state = room_split_state(Level::SecretsOfTheWorld, vec![10, 11]);
    input.room_name = names("secret_1", "secret_2");
    assert_eq!(splits(&evaluate_tick(&mut state, &config, &input)), 0);
}

#[test]
fn at_most_one_split_per_tick() {
    // A positional advance and an end-of-level drop in the same tick still
    // yield exactly one split intent.
    let config = room_split_settings();
    let mut state = room_split_state(Level::F2FunFarm, vec![10, 11]);
    let mut input = quiet_input();
    input.room_id = Pair { previous: 10, current: 11 };
    input.end_of_level = Pair { previous: true, current: false };
    input.level_seconds_ms = Pair { previous: 1400, current: 1500 };
    let intents = evaluate_tick(&mut state, &config, &input);
    assert_eq!(splits(&intents), 1);
}

#[test]
fn restart_reset_example() {
    // The level timer's seconds drop from 50ms to 20ms in the first minute
    // with a zero score while the stopwatch runs: a reset, and a start too
    // since the level is not the hub.
    let mut config = Settings::default();
    config.timer_mode = TimerMode::IL;
    config.load_default_settings_for_mode();
    let mut state = RunState::initial();
    state.current_level = Level::F1JohnGutter;
    let mut input = quiet_input();
    input.room_name = names("entrance_3", "entrance_3");
    input.level_seconds_ms = Pair { previous: 50, current: 20 };
    let intents = evaluate_tick(&mut state, &config, &input);
    assert!(has_reset(&intents));
    assert!(has_start(&intents));

    // The same drop inside the hub resets without starting.
    let mut state = RunState::initial();
    state.current_level = Level::Hub;
    input.room_name = names("tower_1", "tower_1");
    let intents = evaluate_tick(&mut state, &config, &input);
    assert!(has_reset(&intents));
    assert!(!has_start(&intents));
}

#[test]
fn restart_reset_needs_running_stopwatch_and_zero_score() {
    let config = room_split_settings();
    let mut state = RunState::initial();
    state.current_level = Level::F1JohnGutter;
    let mut input = quiet_input();
    input.room_name = names("entrance_3", "entrance_3");
    input.level_seconds_ms = Pair { previous: 50, current: 20 };
    input.timer_phase = TimerPhase::NotRunning;
    assert!(!has_reset(&evaluate_tick(&mut state, &config, &input)));

    input.timer_phase = TimerPhase::Running;
    input.boss_hp = held(3);
    assert!(!has_reset(&evaluate_tick(&mut state, &config, &input)));
}

#[test]
fn full_game_split_arms_and_fires_once() {
    let config = Settings::default();
    let mut state = RunState::initial();
    state.current_level = Level::F1JohnGutter;
    let mut input = quiet_input();

    // Leaving the level before its key room was reached does not split.
    input.room_name = names("entrance_1", "tower_1");
    assert_eq!(splits(&evaluate_tick(&mut state, &config, &input)), 0);
    assert_eq!(state.current_level, Level::Hub);

    // Reach the key room, then leave through the level's exit room.
    let mut state = RunState::initial();
    state.current_level = Level::F1JohnGutter;
    input.room_name = names("entrance_9", "entrance_10");
    assert_eq!(splits(&evaluate_tick(&mut state, &config, &input)), 0);
    assert!(state.full_game_split_armed);

    input.room_name = names("entrance_10", "entrance_1");
    assert_eq!(splits(&evaluate_tick(&mut state, &config, &input)), 0);

    input.room_name = names("entrance_1", "tower_1");
    assert_eq!(splits(&evaluate_tick(&mut state, &config, &input)), 1);
    // The split disarmed itself: leaving again does not split.
    assert!(!state.full_game_split_armed);
}

#[test]
fn final_hallway_splits_once_per_run() {
    let config = Settings::default();
    let mut state = RunState::initial();
    state.current_level = Level::Hub;
    let mut input = quiet_input();
    input.room_name = names("tower_5", "tower_finalhallway");
    assert_eq!(splits(&evaluate_tick(&mut state, &config, &input)), 1);
    assert!(state.ctop_oob_split_done);

    // The same transition again in the same run stays silent.
    let mut again = quiet_input();
    again.room_name = names("tower_5", "tower_finalhallway");
    assert_eq!(splits(&evaluate_tick(&mut state, &config, &again)), 0);
}

#[test]
fn end_of_run_frame_split() {
    let config = Settings::default();
    let mut state = RunState::initial();
    state.current_level = Level::Hub;
    let mut input = quiet_input();
    input.room_name = names("tower_entrancehall", "tower_entrancehall");
    input.end_of_level = Pair { previous: false, current: true };
    assert_eq!(splits(&evaluate_tick(&mut state, &config, &input)), 1);
}

#[test]
fn start_rules() {
    // A new file: the intro hands over to the tower entrance hall.
    let config = Settings::default();
    let mut state = RunState::initial();
    let mut input = quiet_input();
    input.room_name = names("Finalintro", "tower_entrancehall");
    assert!(has_start(&evaluate_tick(&mut state, &config, &input)));

    // An individual level start: the level's starting room with a level
    // timer freshly past its first frames.
    let config = room_split_settings();
    let mut state = RunState::initial();
    state.current_level = Level::F1JohnGutter;
    let mut input = quiet_input();
    input.room_name = names("entrance_1", "entrance_1");
    input.level_seconds_ms = Pair { previous: 40, current: 80 };
    assert!(has_start(&evaluate_tick(&mut state, &config, &input)));

    // Too late into the level: no start.
    input.level_seconds_ms = Pair { previous: 80, current: 150 };
    assert!(!has_start(&evaluate_tick(&mut state, &config, &input)));
}

#[test]
fn reset_rules() {
    // Opening a new file resets.
    let config = Settings::default();
    let mut state = RunState::initial();
    let mut input = quiet_input();
    input.room_name = names("tower_entrancehall", "Finalintro");
    assert!(has_reset(&evaluate_tick(&mut state, &config, &input)));

    // Entering the loading screen while the stopwatch runs resets, in the
    // modes that enable it.
    let mut config = Settings::default();
    config.timer_mode = TimerMode::NewGamePlus;
    config.load_default_settings_for_mode();
    let mut state = RunState::initial();
    input.room_name = names("tower_1", "hub_loadingscreen");
    input.timer_phase = TimerPhase::Running;
    assert!(has_reset(&evaluate_tick(&mut state, &config, &input)));
    input.timer_phase = TimerPhase::NotRunning;
    let mut state = RunState::initial();
    assert!(!has_reset(&evaluate_tick(&mut state, &config, &input)));
}

#[test]
fn game_time_by_mode() {
    let mut input = quiet_input();
    input.file_minutes = held(2);
    input.file_seconds_ms = held(10_000);
    input.level_minutes = held(0);
    input.level_seconds_ms = held(5_000);

    let mut config = Settings::default();
    config.timer_mode = TimerMode::FullGame;
    let mut state = RunState::initial();
    assert_eq!(game_time_of(&evaluate_tick(&mut state, &config, &input)), 130_000);

    config.timer_mode = TimerMode::IL;
    let mut state = RunState::initial();
    assert_eq!(game_time_of(&evaluate_tick(&mut state, &config, &input)), 5_000);
}

#[test]
fn ng_plus_offset_idempotent_across_crossings() {
    // Crossing the qualifying window once and crossing it twice publish the
    // same adjusted game time for identical raw readings.
    let mut config = Settings::default();
    config.timer_mode = TimerMode::NewGamePlus;
    config.load_default_settings_for_mode();

    let mut enter = quiet_input();
    enter.timer_phase = TimerPhase::NotRunning;
    enter.room_name = names("hub_loadingscreen", "tower_entrancehall");
    enter.file_minutes = held(90);
    enter.file_seconds_ms = held(30_000);
    enter.level_seconds_ms = held(500);

    let mut leave = quiet_input();
    leave.timer_phase = TimerPhase::NotRunning;
    leave.room_name = names("tower_entrancehall", "hub_loadingscreen");
    leave.file_minutes = held(90);
    leave.file_seconds_ms = held(35_000);
    leave.level_seconds_ms = held(600);

    // One crossing.
    let mut once = RunState::initial();
    let t_once = game_time_of(&evaluate_tick(&mut once, &config, &enter));
    assert_eq!(t_once, 0);
    assert_eq!(once.ng_plus_offset_ms, Some(90 * 60_000 + 30_000));

    // Two crossings with identical raw readings.
    let mut twice = RunState::initial();
    evaluate_tick(&mut twice, &config, &enter);
    evaluate_tick(&mut twice, &config, &leave);
    assert_eq!(twice.ng_plus_offset_ms, None);
    let t_twice = game_time_of(&evaluate_tick(&mut twice, &config, &enter));
    assert_eq!(t_twice, t_once);
    assert_eq!(twice.ng_plus_offset_ms, once.ng_plus_offset_ms);
}

#[test]
fn iw_offset_follows_the_hub() {
    let mut config = Settings::default();
    config.timer_mode = TimerMode::IW;
    config.load_default_settings_for_mode();

    let mut state = RunState::initial();
    let mut input = quiet_input();
    input.timer_phase = TimerPhase::NotRunning;
    input.room_name = names("hub_loadingscreen", "tower_1");
    input.file_minutes = held(10);
    input.file_seconds_ms = held(0);
    evaluate_tick(&mut state, &config, &input);
    assert_eq!(state.current_level, Level::Hub);
    assert_eq!(state.iw_offset_ms, Some(600_000));

    // Leaving the hub clears the baseline again.
    input.room_name = names("tower_1", "entrance_1");
    evaluate_tick(&mut state, &config, &input);
    assert_eq!(state.iw_offset_ms, None);
}

#[test]
fn game_time_published_every_tick_in_fallback() {
    // Even when no timer block was resolved and every timer reading holds at
    // its startup value, each tick still publishes a game time, and the
    // published value never decreases.
    let config = Settings::default();
    let mut state = RunState::initial();
    let input = quiet_input();
    let mut last: i64 = 0;
    for _ in 0..5 {
        let intents = evaluate_tick(&mut state, &config, &input);
        let t = game_time_of(&intents);
        assert!(t >= last);
        last = t;
    }
}

#[test]
fn exhausted_sequence_is_inert() {
    let config = room_split_settings();
    let mut state = room_split_state(Level::F3Golf, vec![7, 8]);
    let mut input = quiet_input();
    input.room_id = Pair { previous: 7, current: 8 };
    input.level_seconds_ms = Pair { previous: 100, current: 200 };
    assert_eq!(splits(&evaluate_tick(&mut state, &config, &input)), 1);
    assert_eq!(state.room_index, 1);

    // The sequence has no further entry: later room changes do nothing.
    input.room_id = Pair { previous: 8, current: 9 };
    input.level_seconds_ms = Pair { previous: 200, current: 5300 };
    assert_eq!(splits(&evaluate_tick(&mut state, &config, &input)), 0);
    assert_eq!(state.room_index, 1);
}

#[test]
fn level_change_rewinds_sequence_position() {
    let config = room_split_settings();
    let mut state = room_split_state(Level::F1JohnGutter, vec![10, 11, 12]);
    state.room_index = 2;
    let mut input = quiet_input();
    input.room_name = names("entrance_10", "tower_1");
    evaluate_tick(&mut state, &config, &input);
    assert_eq!(state.current_level, Level::Hub);
    assert_eq!(state.room_index, 0);
}
