use pizza_tower_splitter::settings::{Settings, TimerMode};

#[test]
fn registered_defaults() {
    let s = Settings::default();
    assert_eq!(s.timer_mode, TimerMode::FullGame);
    assert!(s.timer_mode_load_defaults);
    assert!(s.start_enable && s.start_new_file);
    assert!(!s.start_any_file && !s.start_new_il && !s.start_exit_level);
    assert!(s.splits_enable && s.splits_level_end);
    assert!(!s.splits_rooms && !s.splits_secrets);
    assert!(s.reset_enable && s.reset_new_file && s.reset_any_file && s.reset_new_level);
}

#[test]
fn full_game_mode_defaults() {
    let mut s = Settings::default();
    s.timer_mode = TimerMode::FullGame;
    s.splits_rooms = true;
    s.reset_any_file = true;
    s.load_default_settings_for_mode();
    assert!(s.start_new_file && !s.start_any_file && !s.start_new_il && !s.start_exit_level);
    assert!(s.splits_level_end && !s.splits_rooms && !s.splits_secrets);
    assert!(s.reset_new_file && !s.reset_any_file && !s.reset_new_level);
}

#[test]
fn il_mode_defaults() {
    let mut s = Settings::default();
    s.timer_mode = TimerMode::IL;
    s.load_default_settings_for_mode();
    assert!(!s.start_new_file && !s.start_any_file && s.start_new_il && !s.start_exit_level);
    assert!(s.splits_level_end && s.splits_rooms);
    assert!(s.reset_new_file && s.reset_any_file && s.reset_new_level);
}

#[test]
fn ng_plus_mode_defaults() {
    let mut s = Settings::default();
    s.timer_mode = TimerMode::NewGamePlus;
    s.load_default_settings_for_mode();
    assert!(!s.start_new_file && s.start_any_file && !s.start_new_il && !s.start_exit_level);
    assert!(s.splits_level_end && !s.splits_rooms);
    assert!(s.reset_new_file && s.reset_any_file && !s.reset_new_level);
}

#[test]
fn iw_mode_defaults() {
    let mut s = Settings::default();
    s.timer_mode = TimerMode::IW;
    s.load_default_settings_for_mode();
    assert!(s.start_new_file && !s.start_any_file && !s.start_new_il && s.start_exit_level);
    assert!(s.splits_level_end && !s.splits_rooms);
    assert!(s.reset_new_file && s.reset_any_file && !s.reset_new_level);
}

#[test]
fn mode_defaults_respect_the_toggle() {
    let mut s = Settings::default();
    s.timer_mode = TimerMode::IL;
    s.timer_mode_load_defaults = false;
    let before = s;
    s.load_default_settings_for_mode();
    assert_eq!(s, before);
}

#[test]
fn mode_defaults_keep_master_switches() {
    let mut s = Settings::default();
    s.timer_mode = TimerMode::IL;
    s.start_enable = false;
    s.splits_enable = false;
    s.reset_enable = false;
    s.load_default_settings_for_mode();
    assert!(!s.start_enable && !s.splits_enable && !s.reset_enable);
    assert_eq!(s.timer_mode, TimerMode::IL);
    assert!(s.timer_mode_load_defaults);
}
