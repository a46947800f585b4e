//! The timer mode and the option flags that gate each rule of the tracker.

use vstd::prelude::*;

verus! {

/// The run-timing mode. The modes are mutually exclusive; each selects its
/// own game-time accumulator and its own recommended option flags.
#[derive(Clone, Copy, PartialEq, Eq, Structural, Debug)]
pub enum TimerMode {
    /// Time the whole game on the save-file timer.
    FullGame,
    /// Time a single level on the level timer.
    IL,
    /// Full-game timing on a finished file, offset to the run's start.
    NewGamePlus,
    /// Individual-world timing, offset to the hub entry.
    IW,
}

/// The option flags that gate starting, splitting and resetting, plus the
/// active timer mode.
#[derive(Clone, Copy, PartialEq, Eq, Structural, Debug)]
pub struct Settings {
    /// The active run-timing mode.
    pub timer_mode: TimerMode,
    /// Load each mode's recommended flags when the mode changes.
    pub timer_mode_load_defaults: bool,
    /// Master switch for all start rules.
    pub start_enable: bool,
    /// Start on opening a new file.
    pub start_new_file: bool,
    /// Start on opening any file.
    pub start_any_file: bool,
    /// Start on entering a level's starting room with a fresh level timer.
    pub start_new_il: bool,
    /// Start on exiting a level into the hub.
    pub start_exit_level: bool,
    /// Master switch for all split rules.
    pub splits_enable: bool,
    /// Split on ending a level (every full-game split).
    pub splits_level_end: bool,
    /// Split on advancing to the next room of the level's room sequence.
    pub splits_rooms: bool,
    /// Split on entering a secret room.
    pub splits_secrets: bool,
    /// Master switch for all reset rules.
    pub reset_enable: bool,
    /// Reset on opening a new file.
    pub reset_new_file: bool,
    /// Reset on opening any file (entering the loading screen).
    pub reset_any_file: bool,
    /// Reset on restarting a level from within the game.
    pub reset_new_level: bool,
}

/// The settings as first registered: full-game timing with its recommended
/// flags.
pub open spec fn default_settings_spec() -> Settings {
    Settings {
        timer_mode: TimerMode::FullGame,
        timer_mode_load_defaults: true,
        start_enable: true,
        start_new_file: true,
        start_any_file: false,
        start_new_il: false,
        start_exit_level: false,
        splits_enable: true,
        splits_level_end: true,
        splits_rooms: false,
        splits_secrets: false,
        reset_enable: true,
        reset_new_file: true,
        reset_any_file: true,
        reset_new_level: true,
    }
}

/// The recommended flags for the active mode, leaving the mode itself, the
/// master switches and the defaults toggle untouched.
pub open spec fn mode_defaults_spec(s: Settings) -> Settings {
    match s.timer_mode {
        TimerMode::FullGame => Settings {
            start_new_file: true,
            start_any_file: false,
            start_new_il: false,
            start_exit_level: false,
            splits_level_end: true,
            splits_rooms: false,
            splits_secrets: false,
            reset_new_file: true,
            reset_any_file: false,
            reset_new_level: false,
            ..s
        },
        TimerMode::IL => Settings {
            start_new_file: false,
            start_any_file: false,
            start_new_il: true,
            start_exit_level: false,
            splits_level_end: true,
            splits_rooms: true,
            splits_secrets: false,
            reset_new_file: true,
            reset_any_file: true,
            reset_new_level: true,
            ..s
        },
        TimerMode::NewGamePlus => Settings {
            start_new_file: false,
            start_any_file: true,
            start_new_il: false,
            start_exit_level: false,
            splits_level_end: true,
            splits_rooms: false,
            splits_secrets: false,
            reset_new_file: true,
            reset_any_file: true,
            reset_new_level: false,
            ..s
        },
        TimerMode::IW => Settings {
            start_new_file: true,
            start_any_file: false,
            start_new_il: false,
            start_exit_level: true,
            splits_level_end: true,
            splits_rooms: false,
            splits_secrets: false,
            reset_new_file: true,
            reset_any_file: true,
            reset_new_level: false,
            ..s
        },
    }
}

impl Default for Settings {
    /// The settings as first registered.
    fn default() -> (r: Settings)
        ensures
            r == default_settings_spec(),
    {
        Settings {
            timer_mode: TimerMode::FullGame,
            timer_mode_load_defaults: true,
            start_enable: true,
            start_new_file: true,
            start_any_file: false,
            start_new_il: false,
            start_exit_level: false,
            splits_enable: true,
            splits_level_end: true,
            splits_rooms: false,
            splits_secrets: false,
            reset_enable: true,
            reset_new_file: true,
            reset_any_file: true,
            reset_new_level: true,
        }
    }
}

impl Settings {
    /// Replace the per-rule flags with the active mode's recommended values,
    /// if the defaults toggle asks for that; the mode itself and the master
    /// switches stay as they are.
    pub fn load_default_settings_for_mode(&mut self)
        ensures
            old(self).timer_mode_load_defaults ==> *final(self) == mode_defaults_spec(*old(self)),
            !old(self).timer_mode_load_defaults ==> *final(self) == *old(self),
    {
        if !self.timer_mode_load_defaults {
            return ;
        }
        match self.timer_mode {
            TimerMode::FullGame => {
                self.start_new_file = true;
                self.start_any_file = false;
                self.start_new_il = false;
                self.start_exit_level = false;
                self.splits_level_end = true;
                self.splits_rooms = false;
                self.splits_secrets = false;
                self.reset_new_file = true;
                self.reset_any_file = false;
                self.reset_new_level = false;
            },
            TimerMode::IL => {
                self.start_new_file = false;
                self.start_any_file = false;
                self.start_new_il = true;
                self.start_exit_level = false;
                self.splits_level_end = true;
                self.splits_rooms = true;
                self.splits_secrets = false;
                self.reset_new_file = true;
                self.reset_any_file = true;
                self.reset_new_level = true;
            },
            TimerMode::NewGamePlus => {
                self.start_new_file = false;
                self.start_any_file = true;
                self.start_new_il = false;
                self.start_exit_level = false;
                self.splits_level_end = true;
                self.splits_rooms = false;
                self.splits_secrets = false;
                self.reset_new_file = true;
                self.reset_any_file = true;
                self.reset_new_level = false;
            },
            TimerMode::IW => {
                self.start_new_file = true;
                self.start_any_file = false;
                self.start_new_il = false;
                self.start_exit_level = true;
                self.splits_level_end = true;
                self.splits_rooms = false;
                self.splits_secrets = false;
                self.reset_new_file = true;
                self.reset_any_file = true;
                self.reset_new_level = false;
            },
        }
    }
}

} // verus!
