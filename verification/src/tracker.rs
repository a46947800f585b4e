//! The run-tracking state machine: one tick of sampled values in, a list of
//! timer-control intents out.
//!
//! Rules are evaluated once per tick, in a fixed order, each gated by its
//! option flag. Whatever combination of split conditions holds, one tick
//! emits at most one `Split`; the game time is published on every tick.

use vstd::prelude::*;
use crate::pair::Pair;
use crate::rooms_ids::{
    classify_spec, get_current_level, get_starting_room, full_game_split_rooms,
    full_game_split_unlock_rooms, level_exit_room_spec, starting_room_spec, unlock_room_spec, Level,
};
use crate::settings::{Settings, TimerMode};
use crate::strutil::{seq_contains, str_contains, str_eq};

verus! {

/// The phase of the externally owned stopwatch, as reported by its host. The
/// host is the sole source of truth for this.
#[derive(Clone, Copy, PartialEq, Eq, Structural, Debug)]
pub enum TimerPhase {
    /// No attempt is being timed.
    NotRunning,
    /// An attempt is being timed.
    Running,
    /// An attempt is being timed but the clock is paused.
    Paused,
}

/// One timer-control intent. Intents are produced each tick and handed to the
/// external timer; they are never persisted.
#[derive(Clone, PartialEq, Eq, Debug)]
pub enum TimerIntent {
    /// Start the stopwatch.
    Start,
    /// Mark a segment boundary.
    Split,
    /// Reset the stopwatch.
    Reset,
    /// Display this many milliseconds as the attempt's game time.
    SetGameTime(i64),
    /// Show a named value to the operator; cosmetic only.
    SetDisplayVariable(String, String),
}

/// One tick's sampled values, as current/previous pairs, plus the stopwatch
/// phase.
pub struct TickInput {
    /// The room-id cell's value.
    pub room_id: Pair<i32>,
    /// The current room's name.
    pub room_name: Pair<String>,
    /// Whole minutes of the save-file timer.
    pub file_minutes: Pair<i64>,
    /// Seconds component of the save-file timer, in milliseconds.
    pub file_seconds_ms: Pair<i64>,
    /// Whole minutes of the level timer.
    pub level_minutes: Pair<i64>,
    /// Seconds component of the level timer, in milliseconds.
    pub level_seconds_ms: Pair<i64>,
    /// The end-of-level fade flag.
    pub end_of_level: Pair<bool>,
    /// The current boss's health; doubles as the score/progress field.
    pub boss_hp: Pair<u8>,
    /// The external stopwatch's phase this tick.
    pub timer_phase: TimerPhase,
}

/// A sane whole-minutes reading: far beyond any real playtime, yet small
/// enough that no time arithmetic can overflow.
pub open spec fn valid_minutes(m: i64) -> bool {
    0 <= m <= 1_000_000_000
}

/// A sane seconds component: within one minute, in milliseconds.
pub open spec fn valid_seconds_ms(s: i64) -> bool {
    0 <= s <= 60_000
}

/// The largest total a valid minutes/seconds reading can reach.
pub open spec fn max_total_ms() -> int {
    60_000_060_000_000
}

impl TickInput {
    /// All time readings within the sane ranges the sampler hands over.
    pub open spec fn valid(self) -> bool {
        &&& valid_minutes(self.file_minutes.current) && valid_minutes(self.file_minutes.previous)
        &&& valid_seconds_ms(self.file_seconds_ms.current) && valid_seconds_ms(
            self.file_seconds_ms.previous,
        )
        &&& valid_minutes(self.level_minutes.current) && valid_minutes(self.level_minutes.previous)
        &&& valid_seconds_ms(self.level_seconds_ms.current) && valid_seconds_ms(
            self.level_seconds_ms.previous,
        )
    }
}

/// The save-file timer's current total, in milliseconds.
pub open spec fn file_total_ms(i: TickInput) -> int {
    i.file_minutes.current * 60_000 + i.file_seconds_ms.current
}

/// The level timer's current total, in milliseconds.
pub open spec fn level_total_ms(i: TickInput) -> int {
    i.level_minutes.current * 60_000 + i.level_seconds_ms.current
}

/// The room name this tick.
pub open spec fn name_cur(i: TickInput) -> Seq<char> {
    i.room_name.current@
}

/// The room name the tick before.
pub open spec fn name_prev(i: TickInput) -> Seq<char> {
    i.room_name.previous@
}

/// The room name changed this tick.
pub open spec fn name_changed(i: TickInput) -> bool {
    name_cur(i) != name_prev(i)
}

/// Everything the tracker carries from tick to tick. Owned by one tick
/// context; reset to its initial values on an explicit reset and on re-attach.
pub struct RunState {
    /// The level the run is currently in.
    pub current_level: Level,
    /// The position reached in the current level's room sequence.
    pub room_index: usize,
    /// The current level's canonical room traversal order. Configuration
    /// data, supplied per level; may repeat rooms the level backtracks
    /// through. Empty when no sequence is known, which leaves room-advance
    /// splitting inert.
    pub room_sequence: Vec<i32>,
    /// The room entered at the last room split, for the anti-jitter guard.
    pub last_split_room: Option<i32>,
    /// The level time at the last room split, in milliseconds.
    pub last_split_time_ms: i64,
    /// The save-file time captured when a new-game-plus run entered its
    /// qualifying start window.
    pub ng_plus_offset_ms: Option<i64>,
    /// The save-file time captured when an individual-world run entered the
    /// hub.
    pub iw_offset_ms: Option<i64>,
    /// A key room of the current level has been reached, so leaving the level
    /// may produce a full-game split.
    pub full_game_split_armed: bool,
    /// The once-per-run split for entering the final tower's last hallway has
    /// already fired.
    pub ctop_oob_split_done: bool,
}

impl RunState {
    /// The bookkeeping values stay inside the ranges the time arithmetic
    /// needs, and the sequence position never passes the sequence's end.
    pub open spec fn wf(self) -> bool {
        &&& self.room_index <= self.room_sequence@.len()
        &&& 0 <= self.last_split_time_ms <= max_total_ms()
        &&& (self.ng_plus_offset_ms matches Some(v) ==> 0 <= v <= max_total_ms())
        &&& (self.iw_offset_ms matches Some(v) ==> 0 <= v <= max_total_ms())
    }

    /// The state a run starts from, and returns to on reset or re-attach.
    pub fn initial() -> (r: RunState)
        ensures
            r.wf(),
            r.current_level == Level::Unknown,
            r.room_index == 0,
            r.room_sequence@ == Seq::<i32>::empty(),
            r.last_split_room is None,
            r.last_split_time_ms == 0,
            r.ng_plus_offset_ms is None,
            r.iw_offset_ms is None,
            !r.full_game_split_armed,
            !r.ctop_oob_split_done,
    {
        RunState {
            current_level: Level::Unknown,
            room_index: 0,
            room_sequence: Vec::new(),
            last_split_room: None,
            last_split_time_ms: 0,
            ng_plus_offset_ms: None,
            iw_offset_ms: None,
            full_game_split_armed: false,
            ctop_oob_split_done: false,
        }
    }

    /// Install a level's canonical room order and rewind to its start.
    pub fn set_level_sequence(&mut self, sequence: Vec<i32>)
        ensures
            final(self).room_sequence@ == sequence@,
            final(self).room_index == 0,
            final(self).current_level == old(self).current_level,
            final(self).last_split_room == old(self).last_split_room,
            final(self).last_split_time_ms == old(self).last_split_time_ms,
            final(self).ng_plus_offset_ms == old(self).ng_plus_offset_ms,
            final(self).iw_offset_ms == old(self).iw_offset_ms,
            final(self).full_game_split_armed == old(self).full_game_split_armed,
            final(self).ctop_oob_split_done == old(self).ctop_oob_split_done,
            old(self).wf() ==> final(self).wf(),
    {
        self.room_sequence = sequence;
        self.room_index = 0;
    }
}

/// The level after this tick: reclassified when the room name changed, kept
/// otherwise.
pub open spec fn next_level(s: RunState, i: TickInput) -> Level {
    if name_changed(i) {
        classify_spec(name_cur(i), s.current_level)
    } else {
        s.current_level
    }
}

/// Whether the full-game split is armed once this tick's room is accounted
/// for: reaching a key room arms it.
pub open spec fn armed_after_rooms(s: RunState, i: TickInput) -> bool {
    s.full_game_split_armed || (name_changed(i) && unlock_room_spec(name_cur(i)))
}

/// The new-game-plus baseline after this tick. While the stopwatch is not
/// running, entering the tower entrance with a fresh level timer captures the
/// save-file time once; reaching the loading screen or the new-file intro
/// clears it.
pub open spec fn ng_offset_next(s: RunState, i: TickInput) -> Option<i64> {
    if i.timer_phase == TimerPhase::NotRunning {
        let captured = if s.ng_plus_offset_ms is None && name_cur(i) == "tower_entrancehall"@
            && i.level_minutes.current == 0 && i.level_seconds_ms.current < 1000 {
            Some(file_total_ms(i) as i64)
        } else {
            s.ng_plus_offset_ms
        };
        if captured is Some && (name_cur(i) == "hub_loadingscreen"@ || name_cur(i)
            == "Finalintro"@) {
            None
        } else {
            captured
        }
    } else {
        s.ng_plus_offset_ms
    }
}

/// The individual-world baseline after this tick. While the stopwatch is not
/// running, entering the hub captures the save-file time once; leaving the
/// hub clears it.
pub open spec fn iw_offset_next(s: RunState, i: TickInput) -> Option<i64> {
    if i.timer_phase == TimerPhase::NotRunning {
        let captured = if s.iw_offset_ms is None && next_level(s, i) == Level::Hub {
            Some(file_total_ms(i) as i64)
        } else {
            s.iw_offset_ms
        };
        if captured is Some && next_level(s, i) != Level::Hub {
            None
        } else {
            captured
        }
    } else {
        s.iw_offset_ms
    }
}

/// The game time the active mode displays this tick, in milliseconds: the
/// save-file or level accumulator, minus the mode's baseline when one stands.
pub open spec fn game_time_ms(s: RunState, set: Settings, i: TickInput) -> int {
    match set.timer_mode {
        TimerMode::FullGame => file_total_ms(i),
        TimerMode::IL => level_total_ms(i),
        TimerMode::NewGamePlus => file_total_ms(i) - (match ng_offset_next(s, i) {
            Some(v) => v as int,
            None => 0,
        }),
        TimerMode::IW => level_total_ms(i) - (match iw_offset_next(s, i) {
            Some(v) => v as int,
            None => 0,
        }),
    }
}

/// The in-game restart detector: the level timer's seconds just decreased in
/// its first minute, the score field reads zero, and the stopwatch is
/// running.
pub open spec fn decrease_reset(set: Settings, i: TickInput) -> bool {
    &&& set.reset_enable
    &&& set.reset_new_level
    &&& i.level_seconds_ms.current < i.level_seconds_ms.previous
    &&& i.level_minutes.current == 0
    &&& i.boss_hp.current == 0
    &&& i.timer_phase == TimerPhase::Running
}

/// Whether this tick resets the stopwatch.
pub open spec fn reset_decision(s: RunState, set: Settings, i: TickInput) -> bool {
    set.reset_enable && ((set.reset_new_file && name_cur(i) == "Finalintro"@ && name_prev(i)
        != "Finalintro"@) || (set.reset_any_file && name_changed(i) && name_cur(i)
        == "hub_loadingscreen"@ && i.timer_phase == TimerPhase::Running)) || decrease_reset(set, i)
}

/// Whether this tick starts the stopwatch. An in-game restart outside the
/// hub starts the fresh attempt in the same tick as its reset.
pub open spec fn start_decision(s: RunState, set: Settings, i: TickInput) -> bool {
    ||| set.start_enable && ((set.start_new_file && name_cur(i) == "tower_entrancehall"@
        && name_prev(i) == "Finalintro"@) || (set.start_any_file && name_cur(i)
        == "tower_entrancehall"@ && name_prev(i) == "hub_loadingscreen"@) || (set.start_new_il
        && starting_room_spec(next_level(s, i)) == name_cur(i) && 70 < level_total_ms(i)
        && level_total_ms(i) <= 100) || (set.start_exit_level && name_changed(i)
        && level_exit_room_spec(name_prev(i)) && next_level(s, i) == Level::Hub))
    ||| (decrease_reset(set, i) && next_level(s, i) != Level::Hub)
}

/// The room id moved to the next entry of the level's room sequence. The
/// check is positional — the entry at the next index, not a search — so
/// repeated rooms in a traversal are handled by position. A tick that changes
/// the level never advances the old level's sequence.
pub open spec fn positional_advance(s: RunState, i: TickInput) -> bool {
    &&& next_level(s, i) == s.current_level
    &&& i.room_id.changed()
    &&& s.room_index + 1 < s.room_sequence@.len()
    &&& s.room_sequence@[s.room_index + 1] == i.room_id.current
}

/// The anti-jitter guard: after a room split, another may fire only once the
/// transition no longer touches the room recorded at that split, or three
/// seconds of level time have passed.
pub open spec fn jitter_guard_ok(s: RunState, i: TickInput) -> bool {
    match s.last_split_room {
        None => true,
        Some(rec) => (i.room_id.current != rec && i.room_id.previous != rec) || level_total_ms(i)
            - s.last_split_time_ms >= 3000,
    }
}

/// Either endpoint of this tick's room-name transition is a secret room.
pub open spec fn secret_transition(i: TickInput) -> bool {
    seq_contains(name_cur(i), "secret"@) || seq_contains(name_prev(i), "secret"@)
}

/// The room-advance split: a positional advance, past the anti-jitter guard,
/// never on a transition that touches a secret room.
pub open spec fn room_advance_split(s: RunState, set: Settings, i: TickInput) -> bool {
    &&& set.splits_enable
    &&& set.splits_rooms
    &&& positional_advance(s, i)
    &&& jitter_guard_ok(s, i)
    &&& !secret_transition(i)
}

/// The optional secret split: entering a secret room from a non-secret one,
/// past the anti-jitter guard.
pub open spec fn secret_split(s: RunState, set: Settings, i: TickInput) -> bool {
    &&& set.splits_enable
    &&& set.splits_secrets
    &&& name_changed(i)
    &&& seq_contains(name_cur(i), "secret"@)
    &&& !seq_contains(name_prev(i), "secret"@)
    &&& jitter_guard_ok(s, i)
}

/// The end-of-level completion signal: the fade flag dropped from true to
/// false with more than a second of level time on the clock, which suppresses
/// the spurious flicker right after a reset.
pub open spec fn end_of_level_split(set: Settings, i: TickInput) -> bool {
    &&& set.splits_enable
    &&& set.splits_rooms
    &&& i.end_of_level.previous
    &&& !i.end_of_level.current
    &&& level_total_ms(i) > 1000
}

/// The ordinary full-game split: the room just exited closes a level, the
/// run moved into the hub or the results screen, the level's key room had
/// been reached, and no boss health was left.
pub open spec fn full_game_level_split(s: RunState, set: Settings, i: TickInput) -> bool {
    &&& set.splits_enable
    &&& set.splits_level_end
    &&& name_changed(i)
    &&& level_exit_room_spec(name_prev(i))
    &&& (next_level(s, i) == Level::Hub || next_level(s, i) == Level::ResultsScreen)
    &&& armed_after_rooms(s, i)
    &&& i.boss_hp.previous == 0
}

/// The end-of-run split, frame-exact: the end-of-level fade appears while the
/// run stands in the tower entrance.
pub open spec fn final_frame_split(set: Settings, i: TickInput) -> bool {
    &&& set.splits_enable
    &&& set.splits_level_end
    &&& i.end_of_level.current
    &&& !i.end_of_level.previous
    &&& name_cur(i) == "tower_entrancehall"@
}

/// The once-per-run marker after this tick's disarm: a stopped stopwatch
/// rearms the final-hallway split.
pub open spec fn ctop_disarmed(s: RunState, i: TickInput) -> bool {
    if i.timer_phase == TimerPhase::NotRunning {
        false
    } else {
        s.ctop_oob_split_done
    }
}

/// The final-hallway split: entering the crumbling tower's last hallway from
/// its fifth floor, once per run.
pub open spec fn ctop_split(s: RunState, set: Settings, i: TickInput) -> bool {
    &&& set.splits_enable
    &&& set.splits_level_end
    &&& name_cur(i) == "tower_finalhallway"@
    &&& name_prev(i) == "tower_5"@
    &&& !ctop_disarmed(s, i)
}

/// Whether this tick splits. Several conditions may hold at once; they are
/// merged into one decision, so one tick never splits twice.
pub open spec fn split_decision(s: RunState, set: Settings, i: TickInput) -> bool {
    ||| room_advance_split(s, set, i)
    ||| secret_split(s, set, i)
    ||| end_of_level_split(set, i)
    ||| full_game_level_split(s, set, i)
    ||| final_frame_split(set, i)
    ||| ctop_split(s, set, i)
}

/// The sequence position after this tick: rewound on a level change, advanced
/// on a positional advance (even one whose split the jitter guard withheld),
/// kept otherwise. An exhausted sequence is inert, not an error.
pub open spec fn next_room_index(s: RunState, i: TickInput) -> int {
    if next_level(s, i) != s.current_level {
        0
    } else if positional_advance(s, i) {
        s.room_index + 1
    } else {
        s.room_index as int
    }
}

/// The intents one tick emits, in order: a reset, then a start, then a
/// split — each only when decided — and always the game time.
pub open spec fn tick_intents(s: RunState, set: Settings, i: TickInput) -> Seq<TimerIntent> {
    (if reset_decision(s, set, i) {
        seq![TimerIntent::Reset]
    } else {
        Seq::<TimerIntent>::empty()
    }) + (if start_decision(s, set, i) {
        seq![TimerIntent::Start]
    } else {
        Seq::<TimerIntent>::empty()
    }) + (if split_decision(s, set, i) {
        seq![TimerIntent::Split]
    } else {
        Seq::<TimerIntent>::empty()
    }) + seq![TimerIntent::SetGameTime(game_time_ms(s, set, i) as i64)]
}

/// The timing half of a tick's decisions: the reclassified level, the mode
/// baselines, the game time, and the reset/start choices.
struct TimingDecision {
    level: Level,
    ng_offset: Option<i64>,
    iw_offset: Option<i64>,
    game_time: i64,
    reset: bool,
    start: bool,
}

/// The splitting half of a tick's decisions, with the bookkeeping bits the
/// state update needs.
struct SplitDecision {
    armed: bool,
    advance: bool,
    advance_split: bool,
    sec_split: bool,
    fg_split: bool,
    ctop_now: bool,
    tower_split: bool,
    split: bool,
}

/// Reclassify the level, maintain the mode baselines, compute the game time,
/// and decide resetting and starting.
#[verifier::spinoff_prover]
#[verifier::rlimit(50)]
fn decide_timing(state: &RunState, config: &Settings, input: &TickInput) -> (d: TimingDecision)
    requires
        state.wf(),
        input.valid(),
    ensures
        d.level == next_level(*state, *input),
        d.ng_offset == ng_offset_next(*state, *input),
        d.iw_offset == iw_offset_next(*state, *input),
        d.game_time == game_time_ms(*state, *config, *input) as i64,
        d.reset == reset_decision(*state, *config, *input),
        d.start == start_decision(*state, *config, *input),
{
    let file_total: i64 = input.file_minutes.current * 60_000 + input.file_seconds_ms.current;
    let level_total: i64 = input.level_minutes.current * 60_000 + input.level_seconds_ms.current;
    let cur = input.room_name.current.as_str();
    let prev = input.room_name.previous.as_str();
    let changed = !str_eq(cur, prev);

    let lvl = if changed {
        get_current_level(cur, state.current_level)
    } else {
        state.current_level
    };

    // Maintain the mode baselines while the stopwatch is not running.
    let mut ng_offset = state.ng_plus_offset_ms;
    let mut iw_offset = state.iw_offset_ms;
    if input.timer_phase == TimerPhase::NotRunning {
        if ng_offset.is_none() && str_eq(cur, "tower_entrancehall") && input.level_minutes.current
            == 0 && input.level_seconds_ms.current < 1000 {
            ng_offset = Some(file_total);
        }
        if ng_offset.is_some() && (str_eq(cur, "hub_loadingscreen") || str_eq(cur, "Finalintro")) {
            ng_offset = None;
        }
        if iw_offset.is_none() && lvl == Level::Hub {
            iw_offset = Some(file_total);
        }
        if iw_offset.is_some() && lvl != Level::Hub {
            iw_offset = None;
        }
    }

    // The mode's game time, always published.
    let game_time: i64 = match config.timer_mode {
        TimerMode::FullGame => file_total,
        TimerMode::IL => level_total,
        TimerMode::NewGamePlus => file_total - (match ng_offset {
            Some(v) => v,
            None => 0,
        }),
        TimerMode::IW => level_total - (match iw_offset {
            Some(v) => v,
            None => 0,
        }),
    };

    // The in-game restart detector, shared by a reset rule and a start rule.
    let dec_reset = config.reset_enable && config.reset_new_level
        && input.level_seconds_ms.current < input.level_seconds_ms.previous
        && input.level_minutes.current == 0 && input.boss_hp.current == 0 && input.timer_phase
        == TimerPhase::Running;

    let do_reset = config.reset_enable && ((config.reset_new_file && str_eq(cur, "Finalintro")
        && !str_eq(prev, "Finalintro")) || (config.reset_any_file && changed && str_eq(
        cur,
        "hub_loadingscreen",
    ) && input.timer_phase == TimerPhase::Running)) || dec_reset;

    let do_start = (config.start_enable && ((config.start_new_file && str_eq(
        cur,
        "tower_entrancehall",
    ) && str_eq(prev, "Finalintro")) || (config.start_any_file && str_eq(cur, "tower_entrancehall")
        && str_eq(prev, "hub_loadingscreen")) || (config.start_new_il && str_eq(
        get_starting_room(&lvl),
        cur,
    ) && 70 < level_total && level_total <= 100) || (config.start_exit_level && changed
        && full_game_split_rooms(prev) && lvl == Level::Hub))) || (dec_reset && lvl != Level::Hub);

    TimingDecision {
        level: lvl,
        ng_offset,
        iw_offset,
        game_time,
        reset: do_reset,
        start: do_start,
    }
}

/// Decide every kind of split this tick, along with the arming and
/// once-per-run bookkeeping the state update needs.
#[verifier::spinoff_prover]
#[verifier::rlimit(50)]
fn decide_splits(state: &RunState, config: &Settings, input: &TickInput, lvl: Level) -> (d:
    SplitDecision)
    requires
        state.wf(),
        input.valid(),
        lvl == next_level(*state, *input),
    ensures
        d.armed == armed_after_rooms(*state, *input),
        d.advance == positional_advance(*state, *input),
        d.advance_split == room_advance_split(*state, *config, *input),
        d.sec_split == secret_split(*state, *config, *input),
        d.fg_split == full_game_level_split(*state, *config, *input),
        d.ctop_now == ctop_disarmed(*state, *input),
        d.tower_split == ctop_split(*state, *config, *input),
        d.split == split_decision(*state, *config, *input),
{
    let level_total: i64 = input.level_minutes.current * 60_000 + input.level_seconds_ms.current;
    let cur = input.room_name.current.as_str();
    let prev = input.room_name.previous.as_str();
    let changed = !str_eq(cur, prev);

    let armed = state.full_game_split_armed || (changed && full_game_split_unlock_rooms(cur));

    // Room-advance bookkeeping: the sequence position moves even when the
    // jitter guard withholds the split itself.
    let advance = lvl == state.current_level && input.room_id.current != input.room_id.previous
        && state.room_sequence.len() > 0 && state.room_index < state.room_sequence.len() - 1
        && state.room_sequence[state.room_index + 1] == input.room_id.current;

    let jitter_ok = match state.last_split_room {
        None => true,
        Some(rec) => (input.room_id.current != rec && input.room_id.previous != rec) || level_total
            - state.last_split_time_ms >= 3000,
    };

    let cur_secret = str_contains(cur, "secret");
    let prev_secret = str_contains(prev, "secret");

    let advance_split = config.splits_enable && config.splits_rooms && advance && jitter_ok
        && !cur_secret && !prev_secret;
    let sec_split = config.splits_enable && config.splits_secrets && changed && cur_secret
        && !prev_secret && jitter_ok;
    let eol_split = config.splits_enable && config.splits_rooms && input.end_of_level.previous
        && !input.end_of_level.current && level_total > 1000;
    let fg_split = config.splits_enable && config.splits_level_end && changed
        && full_game_split_rooms(prev) && (lvl == Level::Hub || lvl == Level::ResultsScreen)
        && armed && input.boss_hp.previous == 0;
    let frame_split = config.splits_enable && config.splits_level_end && input.end_of_level.current
        && !input.end_of_level.previous && str_eq(cur, "tower_entrancehall");
    let ctop_now = if input.timer_phase == TimerPhase::NotRunning {
        false
    } else {
        state.ctop_oob_split_done
    };
    let tower_split = config.splits_enable && config.splits_level_end && str_eq(
        cur,
        "tower_finalhallway",
    ) && str_eq(prev, "tower_5") && !ctop_now;

    let do_split = advance_split || sec_split || eol_split || fg_split || frame_split
        || tower_split;

    proof {
        assert(eol_split == end_of_level_split(*config, *input));
        assert(frame_split == final_frame_split(*config, *input));
    }

    SplitDecision {
        armed,
        advance,
        advance_split,
        sec_split,
        fg_split,
        ctop_now,
        tower_split,
        split: do_split,
    }
}

/// Lay out one tick's intents in their fixed order: a reset, then a start,
/// then a split — each only when decided — and always the game time.
fn build_intents(reset: bool, start: bool, split: bool, game_time: i64) -> (intents: Vec<
    TimerIntent,
>)
    ensures
        intents@ == (if reset {
            seq![TimerIntent::Reset]
        } else {
            Seq::<TimerIntent>::empty()
        }) + (if start {
            seq![TimerIntent::Start]
        } else {
            Seq::<TimerIntent>::empty()
        }) + (if split {
            seq![TimerIntent::Split]
        } else {
            Seq::<TimerIntent>::empty()
        }) + seq![TimerIntent::SetGameTime(game_time)],
{
    let mut intents: Vec<TimerIntent> = Vec::new();
    if reset {
        intents.push(TimerIntent::Reset);
    }
    if start {
        intents.push(TimerIntent::Start);
    }
    if split {
        intents.push(TimerIntent::Split);
    }
    intents.push(TimerIntent::SetGameTime(game_time));
    proof {
        assert(intents@ =~= (if reset {
            seq![TimerIntent::Reset]
        } else {
            Seq::<TimerIntent>::empty()
        }) + (if start {
            seq![TimerIntent::Start]
        } else {
            Seq::<TimerIntent>::empty()
        }) + (if split {
            seq![TimerIntent::Split]
        } else {
            Seq::<TimerIntent>::empty()
        }) + seq![TimerIntent::SetGameTime(game_time)]);
    }
    intents
}

/// Evaluate one tick: fold the sampled values into the run state and return
/// the timer-control intents this tick produces.
#[verifier::spinoff_prover]
#[verifier::rlimit(100)]
pub fn evaluate_tick(state: &mut RunState, config: &Settings, input: &TickInput) -> (intents: Vec<
    TimerIntent,
>)
    requires
        old(state).wf(),
        input.valid(),
    ensures
        final(state).wf(),
        intents@ == tick_intents(*old(state), *config, *input),
        final(state).current_level == next_level(*old(state), *input),
        final(state).room_sequence == old(state).room_sequence,
        final(state).room_index as int == next_room_index(*old(state), *input),
        final(state).full_game_split_armed == (armed_after_rooms(*old(state), *input)
            && !full_game_level_split(*old(state), *config, *input)),
        final(state).ctop_oob_split_done == (ctop_disarmed(*old(state), *input) || ctop_split(
            *old(state),
            *config,
            *input,
        )),
        final(state).ng_plus_offset_ms == ng_offset_next(*old(state), *input),
        final(state).iw_offset_ms == iw_offset_next(*old(state), *input),
        if room_advance_split(*old(state), *config, *input) || secret_split(
            *old(state),
            *config,
            *input,
        ) {
            final(state).last_split_room == Some(input.room_id.current)
                && final(state).last_split_time_ms == level_total_ms(*input)
        } else {
            final(state).last_split_room == old(state).last_split_room
                && final(state).last_split_time_ms == old(state).last_split_time_ms
        },
{
    let timing = decide_timing(state, config, input);
    let splits = decide_splits(state, config, input, timing.level);
    let level_total: i64 = input.level_minutes.current * 60_000 + input.level_seconds_ms.current;

    // Fold everything into the state.
    let level_changed = timing.level != state.current_level;
    state.current_level = timing.level;
    state.full_game_split_armed = splits.armed && !splits.fg_split;
    state.ctop_oob_split_done = splits.ctop_now || splits.tower_split;
    state.ng_plus_offset_ms = timing.ng_offset;
    state.iw_offset_ms = timing.iw_offset;
    if level_changed {
        state.room_index = 0;
    } else if splits.advance {
        let sequence_len = state.room_sequence.len();
        proof {
            assert(state.room_index + 1 < sequence_len);
        }
        state.room_index = state.room_index + 1;
    }
    if splits.advance_split || splits.sec_split {
        state.last_split_room = Some(input.room_id.current);
        state.last_split_time_ms = level_total;
    }

    let intents = build_intents(timing.reset, timing.start, splits.split, timing.game_time);
    proof {
        assert(intents@ == tick_intents(*old(state), *config, *input));
    }
    intents
}

/// However many split conditions hold at once in a tick, its intents hold at
/// most one `Split`: duplicate suppression is structural, not incidental.
pub proof fn lemma_at_most_one_split_per_tick(s: RunState, set: Settings, i: TickInput)
    ensures
        forall|a: int, b: int|
            (0 <= a < tick_intents(s, set, i).len() && 0 <= b < tick_intents(s, set, i).len()
                && tick_intents(s, set, i)[a] is Split && tick_intents(s, set, i)[b] is Split) ==> a
                == b,
{
}

/// The anti-jitter guard, blocking direction: within three seconds of the
/// last room split, a transition that touches the room recorded at that
/// split produces neither a room-advance split nor a secret split.
pub proof fn lemma_anti_jitter_blocks(s: RunState, set: Settings, i: TickInput)
    requires
        s.last_split_room matches Some(rec) && (i.room_id.current == rec || i.room_id.previous
            == rec),
        level_total_ms(i) - s.last_split_time_ms < 3000,
    ensures
        !room_advance_split(s, set, i),
        !secret_split(s, set, i),
{
}

/// The anti-jitter guard, expiry direction: once three seconds of level time
/// have passed since the last room split, the guard blocks nothing, and a
/// positional advance splits whatever rooms the transition touches.
pub proof fn lemma_anti_jitter_expires(s: RunState, set: Settings, i: TickInput)
    requires
        level_total_ms(i) - s.last_split_time_ms >= 3000,
        set.splits_enable,
        set.splits_rooms,
        positional_advance(s, i),
        !secret_transition(i),
    ensures
        room_advance_split(s, set, i),
{
}

/// A room-name transition with a secret room at either endpoint never
/// produces a room-advance split, whatever the sequence position.
pub proof fn lemma_secret_rooms_excluded(s: RunState, set: Settings, i: TickInput)
    requires
        secret_transition(i),
    ensures
        !room_advance_split(s, set, i),
{
}

/// Mode-offset idempotence, new-game-plus side: a tick that qualifies for
/// capture yields the baseline of its own raw save-file reading, whatever
/// cleared window it starts from. Crossing the window once or many times
/// therefore publishes the same adjusted game time for the same raw inputs.
pub proof fn lemma_ng_offset_recapture(s1: RunState, s2: RunState, set: Settings, i: TickInput)
    requires
        s1.ng_plus_offset_ms is None,
        s2.ng_plus_offset_ms is None,
        i.timer_phase == TimerPhase::NotRunning,
        name_cur(i) == "tower_entrancehall"@,
        i.level_minutes.current == 0,
        i.level_seconds_ms.current < 1000,
    ensures
        ng_offset_next(s1, i) == Some(file_total_ms(i) as i64),
        ng_offset_next(s2, i) == ng_offset_next(s1, i),
        set.timer_mode == TimerMode::NewGamePlus ==> game_time_ms(s1, set, i) == game_time_ms(
            s2,
            set,
            i,
        ),
{
    broadcast use vstd::string::group_string_axioms;

    reveal_strlit("tower_entrancehall");
    reveal_strlit("hub_loadingscreen");
    reveal_strlit("Finalintro");
    assert("tower_entrancehall"@.len() == 18);
    assert("hub_loadingscreen"@.len() == 17);
    assert("Finalintro"@.len() == 10);
    assert("tower_entrancehall"@ != "hub_loadingscreen"@);
    assert("tower_entrancehall"@ != "Finalintro"@);
}

/// Mode-offset idempotence, individual-world side: a tick that enters the
/// hub captures the save-file reading as the baseline, whatever cleared
/// window it starts from.
pub proof fn lemma_iw_offset_recapture(s1: RunState, s2: RunState, set: Settings, i: TickInput)
    requires
        s1.iw_offset_ms is None,
        s2.iw_offset_ms is None,
        i.timer_phase == TimerPhase::NotRunning,
        next_level(s1, i) == Level::Hub,
        next_level(s2, i) == Level::Hub,
    ensures
        iw_offset_next(s1, i) == Some(file_total_ms(i) as i64),
        iw_offset_next(s2, i) == iw_offset_next(s1, i),
        set.timer_mode == TimerMode::IW ==> game_time_ms(s1, set, i) == game_time_ms(s2, set, i),
{
}

/// The game time is published on every tick, whatever else the tick decides
/// and wherever the sampler's values came from: the intent list always ends
/// with `SetGameTime` of the active mode's time.
pub proof fn lemma_game_time_always_published(s: RunState, set: Settings, i: TickInput)
    ensures
        tick_intents(s, set, i).len() >= 1,
        tick_intents(s, set, i).last() == TimerIntent::SetGameTime(game_time_ms(s, set, i) as i64),
{
}

/// While the stopwatch runs the baselines stand still, so raw timer readings
/// that do not decrease — including readings held unchanged because a
/// fallback data path could not refresh them — keep the published game time
/// from decreasing.
pub proof fn lemma_game_time_monotone(
    s1: RunState,
    s2: RunState,
    set: Settings,
    i1: TickInput,
    i2: TickInput,
)
    requires
        s1.ng_plus_offset_ms == s2.ng_plus_offset_ms,
        s1.iw_offset_ms == s2.iw_offset_ms,
        i1.timer_phase != TimerPhase::NotRunning,
        i2.timer_phase != TimerPhase::NotRunning,
        file_total_ms(i1) <= file_total_ms(i2),
        level_total_ms(i1) <= level_total_ms(i2),
    ensures
        game_time_ms(s1, set, i1) <= game_time_ms(s2, set, i2),
{
}

} // verus!
