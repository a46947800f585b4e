//! Classification of room names into abstract levels, and the room tables
//! that drive full-game splitting.

use vstd::prelude::*;
use crate::strutil::{seq_contains, str_contains, str_eq};

verus! {

/// The abstract game area the player currently occupies.
#[derive(Clone, Copy, PartialEq, Eq, Structural, Debug)]
pub enum Level {
    Hub,
    F1Tutorial,
    F1TutorialNoise,
    F1JohnGutter,
    F1Pizzascape,
    F1AncientCheese,
    F1BloodsauceDungeon,
    F2OreganoDesert,
    F2Wasteyard,
    F2FunFarm,
    F2FastfoodSaloon,
    F3CrustCove,
    F3GnomeForest,
    F3Golf,
    F3DeepDish9,
    F4ThePigCity,
    F4OhShit,
    F4PeppibotFactory,
    F4Refrigerator,
    F5Pizzascare,
    F5DMAS,
    F5War,
    F5CrumblingTower,
    SecretsOfTheWorld,
    TrickyTreat,
    Pepperman,
    Vigilante,
    Noise,
    Fake,
    PizzaFace,
    ResultsScreen,
    Unknown,
}

/// The level a room name belongs to, given the level the run was already in.
///
/// The rules are tried in priority order: sticky exceptions for rooms shared
/// between levels first, then exact names of transition rooms, then the
/// prefix namespaces of the ordinary levels, and `Unknown` as the fallback.
#[verifier::opaque]
pub open spec fn classify_spec(name: Seq<char>, prev: Level) -> Level {
    if prev == Level::F5CrumblingTower && seq_contains(name, "tower_"@) && name
        != "tower_pizzafacehall"@ {
        Level::F5CrumblingTower
    } else if prev == Level::SecretsOfTheWorld && seq_contains(name, "secret"@) {
        Level::SecretsOfTheWorld
    } else if name == "tower_finalhallway"@ {
        Level::F5CrumblingTower
    } else if seq_contains(name, "tower_tutorial1N"@) || seq_contains(name, "tower_tutorial2N"@)
        || seq_contains(name, "tower_tutorial3N"@) {
        Level::F1TutorialNoise
    } else if seq_contains(name, "tower_tutorial"@) {
        Level::F1Tutorial
    } else if seq_contains(name, "tower_"@) || name == "boss_pizzafacehub"@ {
        Level::Hub
    } else if seq_contains(name, "entrance_"@) {
        Level::F1JohnGutter
    } else if seq_contains(name, "medieval_"@) {
        Level::F1Pizzascape
    } else if seq_contains(name, "ruin_"@) {
        Level::F1AncientCheese
    } else if seq_contains(name, "dungeon_"@) {
        Level::F1BloodsauceDungeon
    } else if name == "boss_pepperman"@ {
        Level::Pepperman
    } else if seq_contains(name, "badland_"@) {
        Level::F2OreganoDesert
    } else if seq_contains(name, "graveyard_"@) {
        Level::F2Wasteyard
    } else if seq_contains(name, "farm_"@) {
        Level::F2FunFarm
    } else if seq_contains(name, "saloon_"@) {
        Level::F2FastfoodSaloon
    } else if name == "boss_vigilante"@ {
        Level::Vigilante
    } else if seq_contains(name, "plage_"@) {
        Level::F3CrustCove
    } else if seq_contains(name, "forest_"@) {
        Level::F3GnomeForest
    } else if seq_contains(name, "space_"@) {
        Level::F3DeepDish9
    } else if seq_contains(name, "minigolf_"@) {
        Level::F3Golf
    } else if name == "boss_noise"@ {
        Level::Noise
    } else if seq_contains(name, "street_"@) {
        Level::F4ThePigCity
    } else if seq_contains(name, "industrial_"@) {
        Level::F4PeppibotFactory
    } else if seq_contains(name, "sewer_"@) {
        Level::F4OhShit
    } else if seq_contains(name, "freezer_"@) {
        Level::F4Refrigerator
    } else if seq_contains(name, "boss_fakepep"@) {
        Level::Fake
    } else if seq_contains(name, "secret_entrance"@) {
        Level::SecretsOfTheWorld
    } else if seq_contains(name, "trickytreat"@) {
        Level::TrickyTreat
    } else if seq_contains(name, "chateau_"@) {
        Level::F5Pizzascare
    } else if seq_contains(name, "kidsparty_"@) {
        Level::F5DMAS
    } else if seq_contains(name, "war_"@) {
        Level::F5War
    } else if name == "boss_pizzaface"@ {
        Level::PizzaFace
    } else if name == "rank_room"@ {
        Level::ResultsScreen
    } else {
        Level::Unknown
    }
}

/// Map a room name to its level, carrying the previous level so that rooms
/// shared between levels stay with the level the run was already in.
pub fn get_current_level(room_name: &str, prev_level: Level) -> (level: Level)
    ensures
        level == classify_spec(room_name@, prev_level),
{
    proof {
        reveal(classify_spec);
    }
    if prev_level == Level::F5CrumblingTower && str_contains(room_name, "tower_") && !str_eq(
        room_name,
        "tower_pizzafacehall",
    ) {
        return Level::F5CrumblingTower;
    }
    if prev_level == Level::SecretsOfTheWorld && str_contains(room_name, "secret") {
        return Level::SecretsOfTheWorld;
    }
    if str_eq(room_name, "tower_finalhallway") {
        Level::F5CrumblingTower
    } else if str_contains(room_name, "tower_tutorial1N") || str_contains(
        room_name,
        "tower_tutorial2N",
    ) || str_contains(room_name, "tower_tutorial3N") {
        Level::F1TutorialNoise
    } else if str_contains(room_name, "tower_tutorial") {
        Level::F1Tutorial
    } else if str_contains(room_name, "tower_") || str_eq(room_name, "boss_pizzafacehub") {
        Level::Hub
    } else if str_contains(room_name, "entrance_") {
        Level::F1JohnGutter
    } else if str_contains(room_name, "medieval_") {
        Level::F1Pizzascape
    } else if str_contains(room_name, "ruin_") {
        Level::F1AncientCheese
    } else if str_contains(room_name, "dungeon_") {
        Level::F1BloodsauceDungeon
    } else if str_eq(room_name, "boss_pepperman") {
        Level::Pepperman
    } else if str_contains(room_name, "badland_") {
        Level::F2OreganoDesert
    } else if str_contains(room_name, "graveyard_") {
        Level::F2Wasteyard
    } else if str_contains(room_name, "farm_") {
        Level::F2FunFarm
    } else if str_contains(room_name, "saloon_") {
        Level::F2FastfoodSaloon
    } else if str_eq(room_name, "boss_vigilante") {
        Level::Vigilante
    } else if str_contains(room_name, "plage_") {
        Level::F3CrustCove
    } else if str_contains(room_name, "forest_") {
        Level::F3GnomeForest
    } else if str_contains(room_name, "space_") {
        Level::F3DeepDish9
    } else if str_contains(room_name, "minigolf_") {
        Level::F3Golf
    } else if str_eq(room_name, "boss_noise") {
        Level::Noise
    } else if str_contains(room_name, "street_") {
        Level::F4ThePigCity
    } else if str_contains(room_name, "industrial_") {
        Level::F4PeppibotFactory
    } else if str_contains(room_name, "sewer_") {
        Level::F4OhShit
    } else if str_contains(room_name, "freezer_") {
        Level::F4Refrigerator
    } else if str_contains(room_name, "boss_fakepep") {
        Level::Fake
    } else if str_contains(room_name, "secret_entrance") {
        Level::SecretsOfTheWorld
    } else if str_contains(room_name, "trickytreat") {
        Level::TrickyTreat
    } else if str_contains(room_name, "chateau_") {
        Level::F5Pizzascare
    } else if str_contains(room_name, "kidsparty_") {
        Level::F5DMAS
    } else if str_contains(room_name, "war_") {
        Level::F5War
    } else if str_eq(room_name, "boss_pizzaface") {
        Level::PizzaFace
    } else if str_eq(room_name, "rank_room") {
        Level::ResultsScreen
    } else {
        Level::Unknown
    }
}

/// The room a level's run starts in, or `-` for levels with no starting room.
#[verifier::opaque]
pub open spec fn starting_room_spec(level: Level) -> Seq<char> {
    match level {
        Level::F1Tutorial => "tower_tutorial1"@,
        Level::F1TutorialNoise => "tower_tutorial1N"@,
        Level::F1JohnGutter => "entrance_1"@,
        Level::F1Pizzascape => "medieval_1"@,
        Level::F1AncientCheese => "ruin_1"@,
        Level::F1BloodsauceDungeon => "dungeon_1"@,
        Level::F2OreganoDesert => "badland_1"@,
        Level::F2Wasteyard => "graveyard_1"@,
        Level::F2FunFarm => "farm_2"@,
        Level::F2FastfoodSaloon => "saloon_1"@,
        Level::F3CrustCove => "plage_entrance"@,
        Level::F3GnomeForest => "forest_1"@,
        Level::F3Golf => "minigolf_1"@,
        Level::F3DeepDish9 => "space_1"@,
        Level::F4ThePigCity => "street_intro"@,
        Level::F4OhShit => "sewer_1"@,
        Level::F4PeppibotFactory => "industrial_1"@,
        Level::F4Refrigerator => "freezer_1"@,
        Level::F5Pizzascare => "chateau_1"@,
        Level::F5DMAS => "kidsparty_1"@,
        Level::F5War => "war_1"@,
        Level::F5CrumblingTower => "tower_finalhallway"@,
        Level::SecretsOfTheWorld => "secret_entrance"@,
        Level::TrickyTreat => "trickytreat_2"@,
        Level::Pepperman => "boss_pepperman"@,
        Level::Vigilante => "boss_vigilante"@,
        Level::Noise => "boss_noise"@,
        Level::Fake => "boss_fakepep"@,
        Level::PizzaFace => "boss_pizzaface"@,
        _ => "-"@,
    }
}

/// The name of the room in which a run of `level` begins.
pub fn get_starting_room<'a>(level: &Level) -> (room: &'a str)
    ensures
        room@ == starting_room_spec(*level),
{
    proof {
        reveal(starting_room_spec);
    }
    match level {
        Level::F1Tutorial => "tower_tutorial1",
        Level::F1TutorialNoise => "tower_tutorial1N",
        Level::F1JohnGutter => "entrance_1",
        Level::F1Pizzascape => "medieval_1",
        Level::F1AncientCheese => "ruin_1",
        Level::F1BloodsauceDungeon => "dungeon_1",
        Level::F2OreganoDesert => "badland_1",
        Level::F2Wasteyard => "graveyard_1",
        Level::F2FunFarm => "farm_2",
        Level::F2FastfoodSaloon => "saloon_1",
        Level::F3CrustCove => "plage_entrance",
        Level::F3GnomeForest => "forest_1",
        Level::F3Golf => "minigolf_1",
        Level::F3DeepDish9 => "space_1",
        Level::F4ThePigCity => "street_intro",
        Level::F4OhShit => "sewer_1",
        Level::F4PeppibotFactory => "industrial_1",
        Level::F4Refrigerator => "freezer_1",
        Level::F5Pizzascare => "chateau_1",
        Level::F5DMAS => "kidsparty_1",
        Level::F5War => "war_1",
        Level::F5CrumblingTower => "tower_finalhallway",
        Level::SecretsOfTheWorld => "secret_entrance",
        Level::TrickyTreat => "trickytreat_2",
        Level::Pepperman => "boss_pepperman",
        Level::Vigilante => "boss_vigilante",
        Level::Noise => "boss_noise",
        Level::Fake => "boss_fakepep",
        Level::PizzaFace => "boss_pizzaface",
        _ => "-",
    }
}

/// Rooms that arm the full-game split for the level they sit in: reaching one
/// shows the level has really been traversed, so leaving the level may split.
#[verifier::opaque]
pub open spec fn unlock_room_spec(name: Seq<char>) -> bool {
    ||| name == "tower_tutorial10"@
    ||| name == "tower_tutorial3N"@
    ||| name == "entrance_10"@
    ||| name == "medieval_10"@
    ||| name == "ruin_11"@
    ||| name == "dungeon_10"@
    ||| name == "badland_9"@
    ||| name == "graveyard_6"@
    ||| name == "farm_11"@
    ||| name == "saloon_6"@
    ||| name == "plage_cavern2"@
    ||| name == "forest_john"@
    ||| name == "space_9"@
    ||| name == "minigolf_8"@
    ||| name == "street_john"@
    ||| name == "sewer_8"@
    ||| name == "industrial_5"@
    ||| name == "freezer_escape1"@
    ||| name == "chateau_9"@
    ||| name == "kidsparty_john"@
    ||| name == "war_1"@
    ||| name == "boss_pepperman"@
    ||| name == "boss_vigilante"@
    ||| name == "boss_noise"@
    ||| name == "boss_fakepepkey"@
    ||| name == "boss_pizzaface"@
}

/// True when a key room that should arm the full-game split for the current
/// level has been reached.
pub fn full_game_split_unlock_rooms(current_room: &str) -> (r: bool)
    ensures
        r == unlock_room_spec(current_room@),
{
    proof {
        reveal(unlock_room_spec);
    }
    str_eq(current_room, "tower_tutorial10") || str_eq(current_room, "tower_tutorial3N") || str_eq(
        current_room,
        "entrance_10",
    ) || str_eq(current_room, "medieval_10") || str_eq(current_room, "ruin_11") || str_eq(
        current_room,
        "dungeon_10",
    ) || str_eq(current_room, "badland_9") || str_eq(current_room, "graveyard_6") || str_eq(
        current_room,
        "farm_11",
    ) || str_eq(current_room, "saloon_6") || str_eq(current_room, "plage_cavern2") || str_eq(
        current_room,
        "forest_john",
    ) || str_eq(current_room, "space_9") || str_eq(current_room, "minigolf_8") || str_eq(
        current_room,
        "street_john",
    ) || str_eq(current_room, "sewer_8") || str_eq(current_room, "industrial_5") || str_eq(
        current_room,
        "freezer_escape1",
    ) || str_eq(current_room, "chateau_9") || str_eq(current_room, "kidsparty_john") || str_eq(
        current_room,
        "war_1",
    ) || str_eq(current_room, "boss_pepperman") || str_eq(current_room, "boss_vigilante") || str_eq(
        current_room,
        "boss_noise",
    ) || str_eq(current_room, "boss_fakepepkey") || str_eq(current_room, "boss_pizzaface")
}

/// Rooms whose exit marks the boundary of a level: leaving one of these while
/// entering the hub (or the results screen) is where a full-game split lands.
#[verifier::opaque]
pub open spec fn level_exit_room_spec(name: Seq<char>) -> bool {
    ||| name == "tower_tutorial1"@
    ||| name == "tower_tutorial1N"@
    ||| name == "entrance_1"@
    ||| name == "medieval_1"@
    ||| name == "ruin_1"@
    ||| name == "dungeon_1"@
    ||| name == "badland_1"@
    ||| name == "graveyard_1"@
    ||| name == "farm_2"@
    ||| name == "saloon_1"@
    ||| name == "plage_entrance"@
    ||| name == "forest_1"@
    ||| name == "minigolf_1"@
    ||| name == "space_1"@
    ||| name == "street_intro"@
    ||| name == "sewer_1"@
    ||| name == "industrial_1"@
    ||| name == "freezer_1"@
    ||| name == "chateau_1"@
    ||| name == "kidsparty_1"@
    ||| name == "war_13"@
    ||| name == "boss_pepperman"@
    ||| name == "boss_vigilante"@
    ||| name == "boss_noise"@
    ||| name == "boss_fakepepkey"@
    ||| name == "boss_pizzaface"@
    ||| name == "boss_pizzafacefinale"@
    ||| name == "rank_room"@
}

/// True when the room just exited should trigger a full-game split.
pub fn full_game_split_rooms(exited_level: &str) -> (r: bool)
    ensures
        r == level_exit_room_spec(exited_level@),
{
    proof {
        reveal(level_exit_room_spec);
    }
    str_eq(exited_level, "tower_tutorial1") || str_eq(exited_level, "tower_tutorial1N") || str_eq(
        exited_level,
        "entrance_1",
    ) || str_eq(exited_level, "medieval_1") || str_eq(exited_level, "ruin_1") || str_eq(
        exited_level,
        "dungeon_1",
    ) || str_eq(exited_level, "badland_1") || str_eq(exited_level, "graveyard_1") || str_eq(
        exited_level,
        "farm_2",
    ) || str_eq(exited_level, "saloon_1") || str_eq(exited_level, "plage_entrance") || str_eq(
        exited_level,
        "forest_1",
    ) || str_eq(exited_level, "minigolf_1") || str_eq(exited_level, "space_1") || str_eq(
        exited_level,
        "street_intro",
    ) || str_eq(exited_level, "sewer_1") || str_eq(exited_level, "industrial_1") || str_eq(
        exited_level,
        "freezer_1",
    ) || str_eq(exited_level, "chateau_1") || str_eq(exited_level, "kidsparty_1") || str_eq(
        exited_level,
        "war_13",
    ) || str_eq(exited_level, "boss_pepperman") || str_eq(exited_level, "boss_vigilante") || str_eq(
        exited_level,
        "boss_noise",
    ) || str_eq(exited_level, "boss_fakepepkey") || str_eq(exited_level, "boss_pizzaface")
        || str_eq(exited_level, "boss_pizzafacefinale") || str_eq(exited_level, "rank_room")
}

/// Each level's canonical room traversal order, for room-advance splitting:
/// the identifiers of the rooms the level visits, in order, with repeats for
/// rooms the level backtracks through.
///
/// Room identifiers index the game's own room array and shift between builds,
/// so these tables are per-build configuration to be rediscovered per
/// supported build, not values to derive; no build's table is compiled in
/// yet, so every level's sequence is still empty. A level with an empty
/// sequence leaves room-advance splitting inert.
pub open spec fn level_room_sequence_spec(level: Level) -> Seq<i32> {
    Seq::<i32>::empty()
}

/// The side table behind `level_room_sequence_spec`, keyed by level.
pub fn level_room_sequence(level: &Level) -> (sequence: Vec<i32>)
    ensures
        sequence@ == level_room_sequence_spec(*level),
{
    Vec::new()
}

} // verus!
