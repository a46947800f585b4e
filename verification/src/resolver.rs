//! Address recipes: the compiled-in byte patterns for each watched field and
//! the offset arithmetic that turns a pattern match into a final address.
//!
//! Each recipe follows the same shape: scan for the field's pattern, read a
//! small relative-pointer slot at a fixed offset from the match, and compute
//! `match + instruction length + relative offset`, optionally minus the main
//! module's base when the field is stored module-relative.

use vstd::prelude::*;
use crate::scanner::{Pattern, PatternByte};

verus! {

/// A concrete pattern byte.
pub open spec fn lit_spec(value: u8) -> PatternByte {
    PatternByte { value, wildcard: false }
}

/// A wildcard pattern byte.
pub open spec fn wild_spec() -> PatternByte {
    PatternByte { value: 0, wildcard: true }
}

fn push_lit(entries: &mut Vec<PatternByte>, value: u8)
    ensures
        final(entries)@ == old(entries)@.push(lit_spec(value)),
{
    entries.push(PatternByte { value, wildcard: false });
}

fn push_wild(entries: &mut Vec<PatternByte>)
    ensures
        final(entries)@ == old(entries)@.push(wild_spec()),
{
    entries.push(PatternByte { value: 0, wildcard: true });
}

/// The signature that locates the instruction referring to the current room id.
pub open spec fn room_id_pattern_spec() -> Seq<PatternByte> {
    seq![
        lit_spec(0x89),
        lit_spec(0x3D),
        wild_spec(),
        wild_spec(),
        wild_spec(),
        wild_spec(),
        lit_spec(0x48),
        lit_spec(0x3B),
        lit_spec(0x1D),
    ]
}

/// Build the room-id signature.
pub fn room_id_pattern() -> (p: Pattern)
    ensures
        p.entries@ == room_id_pattern_spec(),
{
    let mut entries: Vec<PatternByte> = Vec::new();
    push_lit(&mut entries, 0x89);
    push_lit(&mut entries, 0x3D);
    push_wild(&mut entries);
    push_wild(&mut entries);
    push_wild(&mut entries);
    push_wild(&mut entries);
    push_lit(&mut entries, 0x48);
    push_lit(&mut entries, 0x3B);
    push_lit(&mut entries, 0x1D);
    proof {
        assert(entries@ =~= room_id_pattern_spec());
    }
    Pattern { entries }
}

/// The signature that locates the instruction referring to the array of all
/// room names.
pub open spec fn room_name_array_pattern_spec() -> Seq<PatternByte> {
    seq![
        lit_spec(0x74),
        lit_spec(0x0C),
        lit_spec(0x48),
        lit_spec(0x8B),
        lit_spec(0x05),
        wild_spec(),
        wild_spec(),
        wild_spec(),
        wild_spec(),
        lit_spec(0x48),
        lit_spec(0x8B),
        lit_spec(0x04),
        lit_spec(0xD0),
    ]
}

/// Build the room-name-array signature.
pub fn room_name_array_pattern() -> (p: Pattern)
    ensures
        p.entries@ == room_name_array_pattern_spec(),
{
    let mut entries: Vec<PatternByte> = Vec::new();
    push_lit(&mut entries, 0x74);
    push_lit(&mut entries, 0x0C);
    push_lit(&mut entries, 0x48);
    push_lit(&mut entries, 0x8B);
    push_lit(&mut entries, 0x05);
    push_wild(&mut entries);
    push_wild(&mut entries);
    push_wild(&mut entries);
    push_wild(&mut entries);
    push_lit(&mut entries, 0x48);
    push_lit(&mut entries, 0x8B);
    push_lit(&mut entries, 0x04);
    push_lit(&mut entries, 0xD0);
    proof {
        assert(entries@ =~= room_name_array_pattern_spec());
    }
    Pattern { entries }
}

/// The magic numbers that open the extended-timer data block. Half of the
/// block's full marker is enough to identify it.
pub open spec fn buffer_magic_pattern_spec() -> Seq<PatternByte> {
    seq![
        lit_spec(0xC2),
        lit_spec(0x5A),
        lit_spec(0x17),
        lit_spec(0x65),
        lit_spec(0xBE),
        lit_spec(0x4D),
        lit_spec(0xDF),
        lit_spec(0xD6),
        lit_spec(0xF2),
        lit_spec(0x1C),
        lit_spec(0xD1),
        lit_spec(0x3B),
        lit_spec(0xA7),
        lit_spec(0xA6),
        lit_spec(0x1F),
        lit_spec(0xC3),
    ]
}

/// Build the extended-timer-block signature.
pub fn buffer_magic_pattern() -> (p: Pattern)
    ensures
        p.entries@ == buffer_magic_pattern_spec(),
{
    let mut entries: Vec<PatternByte> = Vec::new();
    push_lit(&mut entries, 0xC2);
    push_lit(&mut entries, 0x5A);
    push_lit(&mut entries, 0x17);
    push_lit(&mut entries, 0x65);
    push_lit(&mut entries, 0xBE);
    push_lit(&mut entries, 0x4D);
    push_lit(&mut entries, 0xDF);
    push_lit(&mut entries, 0xD6);
    push_lit(&mut entries, 0xF2);
    push_lit(&mut entries, 0x1C);
    push_lit(&mut entries, 0xD1);
    push_lit(&mut entries, 0x3B);
    push_lit(&mut entries, 0xA7);
    push_lit(&mut entries, 0xA6);
    push_lit(&mut entries, 0x1F);
    push_lit(&mut entries, 0xC3);
    proof {
        assert(entries@ =~= buffer_magic_pattern_spec());
    }
    Pattern { entries }
}

/// The absolute address of a match found at `offset` inside the region that
/// starts at `region_base`. `None` when the sum leaves the address space.
pub fn match_address(region_base: u64, offset: usize) -> (r: Option<u64>)
    ensures
        r matches Some(a) ==> a == region_base + offset,
        r is Some <==> region_base + offset <= u64::MAX,
{
    region_base.checked_add(offset as u64)
}

/// The room-id cell's module-relative address, from the signature match.
///
/// The relative-pointer slot sits two bytes into the matched instruction; the
/// instruction is six bytes long, and the cell's absolute address is
/// `match + 6 + slot value`. The cell is stored module-relative, so the main
/// module's base is subtracted. `None` when the arithmetic leaves the address
/// space, which only a bogus match produces.
pub fn room_id_address_from_match(match_addr: u64, rel_offset: u32, main_base: u64) -> (r: Option<
    u64,
>)
    ensures
        r matches Some(a) ==> a == match_addr + 6 + rel_offset - main_base,
        r is Some <==> match_addr + 6 + rel_offset <= u64::MAX && match_addr + 6 + rel_offset
            >= main_base,
{
    match match_addr.checked_add(6) {
        Some(s) => match s.checked_add(rel_offset as u64) {
            Some(t) => t.checked_sub(main_base),
            None => None,
        },
        None => None,
    }
}

/// The address of the pointer cell that holds the room-name table's base,
/// from the signature match.
///
/// The relative-pointer slot sits five bytes into the matched instruction;
/// the instruction is nine bytes long, so the cell sits at
/// `match + 9 + slot value`. The cell's own 64-bit content (read by the
/// caller) is the table's true base.
pub fn room_name_pointer_from_match(match_addr: u64, rel_offset: u32) -> (r: Option<u64>)
    ensures
        r matches Some(a) ==> a == match_addr + 9 + rel_offset,
        r is Some <==> match_addr + 9 + rel_offset <= u64::MAX,
{
    match match_addr.checked_add(9) {
        Some(s) => s.checked_add(rel_offset as u64),
        None => None,
    }
}

/// The address of the pointer to room number `room_id`'s name, inside the
/// room-name table: one 64-bit entry per room. Negative room ids index
/// nothing and give `None`.
pub fn room_name_entry_address(table_base: u64, room_id: i32) -> (r: Option<u64>)
    ensures
        r matches Some(a) ==> a == table_base + room_id * 8,
        r is Some <==> 0 <= room_id && table_base + room_id * 8 <= u64::MAX,
{
    if room_id < 0 {
        return None;
    }
    match (room_id as u64).checked_mul(8) {
        Some(scaled) => table_base.checked_add(scaled),
        None => None,
    }
}

/// A field of the extended-timer data block, addressed at a fixed offset from
/// the block's magic numbers.
#[derive(Clone, Copy, PartialEq, Eq, Structural, Debug)]
pub enum BufferField {
    GameVersion,
    FileMinutes,
    FileSeconds,
    LevelMinutes,
    LevelSeconds,
    RoomName,
    EndOfLevel,
    BossHp,
}

/// Each field's fixed offset from the start of the block.
pub open spec fn buffer_field_offset_spec(field: BufferField) -> u64 {
    match field {
        BufferField::GameVersion => 0x40,
        BufferField::FileMinutes => 0x80,
        BufferField::FileSeconds => 0x88,
        BufferField::LevelMinutes => 0x90,
        BufferField::LevelSeconds => 0x98,
        BufferField::RoomName => 0xA0,
        BufferField::EndOfLevel => 0xE0,
        BufferField::BossHp => 0xE1,
    }
}

/// The address of one field of the extended-timer block that starts at
/// `helper_base`.
pub fn buffer_field_address(helper_base: u64, field: BufferField) -> (r: Option<u64>)
    ensures
        r matches Some(a) ==> a == helper_base + buffer_field_offset_spec(field),
        r is Some <==> helper_base + buffer_field_offset_spec(field) <= u64::MAX,
{
    let offset: u64 = match field {
        BufferField::GameVersion => 0x40,
        BufferField::FileMinutes => 0x80,
        BufferField::FileSeconds => 0x88,
        BufferField::LevelMinutes => 0x90,
        BufferField::LevelSeconds => 0x98,
        BufferField::RoomName => 0xA0,
        BufferField::EndOfLevel => 0xE0,
        BufferField::BossHp => 0xE1,
    };
    helper_base.checked_add(offset)
}

/// Where the room name is read from: the extended-timer block when its scan
/// succeeded, else the room-name table, else nowhere. An explicit two-tier
/// fallback, never a silent one.
#[derive(Clone, Copy, PartialEq, Eq, Structural, Debug)]
pub enum RoomNameSource {
    /// The extended-timer block at this base holds the name directly.
    Buffer(u64),
    /// The name is found through the room-name table at this base.
    Table(u64),
    /// Neither scan succeeded; the name cannot be sampled.
    Unresolved,
}

/// The two-tier choice itself: the extended-timer block is preferred, the
/// table is the fallback.
pub open spec fn room_name_source_spec(
    buffer_helper: Option<u64>,
    names_table: Option<u64>,
) -> RoomNameSource {
    if buffer_helper is Some {
        RoomNameSource::Buffer(buffer_helper->0)
    } else if names_table is Some {
        RoomNameSource::Table(names_table->0)
    } else {
        RoomNameSource::Unresolved
    }
}

/// Pick the room-name source from what the two optional scans yielded.
pub fn choose_room_name_source(buffer_helper: Option<u64>, names_table: Option<u64>) -> (r:
    RoomNameSource)
    ensures
        r == room_name_source_spec(buffer_helper, names_table),
{
    match buffer_helper {
        Some(b) => RoomNameSource::Buffer(b),
        None => match names_table {
            Some(t) => RoomNameSource::Table(t),
            None => RoomNameSource::Unresolved,
        },
    }
}

/// The addresses a resolution attempt yields. Optional fields stay `None`
/// when their scan failed; only the room-id address is indispensable.
pub struct ResolvedAddresses {
    /// The main module's base address.
    pub main_base: u64,
    /// The room-id cell's address, relative to the main module's base.
    pub room_id_rel: Option<u64>,
    /// The room-name table's base address.
    pub room_names_table: Option<u64>,
    /// The extended-timer data block's base address.
    pub buffer_helper: Option<u64>,
}

impl ResolvedAddresses {
    /// Addresses as they stand before any resolution attempt.
    pub fn unresolved(main_base: u64) -> (r: ResolvedAddresses)
        ensures
            r.main_base == main_base,
            r.room_id_rel is None,
            r.room_names_table is None,
            r.buffer_helper is None,
    {
        ResolvedAddresses {
            main_base,
            room_id_rel: None,
            room_names_table: None,
            buffer_helper: None,
        }
    }

    /// Run tracking needs the room id; without its address nothing works.
    pub open spec fn room_id_resolved(self) -> bool {
        self.room_id_rel is Some
    }

    /// The absolute address of the room-id cell.
    pub fn room_id_absolute(&self) -> (r: Option<u64>)
        ensures
            self.room_id_rel is None ==> r is None,
            self.room_id_rel matches Some(rel) ==> {
                &&& r matches Some(a) ==> a == self.main_base + rel
                &&& r is Some <==> self.main_base + rel <= u64::MAX
            },
    {
        match self.room_id_rel {
            Some(rel) => self.main_base.checked_add(rel),
            None => None,
        }
    }
}

} // verus!
