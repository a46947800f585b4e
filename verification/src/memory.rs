//! Sampled memory values: current/previous pairs for every watched field,
//! and the decoding of room-name byte buffers.

use vstd::prelude::*;
use vstd::utf8::{decode_utf8, valid_utf8};
use crate::pair::Pair;

verus! {

/// The position of the first zero byte, or the length when none occurs:
/// everything before it is the name, everything after it is padding.
pub open spec fn zero_cut(b: Seq<u8>) -> int
    decreases b.len(),
{
    if b.len() == 0 {
        0
    } else if b[0] == 0 {
        0
    } else {
        1 + zero_cut(b.drop_first())
    }
}

/// What `zero_cut` finds: the first zero byte, or the end of the buffer.
pub proof fn lemma_zero_cut(b: Seq<u8>)
    ensures
        0 <= zero_cut(b) <= b.len(),
        forall|j: int| 0 <= j < zero_cut(b) ==> b[j] != 0,
        zero_cut(b) < b.len() ==> b[zero_cut(b)] == 0,
    decreases b.len(),
{
    if b.len() > 0 && b[0] != 0 {
        lemma_zero_cut(b.drop_first());
        assert forall|j: int| 0 <= j < zero_cut(b) implies b[j] != 0 by {
            if j > 0 {
                assert(b.drop_first()[j - 1] != 0);
            }
        }
    }
}

/// The decoded room name: the bytes before the first zero, decoded as UTF-8
/// text; `None` when they are not valid UTF-8, which the sampler treats as a
/// failed read.
pub open spec fn decode_name_spec(b: Seq<u8>) -> Option<Seq<char>> {
    let prefix = b.take(zero_cut(b));
    if valid_utf8(prefix) {
        Some(decode_utf8(prefix))
    } else {
        None
    }
}

/// Relies on `String::from_utf8`: it succeeds exactly on valid UTF-8 input
/// and returns the text those bytes encode.
#[verifier::external_body]
fn utf8_bytes_to_string(bytes: Vec<u8>) -> (r: Option<String>)
    ensures
        r is Some <==> valid_utf8(bytes@),
        r matches Some(s) ==> s@ == decode_utf8(bytes@),
{
    match String::from_utf8(bytes) {
        Ok(s) => Some(s),
        Err(_) => None,
    }
}

/// Decode a fixed-size name buffer: truncate at the first zero byte and
/// validate the remainder as UTF-8 text.
pub fn decode_room_name(buf: &Vec<u8>) -> (r: Option<String>)
    ensures
        r is Some <==> decode_name_spec(buf@) is Some,
        r matches Some(s) ==> decode_name_spec(buf@) matches Some(cs) && s@ == cs,
{
    proof {
        lemma_zero_cut(buf@);
    }
    let len = buf.len();
    let mut cut: usize = 0;
    while cut < len && buf[cut] != 0
        invariant
            0 <= cut <= len,
            len == buf@.len(),
            forall|j: int| 0 <= j < cut ==> buf@[j] != 0,
        decreases len - cut,
    {
        cut += 1;
    }
    proof {
        assert(cut == zero_cut(buf@)) by {
            if cut < zero_cut(buf@) {
                assert(buf@[cut as int] != 0);
            }
            if zero_cut(buf@) < cut {
                assert(buf@[zero_cut(buf@)] != 0);
            }
        }
    }
    let mut prefix: Vec<u8> = Vec::new();
    let mut j: usize = 0;
    while j < cut
        invariant
            0 <= j <= cut <= len,
            len == buf@.len(),
            cut == zero_cut(buf@),
            prefix@ == buf@.take(cut as int).take(j as int),
        decreases cut - j,
    {
        prefix.push(buf[j]);
        proof {
            assert(prefix@ =~= buf@.take(cut as int).take(j + 1));
        }
        j += 1;
    }
    proof {
        assert(prefix@ =~= buf@.take(zero_cut(buf@)));
    }
    utf8_bytes_to_string(prefix)
}

/// Every watched field, wrapped in a current/previous pair. A tick that fails
/// to read a field leaves that field's pair untouched.
pub struct MemoryValues {
    /// The game's version string; sampled once, then kept.
    pub game_version: Pair<String>,
    /// The current room's numeric identifier.
    pub room_id: Pair<i32>,
    /// The current room's name.
    pub room_name: Pair<String>,
    /// Whole minutes of the save-file timer.
    pub file_minutes: Pair<i64>,
    /// Seconds component of the save-file timer, in milliseconds.
    pub file_seconds_ms: Pair<i64>,
    /// Whole minutes of the level timer.
    pub level_minutes: Pair<i64>,
    /// Seconds component of the level timer, in milliseconds.
    pub level_seconds_ms: Pair<i64>,
    /// The end-of-level fade flag.
    pub end_of_level: Pair<bool>,
    /// The current boss's health; zero outside boss fights.
    pub boss_hp: Pair<u8>,
}

/// One tick's read results, as plain values: `None` where the read failed.
/// Name fields carry the raw fixed-size buffer still to be decoded.
pub struct Readings {
    /// The room-id cell's value. The one indispensable reading.
    pub room_id: Option<i32>,
    /// The raw bytes of the game-version string.
    pub game_version_buffer: Option<Vec<u8>>,
    /// Whole minutes of the save-file timer.
    pub file_minutes: Option<i64>,
    /// Seconds component of the save-file timer, in milliseconds.
    pub file_seconds_ms: Option<i64>,
    /// Whole minutes of the level timer.
    pub level_minutes: Option<i64>,
    /// Seconds component of the level timer, in milliseconds.
    pub level_seconds_ms: Option<i64>,
    /// The raw bytes of the current room's name.
    pub room_name_buffer: Option<Vec<u8>>,
    /// The end-of-level fade flag.
    pub end_of_level: Option<bool>,
    /// The current boss's health.
    pub boss_hp: Option<u8>,
}

/// A pair accepted reading `v`: the old current value moved to previous.
pub open spec fn pair_shifted<T>(before: Pair<T>, after: Pair<T>, v: T) -> bool {
    after.previous == before.current && after.current == v
}

impl MemoryValues {
    /// The values as they stand before the first successful tick.
    pub fn startup() -> (r: MemoryValues)
        ensures
            r.game_version.current@ == Seq::<char>::empty(),
            r.game_version.previous@ == Seq::<char>::empty(),
            r.room_id.current == 0 && r.room_id.previous == 0,
            r.room_name.current@ == Seq::<char>::empty(),
            r.room_name.previous@ == Seq::<char>::empty(),
            r.file_minutes.current == 0 && r.file_minutes.previous == 0,
            r.file_seconds_ms.current == 0 && r.file_seconds_ms.previous == 0,
            r.level_minutes.current == 0 && r.level_minutes.previous == 0,
            r.level_seconds_ms.current == 0 && r.level_seconds_ms.previous == 0,
            !r.end_of_level.current && !r.end_of_level.previous,
            r.boss_hp.current == 0 && r.boss_hp.previous == 0,
    {
        MemoryValues {
            game_version: Pair { previous: String::new(), current: String::new() },
            room_id: Pair { previous: 0, current: 0 },
            room_name: Pair { previous: String::new(), current: String::new() },
            file_minutes: Pair { previous: 0, current: 0 },
            file_seconds_ms: Pair { previous: 0, current: 0 },
            level_minutes: Pair { previous: 0, current: 0 },
            level_seconds_ms: Pair { previous: 0, current: 0 },
            end_of_level: Pair { previous: false, current: false },
            boss_hp: Pair { previous: 0, current: 0 },
        }
    }

    /// Fold one tick's readings into the watched pairs.
    ///
    /// Without a room id the tick is rejected and nothing changes — run
    /// tracking is impossible without it. Otherwise every field with a
    /// successful reading shifts its pair; a field whose read failed (or
    /// whose name buffer did not decode) silently holds both halves of its
    /// pair. The version string is sampled only until it is known.
    pub fn refresh_mem_values(&mut self, readings: &Readings) -> (ok: bool)
        ensures
            ok == (readings.room_id is Some),
            !ok ==> *final(self) == *old(self),
            ok ==> {
                &&& pair_shifted(old(self).room_id, final(self).room_id, readings.room_id->0)
                &&& (match readings.file_minutes {
                    Some(v) => pair_shifted(old(self).file_minutes, final(self).file_minutes, v),
                    None => final(self).file_minutes == old(self).file_minutes,
                })
                &&& (match readings.file_seconds_ms {
                    Some(v) => pair_shifted(
                        old(self).file_seconds_ms,
                        final(self).file_seconds_ms,
                        v,
                    ),
                    None => final(self).file_seconds_ms == old(self).file_seconds_ms,
                })
                &&& (match readings.level_minutes {
                    Some(v) => pair_shifted(old(self).level_minutes, final(self).level_minutes, v),
                    None => final(self).level_minutes == old(self).level_minutes,
                })
                &&& (match readings.level_seconds_ms {
                    Some(v) => pair_shifted(
                        old(self).level_seconds_ms,
                        final(self).level_seconds_ms,
                        v,
                    ),
                    None => final(self).level_seconds_ms == old(self).level_seconds_ms,
                })
                &&& (match readings.end_of_level {
                    Some(v) => pair_shifted(old(self).end_of_level, final(self).end_of_level, v),
                    None => final(self).end_of_level == old(self).end_of_level,
                })
                &&& (match readings.boss_hp {
                    Some(v) => pair_shifted(old(self).boss_hp, final(self).boss_hp, v),
                    None => final(self).boss_hp == old(self).boss_hp,
                })
                &&& (match readings.room_name_buffer {
                    Some(b) => match decode_name_spec(b@) {
                        Some(cs) => final(self).room_name.previous@ == old(
                            self,
                        ).room_name.current@ && final(self).room_name.current@ == cs,
                        None => final(self).room_name == old(self).room_name,
                    },
                    None => final(self).room_name == old(self).room_name,
                })
                &&& (if old(self).game_version.current@ == Seq::<char>::empty() {
                    match readings.game_version_buffer {
                        Some(b) => match decode_name_spec(b@) {
                            Some(cs) => final(self).game_version.current@ == cs,
                            None => final(self).game_version == old(self).game_version,
                        },
                        None => final(self).game_version == old(self).game_version,
                    }
                } else {
                    final(self).game_version == old(self).game_version
                })
            },
    {
        let id = match readings.room_id {
            Some(id) => id,
            None => {
                return false;
            },
        };
        self.room_id.shift(id);
        proof {
            if self.game_version.current@.len() == 0 {
                assert(self.game_version.current@ =~= Seq::<char>::empty());
            }
        }
        if self.game_version.current.as_str().is_empty() {
            match &readings.game_version_buffer {
                Some(b) => match decode_room_name(b) {
                    Some(s) => self.game_version.shift(s),
                    None => {},
                },
                None => {},
            }
        }
        match readings.file_minutes {
            Some(v) => self.file_minutes.shift(v),
            None => {},
        }
        match readings.file_seconds_ms {
            Some(v) => self.file_seconds_ms.shift(v),
            None => {},
        }
        match readings.level_minutes {
            Some(v) => self.level_minutes.shift(v),
            None => {},
        }
        match readings.level_seconds_ms {
            Some(v) => self.level_seconds_ms.shift(v),
            None => {},
        }
        match &readings.room_name_buffer {
            Some(b) => match decode_room_name(b) {
                Some(s) => self.room_name.shift(s),
                None => {},
            },
            None => {},
        }
        match readings.end_of_level {
            Some(v) => self.end_of_level.shift(v),
            None => {},
        }
        match readings.boss_hp {
            Some(v) => self.boss_hp.shift(v),
            None => {},
        }
        true
    }
}

} // verus!
