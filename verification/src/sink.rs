//! The boundary to the audio sink: the raw volumes of the sound server
//! against percentages and levels.
//!
//! The sound server counts volume in raw units, with `VOLUME_NORM` units for
//! 100%. A sink also has a mute flag beside its volume.

use crate::volume::VolumeLevel;
use vstd::prelude::*;

verus! {

/// The raw volume at which a sink plays at 100%.
pub const VOLUME_NORM: u32 = 0x10000;

/// The raw volume of a percentage, rounded down.
pub open spec fn raw_of_percent(percent: int) -> int {
    percent * VOLUME_NORM / 100
}

/// The percentage of a raw volume, rounded to the nearest whole number.
pub open spec fn percent_of_raw(raw: int) -> int {
    (raw * 100 + VOLUME_NORM / 2) / (VOLUME_NORM as int)
}

/// The raw volume that stands for a percentage: `percent * VOLUME_NORM / 100`,
/// rounded down. 5% is 3276, 100% is `VOLUME_NORM`.
pub fn volume_from_percent(percent: u8) -> (raw: u32)
    ensures
        raw == raw_of_percent(percent as int),
{
    let scaled: u32 = percent as u32 * VOLUME_NORM;
    scaled / 100
}

/// The percentage that a raw volume stands for, rounded to the nearest whole
/// number. A sink can be louder than 100%.
pub fn percent_from_volume(raw: u32) -> (percent: u32)
    ensures
        percent == percent_of_raw(raw as int),
{
    let scaled: u64 = raw as u64 * 100 + (VOLUME_NORM / 2) as u64;
    let percent: u64 = scaled / (VOLUME_NORM as u64);
    percent as u32
}

impl VolumeLevel {
    /// The level of a sink with the given raw volume and mute flag: `Muted`
    /// where the flag is set or the volume rounds to 0%, and the percentage
    /// otherwise, held to the ceiling.
    pub open spec fn of_sink(raw: u32, muted: bool) -> VolumeLevel {
        if muted {
            VolumeLevel::Muted
        } else {
            VolumeLevel::of_percent(percent_of_raw(raw as int))
        }
    }

    /// The raw volume to set on a sink for this level, 0 for `Muted`.
    pub open spec fn raw(self) -> int {
        raw_of_percent(self.percent())
    }

    /// Reads a level off a sink's raw volume and mute flag.
    pub fn from_sink(raw: u32, muted: bool) -> (level: VolumeLevel)
        ensures
            level == VolumeLevel::of_sink(raw, muted),
            level.wf(),
    {
        if muted {
            VolumeLevel::Muted
        } else {
            let percent = percent_from_volume(raw);
            if percent >= 100 {
                VolumeLevel::from_percent(100)
            } else {
                VolumeLevel::from_percent(percent as u8)
            }
        }
    }

    /// The raw volume to set on a sink for this level.
    pub fn to_raw(self) -> (raw: u32)
        ensures
            raw == self.raw(),
    {
        volume_from_percent(self.to_percent())
    }
}

/// A percentage survives the way to a raw volume and back.
pub proof fn lemma_percent_round_trip(percent: u8)
    ensures
        percent_of_raw(raw_of_percent(percent as int)) == percent,
{
}

/// A valid level that is set on an unmuted sink is the level that is read off
/// it again.
pub proof fn lemma_level_round_trip(level: VolumeLevel)
    requires
        level.wf(),
    ensures
        0 <= level.raw() <= VOLUME_NORM,
        VolumeLevel::of_sink(level.raw() as u32, false) == level,
{
    match level {
        VolumeLevel::Muted => {},
        VolumeLevel::Value(v) => {
            lemma_percent_round_trip(v);
        },
    }
}

} // verus!
