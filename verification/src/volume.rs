//! The volume state model: a level that is either muted or a percentage, and
//! the two transitions that a press of the volume control can cause.

use vstd::math::min;
use vstd::prelude::*;

verus! {

/// The loudest level, in percent.
pub const MAX_PERCENT: u8 = 100;

/// The audible output level: silent, or a percentage from 1 to 100.
///
/// Silence has a tag of its own. It is never written as `Value(0)`.
#[derive(Clone, Copy, Debug, PartialEq, Eq, Structural)]
pub enum VolumeLevel {
    Muted,
    Value(u8),
}

impl VolumeLevel {
    /// A concrete percentage lies between 1 and 100.
    pub open spec fn wf(self) -> bool {
        self matches VolumeLevel::Value(v) ==> 1 <= v <= MAX_PERCENT
    }

    /// The level as a number of percentage points, with 0 for `Muted`.
    pub open spec fn percent(self) -> int {
        match self {
            VolumeLevel::Muted => 0,
            VolumeLevel::Value(v) => v as int,
        }
    }

    /// The level that stands for a number of percentage points: nothing or
    /// less is silence, and whatever exceeds the ceiling is the ceiling.
    pub open spec fn of_percent(p: int) -> VolumeLevel {
        if p <= 0 {
            VolumeLevel::Muted
        } else if p >= MAX_PERCENT {
            VolumeLevel::Value(MAX_PERCENT)
        } else {
            VolumeLevel::Value(p as u8)
        }
    }

    /// The level after one press of "volume up" with the given step.
    ///
    /// From silence the level jumps to one step, whatever it was before the
    /// mute. A concrete level rises by the step and stops at the ceiling.
    pub open spec fn incremented(self, step: u8) -> VolumeLevel {
        match self {
            VolumeLevel::Muted => VolumeLevel::of_percent(step as int),
            VolumeLevel::Value(v) => VolumeLevel::Value(min(v + step, MAX_PERCENT as int) as u8),
        }
    }

    /// The level after one press of "volume down" with the given step.
    ///
    /// Silence stays silence. A concrete level that is no more than one step
    /// above nothing collapses to `Muted`; any other falls by the step.
    pub open spec fn decremented(self, step: u8) -> VolumeLevel {
        match self {
            VolumeLevel::Muted => VolumeLevel::Muted,
            VolumeLevel::Value(v) => if v <= step {
                VolumeLevel::Muted
            } else {
                VolumeLevel::Value((v - step) as u8)
            },
        }
    }

    /// Builds the level for a percentage: 0 gives `Muted`, and a percentage
    /// above 100 gives the ceiling.
    pub fn from_percent(percent: u8) -> (level: VolumeLevel)
        ensures
            level == VolumeLevel::of_percent(percent as int),
            level.wf(),
            percent <= MAX_PERCENT ==> level.percent() == percent,
    {
        if percent == 0 {
            VolumeLevel::Muted
        } else if percent >= MAX_PERCENT {
            VolumeLevel::Value(MAX_PERCENT)
        } else {
            VolumeLevel::Value(percent)
        }
    }

    /// Whether this level is a valid one: `Muted`, or a percentage from 1 to
    /// 100.
    pub fn is_valid(self) -> (valid: bool)
        ensures
            valid == self.wf(),
    {
        match self {
            VolumeLevel::Muted => true,
            VolumeLevel::Value(v) => 1 <= v && v <= MAX_PERCENT,
        }
    }

    /// The percentage of this level, 0 when muted.
    pub fn to_percent(self) -> (percent: u8)
        ensures
            percent == self.percent(),
    {
        match self {
            VolumeLevel::Muted => 0,
            VolumeLevel::Value(v) => v,
        }
    }

    /// Whether this level is silence.
    pub fn is_muted(self) -> (muted: bool)
        ensures
            muted <==> self is Muted,
    {
        match self {
            VolumeLevel::Muted => true,
            VolumeLevel::Value(_) => false,
        }
    }

    /// One press of "volume up".
    ///
    /// `Muted` becomes `Value(step)`; `Value(v)` becomes
    /// `Value(min(v + step, 100))`. A step of 0 leaves every level as it is,
    /// and a step above 100 reaches the ceiling from anywhere.
    pub fn increment(self, step: u8) -> (next: VolumeLevel)
        requires
            self.wf(),
        ensures
            next == self.incremented(step),
            next.wf(),
            self is Muted && 1 <= step <= MAX_PERCENT ==> next == VolumeLevel::Value(step),
            self matches VolumeLevel::Value(v) ==> next == VolumeLevel::Value(
                min(v + step, MAX_PERCENT as int) as u8,
            ),
    {
        match self {
            VolumeLevel::Muted => VolumeLevel::from_percent(step),
            VolumeLevel::Value(v) => {
                if step >= MAX_PERCENT - v {
                    VolumeLevel::Value(MAX_PERCENT)
                } else {
                    VolumeLevel::Value(v + step)
                }
            },
        }
    }

    /// One press of "volume down".
    ///
    /// `Muted` stays `Muted`; `Value(v)` becomes `Muted` where `v <= step`,
    /// and `Value(v - step)` otherwise.
    pub fn decrement(self, step: u8) -> (next: VolumeLevel)
        requires
            self.wf(),
        ensures
            next == self.decremented(step),
            next.wf(),
            self is Muted ==> next is Muted,
            self matches VolumeLevel::Value(v) ==> next == if v <= step {
                VolumeLevel::Muted
            } else {
                VolumeLevel::Value((v - step) as u8)
            },
    {
        match self {
            VolumeLevel::Muted => VolumeLevel::Muted,
            VolumeLevel::Value(v) => {
                if v <= step {
                    VolumeLevel::Muted
                } else {
                    VolumeLevel::Value(v - step)
                }
            },
        }
    }
}

/// Below the ceiling a press of "volume up" adds the step: with a step of 5,
/// every level from 1 to 95 rises by 5.
pub proof fn lemma_increment_adds_step(v: u8, step: u8)
    requires
        1 <= v,
        v + step <= MAX_PERCENT,
    ensures
        VolumeLevel::Value(v).incremented(step) == VolumeLevel::Value((v + step) as u8),
{
}

/// A press of "volume up" that would pass the ceiling stops at it: with a
/// step of 5, every level from 96 to 100 rises to 100.
pub proof fn lemma_increment_stops_at_ceiling(v: u8, step: u8)
    requires
        1 <= v <= MAX_PERCENT,
        v + step > MAX_PERCENT,
    ensures
        VolumeLevel::Value(v).incremented(step) == VolumeLevel::Value(MAX_PERCENT),
{
}

/// From silence a press of "volume up" leads to exactly one step.
pub proof fn lemma_increment_from_muted(step: u8)
    requires
        1 <= step <= MAX_PERCENT,
    ensures
        VolumeLevel::Muted.incremented(step) == VolumeLevel::Value(step),
{
}

/// A level of no more than one step collapses to `Muted` on a press of
/// "volume down": with a step of 5, every level from 1 to 5.
pub proof fn lemma_decrement_collapses_to_muted(v: u8, step: u8)
    requires
        1 <= v <= step,
    ensures
        VolumeLevel::Value(v).decremented(step) == VolumeLevel::Muted,
{
}

/// A level of more than one step falls by the step on a press of "volume
/// down": with a step of 5, every level above 5.
pub proof fn lemma_decrement_subtracts_step(v: u8, step: u8)
    requires
        v > step,
    ensures
        VolumeLevel::Value(v).decremented(step) == VolumeLevel::Value((v - step) as u8),
{
}

/// A press of "volume down" in silence changes nothing, however often it is
/// repeated.
pub proof fn lemma_decrement_muted_is_idempotent(step: u8)
    ensures
        VolumeLevel::Muted.decremented(step) == VolumeLevel::Muted,
        VolumeLevel::Muted.decremented(step).decremented(step) == VolumeLevel::Muted,
{
}

/// A press of "volume up" at the ceiling changes nothing, however often it is
/// repeated.
pub proof fn lemma_increment_ceiling_is_idempotent(step: u8)
    ensures
        VolumeLevel::Value(MAX_PERCENT).incremented(step) == VolumeLevel::Value(MAX_PERCENT),
        VolumeLevel::Value(MAX_PERCENT).incremented(step).incremented(step) == VolumeLevel::Value(
            MAX_PERCENT,
        ),
{
}

/// Both transitions keep a valid level valid: no press leads above the
/// ceiling, and none to a percentage of 0.
pub proof fn lemma_transitions_keep_validity(level: VolumeLevel, step: u8)
    requires
        level.wf(),
    ensures
        level.incremented(step).wf(),
        level.decremented(step).wf(),
{
}

/// On valid levels the two transitions are addition and subtraction of the
/// step on the percentage, held between silence and the ceiling.
pub proof fn lemma_transitions_saturate(level: VolumeLevel, step: u8)
    requires
        level.wf(),
    ensures
        level.incremented(step) == VolumeLevel::of_percent(level.percent() + step),
        level.decremented(step) == VolumeLevel::of_percent(level.percent() - step),
{
}

} // verus!
