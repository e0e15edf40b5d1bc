//! The gain of a clip at each of its frames: fades at its start and end and
//! at each repetition.

use vstd::prelude::*;

verus! {

/// A gain between silence and full level: `num / den`.
#[derive(Copy, Clone, Debug, PartialEq, Eq, Structural)]
pub struct FadeFactor {
    pub num: u64,
    pub den: u64,
}

impl FadeFactor {
    /// Silence.
    pub open spec fn silent() -> FadeFactor {
        FadeFactor { num: 0, den: 1 }
    }

    /// Full level.
    pub open spec fn full() -> FadeFactor {
        FadeFactor { num: 1, den: 1 }
    }

    /// Whether the gain is a number between zero and one.
    pub open spec fn is_gain(self) -> bool {
        self.den > 0 && self.num <= self.den
    }
}

/// The gain of a linear fade of the given length at a distance from its
/// silent end: silence at the end and beyond it, full level from the
/// length on, and rising in between.
pub open spec fn ramp_spec(distance: int, length: u64) -> FadeFactor {
    if distance <= 0 {
        FadeFactor::silent()
    } else if distance >= length {
        FadeFactor::full()
    } else {
        FadeFactor { num: distance as u64, den: length }
    }
}

/// The gain of a linear fade at a distance from its silent end.
pub fn ramp(distance: i128, length: u64) -> (r: FadeFactor)
    ensures
        r == ramp_spec(distance as int, length),
        r.is_gain(),
{
    if distance <= 0 {
        FadeFactor { num: 0, den: 1 }
    } else if distance >= length as i128 {
        FadeFactor { num: 1, den: 1 }
    } else {
        FadeFactor { num: distance as u64, den: length }
    }
}

impl FadeFactor {
    /// Two gains, one after the other.
    pub open spec fn times_spec(self, other: FadeFactor) -> FadeFactor {
        FadeFactor { num: (self.num * other.num) as u64, den: (self.den * other.den) as u64 }
    }

    /// Applies one gain after another. Both are gains of fades whose
    /// lengths fit into 32 bits, so that the product fits.
    pub(crate) fn times(self, other: FadeFactor) -> (r: FadeFactor)
        requires
            self.is_gain(),
            other.is_gain(),
            self.den <= u32::MAX,
            other.den <= u32::MAX,
        ensures
            r == self.times_spec(other),
            r.is_gain(),
    {
        assert(self.num * other.num <= self.den * other.den <= u64::MAX) by (nonlinear_arith)
            requires
                self.num <= self.den <= u32::MAX,
                other.num <= other.den <= u32::MAX,
        ;
        assert(self.den * other.den > 0) by (nonlinear_arith)
            requires
                self.den > 0,
                other.den > 0,
        ;
        FadeFactor { num: self.num * other.num, den: self.den * other.den }
    }
}

/// Works out the gain at each position of a clip that plays from position
/// zero to `end_pos`.
#[derive(Copy, Clone, Debug, PartialEq, Eq, Structural)]
pub struct FadeCalculator {
    /// End position, relative to start position zero: the fade out ends
    /// here.
    pub end_pos: u64,
    /// Clip length, which says where the repetitions are.
    pub clip_length: u64,
    /// How far into the clip position zero lies.
    pub clip_cursor_offset: u64,
    /// Length of the start fade-in and end fade-out.
    pub start_end_fade_length: u64,
    /// Length of the fade-ins and fade-outs at a repetition.
    pub intermediate_fade_length: u64,
}

impl FadeCalculator {
    /// The place of a position within the clip.
    pub open spec fn pos_within_clip(self, current_pos: u64) -> u64 {
        ((current_pos + self.clip_cursor_offset) % self.clip_length as int) as u64
    }

    /// The gain at a position.
    ///
    /// - Before the start and from the end on: silence.
    /// - Within the fade length after the start: rising from silence.
    /// - Within the fade length before the end: falling to silence.
    /// - Within the repetition fade length before the end of the clip's
    ///   length: falling; within it after the start of a repetition: rising.
    /// - Anywhere else: full level.
    pub open spec fn fade_factor_spec(self, current_pos: i64) -> FadeFactor {
        if current_pos < 0 || current_pos as u64 >= self.end_pos {
            FadeFactor::silent()
        } else if (current_pos as u64) < self.start_end_fade_length {
            FadeFactor { num: current_pos as u64, den: self.start_end_fade_length }
        } else if self.end_pos - current_pos < self.start_end_fade_length {
            FadeFactor {
                num: (self.end_pos - current_pos) as u64,
                den: self.start_end_fade_length,
            }
        } else if self.clip_length == 0 {
            FadeFactor::full()
        } else if self.clip_length - self.pos_within_clip(current_pos as u64)
            < self.intermediate_fade_length {
            FadeFactor {
                num: (self.clip_length - self.pos_within_clip(current_pos as u64)) as u64,
                den: self.intermediate_fade_length,
            }
        } else if self.pos_within_clip(current_pos as u64) < self.intermediate_fade_length {
            FadeFactor {
                num: self.pos_within_clip(current_pos as u64),
                den: self.intermediate_fade_length,
            }
        } else {
            FadeFactor::full()
        }
    }

    /// The gain at a position. It is always a number between zero and one.
    pub fn calculate_fade_factor(&self, current_pos: i64) -> (r: FadeFactor)
        ensures
            r == self.fade_factor_spec(current_pos),
            r.is_gain(),
    {
        if current_pos < 0 {
            // Not yet playing
            return FadeFactor { num: 0, den: 1 };
        }
        let current_pos = current_pos as u64;
        if current_pos >= self.end_pos {
            // Not playing anymore
            return FadeFactor { num: 0, den: 1 };
        }
        // First, apply start-end fades (they have priority over intermediate fades).
        if current_pos < self.start_end_fade_length {
            // Playing the beginning: Fade in
            return FadeFactor { num: current_pos, den: self.start_end_fade_length };
        }
        let distance_to_end = self.end_pos - current_pos;
        if distance_to_end < self.start_end_fade_length {
            // Playing the end: Fade out
            return FadeFactor { num: distance_to_end, den: self.start_end_fade_length };
        }
        if self.clip_length == 0 {
            return FadeFactor { num: 1, den: 1 };
        }
        // Intermediate repetition fades
        let current_pos_within_clip = ((current_pos as u128 + self.clip_cursor_offset as u128)
            % self.clip_length as u128) as u64;
        let distance_to_clip_end = self.clip_length - current_pos_within_clip;
        if distance_to_clip_end < self.intermediate_fade_length {
            // Approaching loop end: Fade out
            return FadeFactor { num: distance_to_clip_end, den: self.intermediate_fade_length };
        }
        if current_pos_within_clip < self.intermediate_fade_length {
            // Continuing at loop start: Fade in
            return FadeFactor { num: current_pos_within_clip, den: self.intermediate_fade_length };
        }
        // Normal playing
        FadeFactor { num: 1, den: 1 }
    }
}

} // verus!
