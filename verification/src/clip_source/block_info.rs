//! What is known of one block and of a source before it is played.

use vstd::prelude::*;
use crate::clip_source::block::BlockRequest;
use crate::clip_source::source::ClipPcmSource;
use crate::clip_source::state::{CursorInfo, Repetition, ResolvedPlayData};
use crate::supplier::material::SourceMaterial;
use crate::units::{
    advance, clamp_i64, convert_duration_in_frames_to_seconds,
    convert_duration_in_seconds_to_frames, convert_position_in_frames_to_seconds,
    frames_to_nanos_spec, nanos_to_frames_spec, scale, scale_floor, scale_floor_spec, scale_spec,
    signed_frames_to_nanos_spec, TempoFactor,
};

verus! {

/// A play position with the place of the timeline's cursor, the length of
/// the clip at the tempo of the timeline, and how the clip repeats.
#[derive(Copy, Clone, Debug, PartialEq, Eq, Structural)]
pub struct CursorAndLengthInfo {
    pub cursor_info: CursorInfo,
    /// This is the effective clip length in nanoseconds, not the native
    /// one.
    pub clip_length: u64,
    pub repetition: Repetition,
}

impl ClipPcmSource {
    /// What is known of the clip at a play position, with the cursor of the
    /// timeline at `timeline_cursor_pos` and its tempo `timeline_tempo`.
    pub fn create_cursor_and_length_info_at(
        &self,
        play_info: ResolvedPlayData,
        timeline_cursor_pos: i64,
        timeline_tempo: u32,
    ) -> (r: CursorAndLengthInfo)
        ensures
            r == (CursorAndLengthInfo {
                cursor_info: CursorInfo { timeline_cursor_pos, play_info },
                clip_length: self.clip_length_spec(timeline_tempo),
                repetition: self.repetition,
            }),
    {
        let cursor_info = play_info.cursor_info_at(timeline_cursor_pos);
        self.create_cursor_and_length_info(cursor_info, timeline_tempo)
    }

    /// What is known of the clip at a place of the cursor.
    pub fn create_cursor_and_length_info(&self, cursor_info: CursorInfo, timeline_tempo: u32) -> (r:
        CursorAndLengthInfo)
        ensures
            r == (CursorAndLengthInfo {
                cursor_info,
                clip_length: self.clip_length_spec(timeline_tempo),
                repetition: self.repetition,
            }),
    {
        CursorAndLengthInfo {
            cursor_info,
            clip_length: self.clip_length(timeline_tempo),
            repetition: self.repetition,
        }
    }
}

/// One block, with the position at which it starts and the tempo factor
/// at which it plays.
#[derive(Copy, Clone, Debug, PartialEq, Eq, Structural)]
pub struct BlockInfo {
    pub frame_count: u64,
    pub sample_rate: u32,
    /// How long the block lasts, in nanoseconds.
    pub duration: u64,
    pub cursor_and_lenght_info: CursorAndLengthInfo,
    pub final_tempo_factor: TempoFactor,
    /// The frames that are left until the clip stops, if it is to stop.
    pub stop_countdown: Option<u64>,
}

impl BlockInfo {
    /// The frames of material that the block takes up at its tempo factor,
    /// rounded down.
    pub open spec fn tempo_adjusted_frame_count_spec(self) -> u64 {
        scale_floor_spec(
            self.frame_count as nat,
            self.final_tempo_factor.eff_num(),
            self.final_tempo_factor.eff_den(),
        )
    }

    /// The position at which the block starts.
    pub open spec fn start_frame_spec(self) -> i64 {
        self.cursor_and_lenght_info.cursor_info.play_info.next_block_pos
    }

    pub fn new(
        block: &BlockRequest,
        cursor_and_length_info: CursorAndLengthInfo,
        final_tempo_factor: TempoFactor,
        stop_countdown: Option<u64>,
    ) -> (r: Self)
        ensures
            r == (BlockInfo {
                frame_count: block.frame_count,
                sample_rate: block.sample_rate,
                duration: frames_to_nanos_spec(block.frame_count as nat, block.sample_rate as nat),
                cursor_and_lenght_info: cursor_and_length_info,
                final_tempo_factor,
                stop_countdown,
            }),
    {
        BlockInfo {
            frame_count: block.frame_count,
            sample_rate: block.sample_rate,
            duration: convert_duration_in_frames_to_seconds(block.frame_count, block.sample_rate),
            cursor_and_lenght_info: cursor_and_length_info,
            final_tempo_factor,
            stop_countdown,
        }
    }

    pub fn duration(&self) -> (r: u64)
        ensures
            r == self.duration,
    {
        self.duration
    }

    /// The duration of audio/MIDI material to be queried from the inner
    /// source.
    ///
    /// The higher the tempo, the more material we need to fetch from the
    /// inner source per block, that's why the returned duration is higher
    /// in this case.
    pub fn tempo_adjusted_duration(&self) -> (r: u64)
        ensures
            r == scale_spec(
                self.duration as nat,
                self.final_tempo_factor.eff_num(),
                self.final_tempo_factor.eff_den(),
            ),
    {
        let f = self.final_tempo_factor.floored();
        scale(self.duration, f.num as u64, f.den as u64)
    }

    pub fn frame_count(&self) -> (r: u64)
        ensures
            r == self.frame_count,
    {
        self.frame_count
    }

    /// The block length to be queried from the inner source.
    ///
    /// The higher the tempo, the more material we need to fetch from the
    /// inner source per block, that's why the returned block length is
    /// higher in this case.
    pub fn tempo_adjusted_frame_count(&self) -> (r: u64)
        ensures
            r == self.tempo_adjusted_frame_count_spec(),
    {
        let f = self.final_tempo_factor.floored();
        scale_floor(self.frame_count, f.num as u64, f.den as u64)
    }

    pub fn sample_rate(&self) -> (r: u32)
        ensures
            r == self.sample_rate,
    {
        self.sample_rate
    }

    /// Negative position (count-in) or position *within* clip.
    pub fn start_frame(&self) -> (r: i64)
        ensures
            r == self.start_frame_spec(),
    {
        self.cursor_and_lenght_info.cursor_info.play_info.next_block_pos
    }

    /// The start position in nanoseconds with regard to the source sample
    /// rate.
    pub fn start_pos(&self, source_sample_rate: u32) -> (r: i64)
        ensures
            r == signed_frames_to_nanos_spec(
                self.start_frame_spec() as int,
                source_sample_rate as nat,
            ),
    {
        convert_position_in_frames_to_seconds(self.start_frame(), source_sample_rate)
    }

    /// The position after the block, if a frame of material passes per
    /// frame of the block.
    pub fn end_frame(&self) -> (r: i64)
        ensures
            r == clamp_i64(self.start_frame_spec() + self.frame_count),
    {
        advance(self.start_frame(), self.frame_count)
    }

    /// The position after the block at its tempo factor.
    pub fn tempo_adjusted_end_frame(&self) -> (r: i64)
        ensures
            r == clamp_i64(self.start_frame_spec() + self.tempo_adjusted_frame_count_spec()),
    {
        advance(self.start_frame(), self.tempo_adjusted_frame_count())
    }

    pub fn cursor_and_lenght_info(&self) -> (r: &CursorAndLengthInfo)
        ensures
            *r == self.cursor_and_lenght_info,
    {
        &self.cursor_and_lenght_info
    }

    pub fn stop_countdown(&self) -> (r: Option<u64>)
        ensures
            r == self.stop_countdown,
    {
        self.stop_countdown
    }

    pub fn final_tempo_factor(&self) -> (r: TempoFactor)
        ensures
            r == self.final_tempo_factor,
    {
        self.final_tempo_factor
    }

    /// Whether the clip stops within this block: the countdown to the stop
    /// runs out within the material that the block takes up.
    pub fn is_last_block(&self) -> (r: bool)
        ensures
            r == (self.stop_countdown is Some && self.stop_countdown->Some_0
                <= self.tempo_adjusted_frame_count_spec()),
    {
        match self.stop_countdown {
            Some(cd) => cd <= self.tempo_adjusted_frame_count(),
            None => false,
        }
    }

    /// The sample rate to use when querying audio/MIDI material from the
    /// inner source, rounded to the nearest whole rate: the higher the
    /// tempo factor, the lower the sample rate.
    pub fn tempo_adjusted_sample_rate(&self) -> (r: u64)
        ensures
            r == scale_spec(
                self.sample_rate as nat,
                self.final_tempo_factor.eff_den(),
                self.final_tempo_factor.eff_num(),
            ),
    {
        let f = self.final_tempo_factor.floored();
        scale(self.sample_rate as u64, f.den as u64, f.num as u64)
    }
}

/// Why a source cannot be played as a clip.
#[derive(Copy, Clone, Debug, PartialEq, Eq, Structural)]
pub enum SourceInfoError {
    NoSampleRate,
    NoLength,
    Empty,
}

impl SourceInfoError {
    /// The reason in words.
    pub fn message(&self) -> (r: &'static str)
        ensures
            r@ == (match *self {
                SourceInfoError::NoSampleRate => "source without sample rate"@,
                SourceInfoError::NoLength => "source without length"@,
                SourceInfoError::Empty => "source is empty"@,
            }),
    {
        match self {
            SourceInfoError::NoSampleRate => "source without sample rate",
            SourceInfoError::NoLength => "source without length",
            SourceInfoError::Empty => "source is empty",
        }
    }
}

/// The sample rate of a source and its length in nanoseconds. The length
/// is never zero.
#[derive(Copy, Clone, Debug, PartialEq, Eq, Structural)]
pub struct SourceInfo {
    sample_rate: u32,
    length: u64,
}

impl SourceInfo {
    pub closed spec fn spec_sample_rate(self) -> u32 {
        self.sample_rate
    }

    pub closed spec fn spec_length(self) -> u64 {
        self.length
    }

    /// What a source says of itself, if it can be played as a clip: it has
    /// a sample rate and a length, and the length is not zero. The sample
    /// rate is asked for first.
    pub fn from_source(sample_rate: Option<u32>, length: Option<u64>) -> (r: Result<
        Self,
        SourceInfoError,
    >)
        ensures
            match (sample_rate, length) {
                (None, _) => r == Err::<Self, SourceInfoError>(SourceInfoError::NoSampleRate),
                (Some(_), None) => r == Err::<Self, SourceInfoError>(SourceInfoError::NoLength),
                (Some(rate), Some(l)) => if l == 0 {
                    r == Err::<Self, SourceInfoError>(SourceInfoError::Empty)
                } else {
                    r is Ok && r->Ok_0.spec_sample_rate() == rate && r->Ok_0.spec_length() == l
                },
            },
    {
        let sample_rate = match sample_rate {
            Some(r) => r,
            None => {
                return Err(SourceInfoError::NoSampleRate);
            },
        };
        let length = match length {
            Some(l) => l,
            None => {
                return Err(SourceInfoError::NoLength);
            },
        };
        if length == 0 {
            return Err(SourceInfoError::Empty);
        }
        Ok(SourceInfo { sample_rate, length })
    }

    pub fn sample_rate(&self) -> (r: u32)
        ensures
            r == self.spec_sample_rate(),
    {
        self.sample_rate
    }

    pub fn length(&self) -> (r: u64)
        ensures
            r == self.spec_length(),
            r > 0,
    {
        proof {
            use_type_invariant(self);
        }
        self.length
    }

    /// The whole frames that the source holds.
    pub fn frame_count(&self) -> (r: u64)
        ensures
            r == nanos_to_frames_spec(self.spec_length() as nat, self.spec_sample_rate() as nat),
    {
        convert_duration_in_seconds_to_frames(self.length, self.sample_rate)
    }

    /// The material of the source, as the chain of suppliers takes it.
    pub fn material(&self) -> (r: SourceMaterial)
        ensures
            r == (SourceMaterial {
                frame_rate: self.spec_sample_rate(),
                frame_count: nanos_to_frames_spec(
                    self.spec_length() as nat,
                    self.spec_sample_rate() as nat,
                ),
            }),
    {
        SourceMaterial { frame_rate: self.sample_rate, frame_count: self.frame_count() }
    }

    #[verifier::type_invariant]
    spec fn length_is_not_zero(self) -> bool {
        self.length > 0
    }
}

} // verus!
