//! The state of a clip's transport and the arguments of its commands.

use vstd::prelude::*;
use crate::units::{scale_floor, scale_floor_spec};

verus! {

/// The frames that a transition fade lasts: ten milliseconds at 48 kHz.
pub const START_END_FADE_LENGTH: u64 = 480;

/// The frames that the fade at a repetition lasts.
pub const REPETITION_FADE_LENGTH: u64 = 480;

/// Whether a clip plays once or keeps repeating.
#[derive(Copy, Clone, Debug, PartialEq, Eq, Structural)]
pub enum Repetition {
    Infinitely,
    Once,
}

impl Repetition {
    pub open spec fn spec_from_bool(repeated: bool) -> Repetition {
        if repeated {
            Repetition::Infinitely
        } else {
            Repetition::Once
        }
    }

    pub fn from_bool(repeated: bool) -> (r: Self)
        ensures
            r == Self::spec_from_bool(repeated),
    {
        if repeated {
            Repetition::Infinitely
        } else {
            Repetition::Once
        }
    }
}

/// When a clip is to start.
#[derive(Copy, Clone, Debug, PartialEq, Eq, Structural)]
pub enum ClipStartTime {
    Immediately,
    NextBar,
}

/// When a clip is to stop.
#[derive(Copy, Clone, Debug, PartialEq, Eq, Structural)]
pub enum ClipStopTime {
    Immediately,
    EndOfClip,
}

/// What the timeline says at one moment: where its cursor is, the tempo
/// there, where the next bar starts at or after the cursor, and whether the
/// timeline is advancing. Positions are in nanoseconds, the tempo in
/// thousandths of a beat per minute.
#[derive(Copy, Clone, Debug, PartialEq, Eq, Structural)]
pub struct TimelineMoment {
    pub cursor_pos: i64,
    pub tempo: u32,
    pub next_bar_pos: i64,
    pub is_running: bool,
}

/// A part of a whole, between nothing and all of it: `part / whole`, where
/// `part` counts as `whole` if it is larger and a zero `whole` as one.
#[derive(Copy, Clone, Debug, PartialEq, Eq, Structural)]
pub struct Proportion {
    pub part: u64,
    pub whole: u64,
}

impl Proportion {
    /// Nothing of the whole.
    pub open spec fn min() -> Proportion {
        Proportion { part: 0, whole: 1 }
    }

    /// The part in use: never more than the whole.
    pub open spec fn eff_part(self) -> u64 {
        if self.part > self.whole {
            self.whole
        } else {
            self.part
        }
    }

    /// The given share of `total`, rounded down.
    pub open spec fn of_spec(self, total: u64) -> u64 {
        scale_floor_spec(total as nat, self.eff_part() as nat, self.whole as nat)
    }

    /// The proportion that `pos` is of `length`, kept between nothing and
    /// all: a position before the start counts as the start, one after the
    /// end as the end. `length` is not zero.
    pub open spec fn spec_new_clamped(pos: i64, length: u64) -> Proportion {
        if pos <= 0 {
            Proportion { part: 0, whole: length }
        } else if pos as u64 >= length {
            Proportion { part: length, whole: length }
        } else {
            Proportion { part: pos as u64, whole: length }
        }
    }

    pub fn minimum() -> (p: Proportion)
        ensures
            p == Self::min(),
    {
        Proportion { part: 0, whole: 1 }
    }

    /// The proportion that `pos` is of `length`, kept between nothing and
    /// all.
    pub fn new_clamped(pos: i64, length: u64) -> (p: Proportion)
        ensures
            p == Self::spec_new_clamped(pos, length),
    {
        if pos <= 0 {
            Proportion { part: 0, whole: length }
        } else if pos as u64 >= length {
            Proportion { part: length, whole: length }
        } else {
            Proportion { part: pos as u64, whole: length }
        }
    }

    /// The given share of `total`, rounded down.
    pub fn of(&self, total: u64) -> (r: u64)
        ensures
            r == self.of_spec(total),
    {
        let part = if self.part > self.whole {
            self.whole
        } else {
            self.part
        };
        scale_floor(total, part, self.whole)
    }
}

/// The next source frame to play. A negative position lies in the
/// count-in: the clip has not started yet. Each block moves the position on
/// by the source frames it consumed, and by nothing else.
#[derive(Copy, Clone, Debug, PartialEq, Eq, Structural)]
pub struct ResolvedPlayData {
    pub next_block_pos: i64,
}

impl ResolvedPlayData {
    /// Whether the clip has started: the position is out of the count-in.
    pub open spec fn has_started_already(self) -> bool {
        self.next_block_pos >= 0
    }

    /// The position together with the place of the timeline's cursor.
    pub fn cursor_info_at(&self, timeline_cursor_pos: i64) -> (r: CursorInfo)
        ensures
            r == (CursorInfo { timeline_cursor_pos, play_info: *self }),
    {
        CursorInfo { timeline_cursor_pos, play_info: *self }
    }
}

/// A play position and the place of the timeline's cursor.
#[derive(Copy, Clone, Debug, PartialEq, Eq, Structural)]
pub struct CursorInfo {
    pub timeline_cursor_pos: i64,
    pub play_info: ResolvedPlayData,
}

impl CursorInfo {
    pub fn has_started_already(&self) -> (r: bool)
        ensures
            r == self.play_info.has_started_already(),
    {
        self.play_info.next_block_pos >= 0
    }
}

/// How a clip was told to play: the place on the timeline at which it is
/// to start, the place within the clip from which it plays once that place
/// is reached, and the tempo at the time. Times are in nanoseconds.
#[derive(Copy, Clone, Debug, PartialEq, Eq, Structural)]
pub struct PlayInstruction {
    pub scheduled_play_pos: i64,
    pub start_pos_within_clip: u64,
    pub initial_tempo: u32,
}

impl PlayInstruction {
    /// The instruction for a clip that is told, with the cursor at
    /// `timeline_cursor_pos`, to start at `play_time`: at once means at the
    /// cursor, at the next bar means where the timeline says that bar
    /// starts.
    pub open spec fn spec_from_play_time(
        play_time: ClipStartTime,
        timeline_cursor_pos: i64,
        timeline: TimelineMoment,
    ) -> PlayInstruction {
        PlayInstruction {
            scheduled_play_pos: match play_time {
                ClipStartTime::Immediately => timeline_cursor_pos,
                ClipStartTime::NextBar => timeline.next_bar_pos,
            },
            start_pos_within_clip: 0,
            initial_tempo: timeline.tempo,
        }
    }

    /// The instruction for a clip that resumes, with the cursor at
    /// `timeline_cursor_pos`, from a place within the clip: it starts at
    /// once.
    pub open spec fn spec_resume(
        start_pos_within_clip: u64,
        timeline_cursor_pos: i64,
        timeline: TimelineMoment,
    ) -> PlayInstruction {
        PlayInstruction {
            scheduled_play_pos: timeline_cursor_pos,
            start_pos_within_clip,
            initial_tempo: timeline.tempo,
        }
    }

    pub fn resume(start_pos_within_clip: u64, timeline_cursor_pos: i64, timeline: &TimelineMoment) -> (r:
        PlayInstruction)
        ensures
            r == Self::spec_resume(start_pos_within_clip, timeline_cursor_pos, *timeline),
    {
        PlayInstruction {
            scheduled_play_pos: timeline_cursor_pos,
            start_pos_within_clip,
            initial_tempo: timeline.tempo,
        }
    }

    pub fn from_play_time(
        play_time: ClipStartTime,
        timeline_cursor_pos: i64,
        timeline: &TimelineMoment,
    ) -> (r: PlayInstruction)
        ensures
            r == Self::spec_from_play_time(play_time, timeline_cursor_pos, *timeline),
    {
        let scheduled_play_pos = match play_time {
            ClipStartTime::Immediately => timeline_cursor_pos,
            ClipStartTime::NextBar => timeline.next_bar_pos,
        };
        PlayInstruction {
            scheduled_play_pos,
            start_pos_within_clip: 0,
            initial_tempo: timeline.tempo,
        }
    }
}

/// The payload of a clip that is scheduled or playing.
#[derive(Copy, Clone, Debug, PartialEq, Eq, Structural)]
pub struct ScheduledOrPlayingState {
    pub play_instruction: PlayInstruction,
    /// Set by the first block after scheduling, and moved on by each block
    /// after it.
    pub resolved_play_data: Option<ResolvedPlayData>,
    pub scheduled_for_stop: bool,
    pub overdubbing: bool,
}

impl ScheduledOrPlayingState {
    /// A freshly scheduled clip: not resolved, not due to stop, not
    /// overdubbing.
    pub open spec fn scheduled(play_instruction: PlayInstruction) -> ScheduledOrPlayingState {
        ScheduledOrPlayingState {
            play_instruction,
            resolved_play_data: None,
            scheduled_for_stop: false,
            overdubbing: false,
        }
    }

    /// Whether the clip has started: its position is resolved and out of
    /// the count-in.
    pub open spec fn has_started(self) -> bool {
        match self.resolved_play_data {
            Some(play_info) => play_info.has_started_already(),
            None => false,
        }
    }
}

/// Why a clip is suspending, which settles the state that follows.
#[derive(Copy, Clone, Debug, PartialEq, Eq, Structural)]
pub enum SuspensionReason {
    /// For a retrigger: the clip is scheduled anew, to start at once.
    Retrigger,
    /// For a pause: the clip is paused.
    Pause,
    /// For a stop: the clip is stopped.
    Stop,
    /// A play request came while the clip was suspending: the clip is
    /// scheduled anew, to start at `play_time`.
    PlayWhileSuspending { play_time: ClipStartTime },
}

/// The state of a clip's transport.
#[derive(Copy, Clone, Debug, PartialEq, Eq, Structural)]
pub enum ClipState {
    /// The clip is stopped.
    Stopped,
    /// The clip is scheduled or playing.
    ScheduledOrPlaying(ScheduledOrPlayingState),
    /// The clip fades out, or silences its notes, before it enters another
    /// state. `play_info` is the position at which the suspension began;
    /// `transition_countdown` counts the frames until the fade is over.
    Suspending { reason: SuspensionReason, play_info: ResolvedPlayData, transition_countdown: u64 },
    /// The clip is paused, `next_block_pos` nanoseconds into the clip.
    Paused { next_block_pos: u64 },
}

impl ClipState {
    /// The play position, where the state has one.
    pub open spec fn spec_play_info(self) -> Option<ResolvedPlayData> {
        match self {
            ClipState::ScheduledOrPlaying(s) => s.resolved_play_data,
            ClipState::Suspending { play_info, .. } => Some(play_info),
            _ => None,
        }
    }

    /// The play position of a clip that is playing or suspending.
    pub fn play_info(&self) -> (r: Option<ResolvedPlayData>)
        ensures
            r == self.spec_play_info(),
    {
        match self {
            ClipState::ScheduledOrPlaying(s) => s.resolved_play_data,
            ClipState::Suspending { play_info, .. } => Some(*play_info),
            _ => None,
        }
    }
}

/// The arguments of a play command.
#[derive(Copy, Clone, Debug, PartialEq, Eq, Structural)]
pub struct PlayArgs {
    pub timeline_cursor_pos: i64,
    pub play_time: ClipStartTime,
    pub repetition: Repetition,
}

/// The arguments of a record command.
#[derive(Copy, Clone, Debug, PartialEq, Eq, Structural)]
pub struct RecordArgs {}

/// The arguments of a stop command.
#[derive(Copy, Clone, Debug, PartialEq, Eq, Structural)]
pub struct StopArgs {
    pub timeline_cursor_pos: i64,
    pub timeline_tempo: u32,
    pub stop_time: ClipStopTime,
}

/// The arguments of a seek command.
#[derive(Copy, Clone, Debug, PartialEq, Eq, Structural)]
pub struct SeekToArgs {
    pub timeline_cursor_pos: i64,
    pub timeline_tempo: u32,
    pub desired_pos: Proportion,
}

/// The arguments of the command that sets the repetition.
#[derive(Copy, Clone, Debug, PartialEq, Eq, Structural)]
pub struct SetRepeatedArgs {
    pub timeline_cursor_pos: i64,
    pub timeline_tempo: u32,
    pub repeated: bool,
}

/// The arguments of a position query.
#[derive(Copy, Clone, Debug, PartialEq, Eq, Structural)]
pub struct PosWithinClipArgs {
    pub timeline_cursor_pos: i64,
    pub timeline_tempo: u32,
}

} // verus!
