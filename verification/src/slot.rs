//! A slot that holds one clip: it takes the commands of the control side,
//! hands them to the clip's transport, keeps track of whether the host
//! delivers blocks for it, and reports what changed when it is polled.

use vstd::prelude::*;
use crate::clip_source::block::{BlockOutcome, BlockRequest};
use crate::clip_source::source::{proportional_position_spec, ClipPcmSource};
use crate::clip_source::state::{
    ClipStartTime, ClipState, ClipStopTime, PlayArgs, PosWithinClipArgs, Proportion, RecordArgs,
    Repetition, SeekToArgs, SetRepeatedArgs, StopArgs, SuspensionReason, TimelineMoment,
};
use crate::units::TempoFactor;

verus! {

/// The level of a clip that plays as loud as its material: volumes are
/// counted in thousandths of it.
pub const FULL_VOLUME: u32 = 1000;

/// The output channel of a register that has none picked.
pub const NO_OUT_CHAN: i32 = -1;

/// What a slot reports of the play state of its clip.
#[derive(Copy, Clone, Debug, PartialEq, Eq, Structural)]
pub enum ClipPlayState {
    Stopped,
    ScheduledForPlay,
    Playing,
    Paused,
    ScheduledForStop,
    Recording,
}

/// Something about a clip that changed.
#[derive(Copy, Clone, Debug, PartialEq, Eq, Structural)]
pub enum ClipChangedEvent {
    PlayState(ClipPlayState),
    ClipVolume(u32),
    ClipRepeat(bool),
    ClipPosition(Proportion),
}

/// Why a command to a slot failed.
#[derive(Copy, Clone, Debug, PartialEq, Eq, Structural)]
pub enum SlotError {
    /// The command needs a clip, and the slot is empty.
    SlotIsEmpty,
    /// The command needs a source, and none is loaded.
    NoSourceLoaded,
    /// The host did not take up the delivery of blocks.
    CouldNotPlayPreview,
    /// The command needs a clip that is not stopped.
    ClipIsStopped,
}

impl SlotError {
    /// The reason in words.
    pub fn message(&self) -> (r: &'static str)
        ensures
            r@ == (match *self {
                SlotError::SlotIsEmpty => "slot is empty"@,
                SlotError::NoSourceLoaded => "no source loaded"@,
                SlotError::CouldNotPlayPreview => "couldn't play preview"@,
                SlotError::ClipIsStopped => "clip is stopped"@,
            }),
    {
        match self {
            SlotError::SlotIsEmpty => "slot is empty",
            SlotError::NoSourceLoaded => "no source loaded",
            SlotError::CouldNotPlayPreview => "couldn't play preview",
            SlotError::ClipIsStopped => "clip is stopped",
        }
    }
}

/// The play state of the host's own transport.
#[derive(Copy, Clone, Debug, PartialEq, Eq, Structural)]
pub struct PlayState {
    pub is_playing: bool,
    pub is_paused: bool,
    pub is_recording: bool,
}

/// A change of the host's play state that matters to clips.
#[derive(Copy, Clone, Debug, PartialEq, Eq, Structural)]
pub enum RelevantPlayStateChange {
    PlayAfterStop,
    StopAfterPlay,
    StopAfterPause,
}

impl RelevantPlayStateChange {
    /// The change from one play state of the host to another, where it
    /// matters: a start from a standstill, and a stop from playing or from
    /// a pause.
    pub open spec fn spec_from_play_state_change(old: PlayState, new: PlayState) -> Option<
        RelevantPlayStateChange,
    > {
        if !old.is_paused && !old.is_playing && new.is_playing {
            Some(RelevantPlayStateChange::PlayAfterStop)
        } else if old.is_playing && !new.is_playing && !new.is_paused {
            Some(RelevantPlayStateChange::StopAfterPlay)
        } else if old.is_paused && !new.is_playing && !new.is_paused {
            Some(RelevantPlayStateChange::StopAfterPause)
        } else {
            None
        }
    }

    pub fn from_play_state_change(old: PlayState, new: PlayState) -> (r: Option<Self>)
        ensures
            r == Self::spec_from_play_state_change(old, new),
    {
        if !old.is_paused && !old.is_playing && new.is_playing {
            Some(RelevantPlayStateChange::PlayAfterStop)
        } else if old.is_playing && !new.is_playing && !new.is_paused {
            Some(RelevantPlayStateChange::StopAfterPlay)
        } else if old.is_paused && !new.is_playing && !new.is_paused {
            Some(RelevantPlayStateChange::StopAfterPause)
        } else {
            None
        }
    }
}

/// A change of the host's transport.
#[derive(Copy, Clone, Debug, PartialEq, Eq, Structural)]
pub enum TransportChange {
    PlayState(RelevantPlayStateChange),
    PlayCursorJump,
}

/// Defines how to stop the clip.
#[derive(Copy, Clone, Debug, PartialEq, Eq, Structural)]
pub enum SlotStopBehavior {
    Immediately,
    EndOfClip,
}

impl SlotStopBehavior {
    /// The time at which the clip's transport is told to stop.
    pub open spec fn clip_stop_time(self) -> ClipStopTime {
        match self {
            SlotStopBehavior::Immediately => ClipStopTime::Immediately,
            SlotStopBehavior::EndOfClip => ClipStopTime::EndOfClip,
        }
    }

    pub fn get_clip_stop_position(&self) -> (r: ClipStopTime)
        ensures
            r == self.clip_stop_time(),
    {
        match self {
            SlotStopBehavior::Immediately => ClipStopTime::Immediately,
            SlotStopBehavior::EndOfClip => ClipStopTime::EndOfClip,
        }
    }
}

/// Contains instructions how to play a clip.
#[derive(Copy, Clone, Debug, PartialEq, Eq, Structural)]
pub struct SlotPlayOptions {
    /// Syncs with timeline.
    pub next_bar: bool,
    pub buffered: bool,
}

impl SlotPlayOptions {
    /// Whether the clip is buffered in effect: a clip that starts at the
    /// next bar always is.
    pub fn is_effectively_buffered(&self) -> (r: bool)
        ensures
            r == (self.buffered || self.next_bar),
    {
        self.buffered || self.next_bar
    }

    /// The time at which a clip with these options starts.
    pub open spec fn start_time(self) -> ClipStartTime {
        if self.next_bar {
            ClipStartTime::NextBar
        } else {
            ClipStartTime::Immediately
        }
    }
}

/// When a recording starts and stops.
#[derive(Copy, Clone, Debug, PartialEq, Eq, Structural)]
pub enum ClipRecordTiming {
    StartImmediatelyStopOnDemand,
    StartOnBarStopOnDemand { start_bar: i32 },
    StartOnBarStopOnBar { start_bar: i32, bar_count: u32 },
}

/// What kind of material a recording takes.
#[derive(Copy, Clone, Debug, PartialEq, Eq, Structural)]
pub enum ClipRecordSourceType {
    Midi,
    Audio,
}

/// Where the material of a clip comes from.
#[derive(Copy, Clone, Debug, PartialEq, Eq, Structural)]
pub enum ClipContent {
    File,
    MidiChunk,
}

/// The settings of a slot and a mark of what it holds.
#[derive(Copy, Clone, Debug, PartialEq, Eq, Structural)]
pub struct LegacyClip {
    pub volume: u32,
    pub repeat: bool,
    pub content: Option<ClipContent>,
}

impl LegacyClip {
    /// The settings of an empty slot: full volume, no repetition.
    pub open spec fn spec_default() -> LegacyClip {
        LegacyClip { volume: FULL_VOLUME, repeat: false, content: None }
    }

    pub fn new_default() -> (r: LegacyClip)
        ensures
            r == Self::spec_default(),
    {
        LegacyClip { volume: FULL_VOLUME, repeat: false, content: None }
    }

    /// Whether the slot is said to hold something.
    pub fn is_filled(&self) -> (r: bool)
        ensures
            r == self.content is Some,
    {
        self.content.is_some()
    }
}

/// What the host's delivery of blocks is set up with, and the source that
/// the blocks are taken from. The real-time side and the control side both
/// reach it, one at a time.
#[derive(Copy, Clone, Debug, PartialEq, Eq, Structural)]
pub struct PreviewRegister {
    pub src: Option<ClipPcmSource>,
    pub volume: u32,
    pub out_chan: i32,
    pub preview_track: Option<u32>,
}

impl PreviewRegister {
    /// A register without a source, at the volume of the given settings,
    /// with no output channel picked.
    pub open spec fn spec_create(descriptor: LegacyClip) -> PreviewRegister {
        PreviewRegister { src: None, volume: descriptor.volume, out_chan: NO_OUT_CHAN, preview_track: None }
    }
}

/// Creates a register with its first settings taken from the given
/// descriptor.
pub fn create_shared_register(descriptor: &LegacyClip) -> (r: PreviewRegister)
    ensures
        r == PreviewRegister::spec_create(*descriptor),
{
    PreviewRegister { src: None, volume: descriptor.volume, out_chan: NO_OUT_CHAN, preview_track: None }
}

/// How a slot was last told to play.
#[derive(Copy, Clone, Debug, PartialEq, Eq, Structural)]
pub struct ClipPlayArgs {
    pub options: SlotPlayOptions,
    pub track: Option<u32>,
    pub repeat: bool,
}

/// The state of a slot that holds a clip.
#[derive(Copy, Clone, Debug, PartialEq, Eq, Structural)]
pub struct FilledState {
    pub last_clip_play_state: ClipPlayState,
    /// The host's handle for the delivery of blocks, while it delivers.
    pub handle: Option<u64>,
    pub last_play_args: Option<ClipPlayArgs>,
    pub was_caused_by_transport_change: bool,
}

/// The internal state of a slot.
#[derive(Copy, Clone, Debug, PartialEq, Eq, Structural)]
pub enum State {
    Empty,
    Filled(FilledState),
}

/// A delivery of blocks that the host is to end.
#[derive(Copy, Clone, Debug, PartialEq, Eq, Structural)]
pub struct Disengagement {
    pub handle: u64,
    pub track: Option<u32>,
}

/// The play state that a state of the transport is reported as.
pub open spec fn play_state_spec(clip_state: ClipState) -> ClipPlayState {
    match clip_state {
        ClipState::Stopped => ClipPlayState::Stopped,
        ClipState::ScheduledOrPlaying(s) => {
            if s.overdubbing {
                ClipPlayState::Recording
            } else if s.scheduled_for_stop {
                ClipPlayState::ScheduledForStop
            } else if s.has_started() {
                ClipPlayState::Playing
            } else {
                ClipPlayState::ScheduledForPlay
            }
        },
        ClipState::Suspending { reason, .. } => match reason {
            SuspensionReason::Retrigger => ClipPlayState::Playing,
            SuspensionReason::Pause => ClipPlayState::Paused,
            SuspensionReason::Stop => ClipPlayState::Stopped,
            SuspensionReason::PlayWhileSuspending { .. } => ClipPlayState::Playing,
        },
        ClipState::Paused { .. } => ClipPlayState::Paused,
    }
}

/// Derives the play state that is reported from the state of the
/// transport.
pub fn get_play_state(clip_state: ClipState) -> (r: ClipPlayState)
    ensures
        r == play_state_spec(clip_state),
{
    match clip_state {
        ClipState::Stopped => ClipPlayState::Stopped,
        ClipState::ScheduledOrPlaying(s) => {
            if s.overdubbing {
                ClipPlayState::Recording
            } else if s.scheduled_for_stop {
                ClipPlayState::ScheduledForStop
            } else {
                match s.resolved_play_data {
                    Some(d) => {
                        if d.next_block_pos < 0 {
                            ClipPlayState::ScheduledForPlay
                        } else {
                            ClipPlayState::Playing
                        }
                    },
                    None => ClipPlayState::ScheduledForPlay,
                }
            }
        },
        ClipState::Suspending { reason, .. } => match reason {
            SuspensionReason::Retrigger => ClipPlayState::Playing,
            SuspensionReason::Pause => ClipPlayState::Paused,
            SuspensionReason::Stop => ClipPlayState::Stopped,
            SuspensionReason::PlayWhileSuspending { .. } => ClipPlayState::Playing,
        },
        ClipState::Paused { .. } => ClipPlayState::Paused,
    }
}

/// The register with the given source in place of its own.
pub open spec fn with_src(reg: PreviewRegister, src: ClipPcmSource) -> PreviewRegister {
    PreviewRegister { src: Some(src), ..reg }
}

/// Whether a play state is one of a clip that is under way.
pub open spec fn is_under_way(play_state: ClipPlayState) -> bool {
    play_state == ClipPlayState::ScheduledForPlay || play_state == ClipPlayState::Playing
        || play_state == ClipPlayState::ScheduledForStop
}

impl FilledState {
    /// The arguments with which the clip's transport is told to play.
    pub open spec fn play_args(args: ClipPlayArgs, moment: TimelineMoment) -> PlayArgs {
        PlayArgs {
            timeline_cursor_pos: moment.cursor_pos,
            play_time: args.options.start_time(),
            repetition: Repetition::spec_from_bool(args.repeat),
        }
    }

    /// The arguments with which the clip's transport is told to stop.
    pub open spec fn stop_args(stop_behavior: SlotStopBehavior, moment: TimelineMoment) -> StopArgs {
        StopArgs {
            timeline_cursor_pos: moment.cursor_pos,
            timeline_tempo: moment.tempo,
            stop_time: stop_behavior.clip_stop_time(),
        }
    }

    /// The register after a play command: the source is told to play, and
    /// on the first play the track is set. Without a source nothing
    /// changes.
    pub open spec fn play_register_spec(
        self,
        reg: PreviewRegister,
        args: ClipPlayArgs,
        moment: TimelineMoment,
    ) -> PreviewRegister {
        match reg.src {
            Some(src) => PreviewRegister {
                src: Some(src.play_spec(Self::play_args(args, moment), moment)),
                preview_track: if self.last_play_args is None {
                    args.track
                } else {
                    reg.preview_track
                },
                ..reg
            },
            None => reg,
        }
    }

    /// The state after a play command.
    ///
    /// Without a source the command fails. Otherwise the host has to
    /// deliver blocks: if it does so already, or has taken it up now, the
    /// slot remembers the handle and the arguments; if it refused, the
    /// command fails and the slot stays as it was, while the clip itself
    /// remains told to play.
    pub open spec fn play_spec(
        self,
        reg: PreviewRegister,
        args: ClipPlayArgs,
        engagement: Option<u64>,
    ) -> Result<State, (State, SlotError)> {
        if reg.src is None {
            Err((State::Filled(self), SlotError::NoSourceLoaded))
        } else {
            let handle = if self.handle is Some {
                self.handle
            } else {
                engagement
            };
            match handle {
                Some(h) => Ok(
                    State::Filled(
                        FilledState { handle: Some(h), last_play_args: Some(args), ..self },
                    ),
                ),
                None => Err((State::Filled(self), SlotError::CouldNotPlayPreview)),
            }
        }
    }

    /// The register after a stop command: the source, if there is one, is
    /// told to stop.
    pub open spec fn stop_register_spec(
        reg: PreviewRegister,
        stop_behavior: SlotStopBehavior,
        moment: TimelineMoment,
    ) -> PreviewRegister {
        match reg.src {
            Some(src) => with_src(reg, src.stop_spec(Self::stop_args(stop_behavior, moment))),
            None => reg,
        }
    }

    /// The register after a pause command.
    pub open spec fn pause_register_spec(reg: PreviewRegister) -> PreviewRegister {
        match reg.src {
            Some(src) => with_src(reg, src.pause_spec()),
            None => reg,
        }
    }

    /// The event that a poll reports: the new play state if it changed
    /// since the last poll, the position if it did not.
    pub open spec fn poll_event_spec(
        self,
        src: ClipPcmSource,
        timeline_cursor_pos: i64,
        timeline_tempo: u32,
    ) -> ClipChangedEvent {
        let play_state = play_state_spec(src.state);
        if play_state == self.last_clip_play_state {
            ClipChangedEvent::ClipPosition(
                match proportional_position_spec(
                    src.pos_within_clip_spec(PosWithinClipArgs { timeline_cursor_pos, timeline_tempo }),
                    src.clip_length_spec(timeline_tempo),
                ) {
                    Some(p) => p,
                    None => Proportion::min(),
                },
            )
        } else {
            ClipChangedEvent::PlayState(play_state)
        }
    }

    pub fn fill_with_source(self, source: ClipPcmSource, reg: &mut PreviewRegister) -> (r: Result<
        State,
        (State, SlotError),
    >)
        ensures
            r == Ok::<State, (State, SlotError)>(State::Filled(self)),
            *final(reg) == with_src(*old(reg), source),
    {
        reg.src = Some(source);
        Ok(State::Filled(self))
    }

    /// Tells the clip to play and makes sure the host delivers blocks.
    /// `engagement` is the handle that the host gave when it was asked to
    /// deliver, or none if it refused; it counts only if the host does not
    /// deliver yet.
    pub fn play(
        self,
        reg: &mut PreviewRegister,
        args: ClipPlayArgs,
        moment: &TimelineMoment,
        engagement: Option<u64>,
    ) -> (r: Result<State, (State, SlotError)>)
        ensures
            r == self.play_spec(*old(reg), args, engagement),
            *final(reg) == self.play_register_spec(*old(reg), args, *moment),
    {
        let mut src = match reg.src {
            Some(s) => s,
            None => {
                return Err((State::Filled(self), SlotError::NoSourceLoaded));
            },
        };
        if self.last_play_args.is_none() {
            // We haven't played this clip already. Set preview track!
            reg.preview_track = args.track;
        }
        // Start clip.
        let play_args = PlayArgs {
            timeline_cursor_pos: moment.cursor_pos,
            play_time: if args.options.next_bar {
                ClipStartTime::NextBar
            } else {
                ClipStartTime::Immediately
            },
            repetition: Repetition::from_bool(args.repeat),
        };
        src.play(play_args, moment);
        reg.src = Some(src);
        let handle = match self.handle {
            // Preview register playing already.
            Some(handle) => handle,
            // Preview register not playing yet.
            None => match engagement {
                Some(handle) => handle,
                None => {
                    return Err((State::Filled(self), SlotError::CouldNotPlayPreview));
                },
            },
        };
        Ok(
            State::Filled(
                FilledState {
                    last_clip_play_state: self.last_clip_play_state,
                    handle: Some(handle),
                    last_play_args: Some(args),
                    was_caused_by_transport_change: self.was_caused_by_transport_change,
                },
            ),
        )
    }

    pub fn pause(self, reg: &mut PreviewRegister, was_caused_by_transport_change: bool, timeline_cursor_pos: i64) -> (r:
        Result<State, (State, SlotError)>)
        ensures
            r == Ok::<State, (State, SlotError)>(
                State::Filled(FilledState { was_caused_by_transport_change, ..self }),
            ),
            *final(reg) == Self::pause_register_spec(*old(reg)),
    {
        match reg.src {
            Some(s) => {
                let mut src = s;
                src.pause(timeline_cursor_pos);
                reg.src = Some(src);
            },
            None => {},
        }
        Ok(
            State::Filled(
                FilledState {
                    last_clip_play_state: self.last_clip_play_state,
                    handle: self.handle,
                    last_play_args: self.last_play_args,
                    was_caused_by_transport_change,
                },
            ),
        )
    }

    pub fn record(self, reg: &mut PreviewRegister, record_args: RecordArgs) -> (r: Result<
        State,
        (State, SlotError),
    >)
        ensures
            old(reg).src is None ==> r == Err::<State, (State, SlotError)>(
                (State::Filled(self), SlotError::NoSourceLoaded),
            ) && *final(reg) == *old(reg),
            old(reg).src is Some ==> r == Ok::<State, (State, SlotError)>(State::Filled(self))
                && *final(reg) == with_src(*old(reg), old(reg).src->Some_0.record_spec()),
    {
        let mut src = match reg.src {
            Some(s) => s,
            None => {
                return Err((State::Filled(self), SlotError::NoSourceLoaded));
            },
        };
        src.record(record_args);
        reg.src = Some(src);
        Ok(State::Filled(self))
    }

    pub fn stop(
        self,
        reg: &mut PreviewRegister,
        stop_behavior: SlotStopBehavior,
        was_caused_by_transport_change: bool,
        moment: &TimelineMoment,
    ) -> (r: Result<State, (State, SlotError)>)
        ensures
            r == Ok::<State, (State, SlotError)>(
                State::Filled(FilledState { was_caused_by_transport_change, ..self }),
            ),
            *final(reg) == Self::stop_register_spec(*old(reg), stop_behavior, *moment),
    {
        match reg.src {
            Some(s) => {
                let mut src = s;
                let stop_args = StopArgs {
                    timeline_cursor_pos: moment.cursor_pos,
                    timeline_tempo: moment.tempo,
                    stop_time: stop_behavior.get_clip_stop_position(),
                };
                src.stop(stop_args);
                reg.src = Some(src);
            },
            None => {},
        }
        Ok(
            State::Filled(
                FilledState {
                    last_clip_play_state: self.last_clip_play_state,
                    handle: self.handle,
                    last_play_args: self.last_play_args,
                    was_caused_by_transport_change,
                },
            ),
        )
    }

    /// Empties the slot: the source is gone, and the delivery of blocks, if
    /// there was one, is to be ended.
    pub fn clear(self, reg: &mut PreviewRegister) -> (r: (
        Result<State, (State, SlotError)>,
        Option<Disengagement>,
    ))
        ensures
            r.0 == Ok::<State, (State, SlotError)>(State::Empty),
            r.1 == (match self.handle {
                Some(handle) => Some(
                    Disengagement {
                        handle,
                        track: match self.last_play_args {
                            Some(a) => a.track,
                            None => None,
                        },
                    },
                ),
                None => None,
            }),
            *final(reg) == (PreviewRegister { src: None, ..*old(reg) }),
    {
        let disengagement = match self.handle {
            Some(handle) => Some(
                Disengagement {
                    handle,
                    track: match self.last_play_args {
                        Some(a) => a.track,
                        None => None,
                    },
                },
            ),
            None => None,
        };
        reg.src = None;
        (Ok(State::Empty), disengagement)
    }

    pub fn play_state(&self, reg: &PreviewRegister) -> (r: ClipPlayState)
        ensures
            r == (match reg.src {
                Some(src) => play_state_spec(src.state),
                None => ClipPlayState::Stopped,
            }),
    {
        match reg.src {
            Some(src) => get_play_state(src.clip_state()),
            None => ClipPlayState::Stopped,
        }
    }

    /// Looks at the clip and reports one event: the play state if it
    /// changed since the last poll, the position otherwise. Without a source
    /// nothing is reported and nothing changes.
    pub fn poll(self, reg: &PreviewRegister, timeline_cursor_pos: i64, timeline_tempo: u32) -> (r: (
        Result<State, (State, SlotError)>,
        Option<ClipChangedEvent>,
    ))
        ensures
            reg.src is None ==> r == (
                Ok::<State, (State, SlotError)>(State::Filled(self)),
                None::<ClipChangedEvent>,
            ),
            reg.src is Some ==> r == (
                Ok::<State, (State, SlotError)>(
                    State::Filled(
                        FilledState {
                            last_clip_play_state: play_state_spec(reg.src->Some_0.state),
                            ..self
                        },
                    ),
                ),
                Some(self.poll_event_spec(reg.src->Some_0, timeline_cursor_pos, timeline_tempo)),
            ),
    {
        let src = match reg.src {
            Some(s) => s,
            None => {
                return (Ok(State::Filled(self)), None);
            },
        };
        let args = PosWithinClipArgs { timeline_cursor_pos, timeline_tempo };
        let pos_within_clip = src.proportional_pos_within_clip(args);
        let clip_state = src.clip_state();
        let play_state = get_play_state(clip_state);
        let next_event = if play_state == self.last_clip_play_state {
            // Play state has not changed: the position is what changes.
            ClipChangedEvent::ClipPosition(
                match pos_within_clip {
                    Some(p) => p,
                    None => Proportion::minimum(),
                },
            )
        } else {
            // Play state has changed. Emit this instead of a position change.
            ClipChangedEvent::PlayState(play_state)
        };
        let next_state = FilledState {
            last_clip_play_state: play_state,
            handle: self.handle,
            last_play_args: self.last_play_args,
            was_caused_by_transport_change: self.was_caused_by_transport_change,
        };
        (Ok(State::Filled(next_state)), Some(next_event))
    }
}

/// What a slot does when the host's transport changes.
#[derive(Copy, Clone, Debug, PartialEq, Eq, Structural)]
pub enum TransportReaction {
    /// Leave the clip as it is.
    Nothing,
    /// Play the clip as it was last played.
    Play(ClipPlayArgs),
    /// Stop the clip at once. `memorize` says whether the stop counts as
    /// caused by the host's transport, so that a later start of the
    /// transport plays the clip again.
    Stop { memorize: bool },
}

/// The state that a slot has after a transition, and the error if it
/// failed: a failed transition leaves the state with which it began.
pub open spec fn settled(result: Result<State, (State, SlotError)>) -> State {
    match result {
        Ok(state) => state,
        Err((state, _)) => state,
    }
}

/// What the caller of a transition is told.
pub open spec fn verdict(result: Result<State, (State, SlotError)>) -> Result<(), SlotError> {
    match result {
        Ok(_) => Ok(()),
        Err((_, error)) => Err(error),
    }
}

impl State {
    /// The play state that the slot reports.
    pub open spec fn play_state_of(self, reg: PreviewRegister) -> ClipPlayState {
        match (self, reg.src) {
            (State::Filled(_), Some(src)) => play_state_spec(src.state),
            _ => ClipPlayState::Stopped,
        }
    }

    /// A play command: an empty slot cannot play.
    pub open spec fn play_transition(
        self,
        reg: PreviewRegister,
        args: ClipPlayArgs,
        moment: TimelineMoment,
        engagement: Option<u64>,
    ) -> (Result<State, (State, SlotError)>, PreviewRegister) {
        match self {
            State::Empty => (Err((State::Empty, SlotError::SlotIsEmpty)), reg),
            State::Filled(s) => (
                s.play_spec(reg, args, engagement),
                s.play_register_spec(reg, args, moment),
            ),
        }
    }

    /// A stop command: the clip is told to stop, and the slot notes whether
    /// the host's transport caused it. An empty slot has nothing to stop.
    pub open spec fn stop_transition(
        self,
        reg: PreviewRegister,
        stop_behavior: SlotStopBehavior,
        was_caused_by_transport_change: bool,
        moment: TimelineMoment,
    ) -> (Result<State, (State, SlotError)>, PreviewRegister) {
        match self {
            State::Empty => (Err((State::Empty, SlotError::SlotIsEmpty)), reg),
            State::Filled(s) => (
                Ok(State::Filled(FilledState { was_caused_by_transport_change, ..s })),
                FilledState::stop_register_spec(reg, stop_behavior, moment),
            ),
        }
    }

    /// A pause command: an empty slot has nothing to pause.
    pub open spec fn pause_transition(self, reg: PreviewRegister) -> (
        Result<State, (State, SlotError)>,
        PreviewRegister,
    ) {
        match self {
            State::Empty => (Err((State::Empty, SlotError::SlotIsEmpty)), reg),
            State::Filled(s) => (
                Ok(State::Filled(FilledState { was_caused_by_transport_change: false, ..s })),
                FilledState::pause_register_spec(reg),
            ),
        }
    }

    /// A record command: it needs a slot that is filled, and a source.
    pub open spec fn record_transition(self, reg: PreviewRegister) -> (
        Result<State, (State, SlotError)>,
        PreviewRegister,
    ) {
        match (self, reg.src) {
            (State::Empty, _) => (Err((State::Empty, SlotError::SlotIsEmpty)), reg),
            (State::Filled(_), None) => (Err((self, SlotError::NoSourceLoaded)), reg),
            (State::Filled(_), Some(src)) => (Ok(self), with_src(reg, src.record_spec())),
        }
    }

    /// The delivery of blocks that is to be ended when the slot is
    /// cleared.
    pub open spec fn disengagement_spec(self) -> Option<Disengagement> {
        match self {
            State::Filled(FilledState { handle: Some(handle), last_play_args, .. }) => Some(
                Disengagement {
                    handle,
                    track: match last_play_args {
                        Some(a) => a.track,
                        None => None,
                    },
                },
            ),
            _ => None,
        }
    }

    /// Clearing: the slot is empty afterwards and a filled slot loses its
    /// source.
    pub open spec fn clear_transition(self, reg: PreviewRegister) -> (
        Result<State, (State, SlotError)>,
        PreviewRegister,
    ) {
        match self {
            State::Empty => (Ok(State::Empty), reg),
            State::Filled(_) => (Ok(State::Empty), PreviewRegister { src: None, ..reg }),
        }
    }

    /// A poll: the slot remembers the play state it saw, and reports one
    /// event. An empty slot and a slot without a source report nothing.
    pub open spec fn poll_transition(
        self,
        reg: PreviewRegister,
        timeline_cursor_pos: i64,
        timeline_tempo: u32,
    ) -> (Result<State, (State, SlotError)>, Option<ClipChangedEvent>) {
        match (self, reg.src) {
            (State::Filled(s), Some(src)) => (
                Ok(
                    State::Filled(
                        FilledState { last_clip_play_state: play_state_spec(src.state), ..s },
                    ),
                ),
                Some(s.poll_event_spec(src, timeline_cursor_pos, timeline_tempo)),
            ),
            _ => (Ok(self), None),
        }
    }

    /// Filling: the register takes the source. A slot that was empty then
    /// holds a stopped clip that was never played; a filled slot keeps its
    /// state.
    pub open spec fn fill_transition(self, source: ClipPcmSource, reg: PreviewRegister) -> (
        Result<State, (State, SlotError)>,
        PreviewRegister,
    ) {
        (
            Ok(
                match self {
                    State::Empty => State::Filled(
                        FilledState {
                            last_clip_play_state: ClipPlayState::Stopped,
                            handle: None,
                            last_play_args: None,
                            was_caused_by_transport_change: false,
                        },
                    ),
                    State::Filled(_) => self,
                },
            ),
            with_src(reg, source),
        )
    }

    /// What a slot does when the host's transport changes.
    ///
    /// - An empty slot, and a clip that was never played, stay as they
    ///   are.
    /// - When the transport starts, a clip that a stop of the transport
    ///   stopped or paused plays again; any other clip is stopped.
    /// - When the transport stops from playing, a clip that is under way
    ///   and synced to the bar is stopped and remembered; any other clip
    ///   is stopped and forgotten.
    /// - When the transport stops from a pause, the clip is stopped.
    /// - When the play cursor jumps, a clip that is under way and synced to
    ///   the bar is played anew.
    pub open spec fn transport_reaction_spec(
        self,
        play_state: ClipPlayState,
        change: TransportChange,
    ) -> TransportReaction {
        match self {
            State::Empty => TransportReaction::Nothing,
            State::Filled(s) => match s.last_play_args {
                None => TransportReaction::Nothing,
                Some(play_args) => {
                    let synced = play_args.options.next_bar;
                    match change {
                        TransportChange::PlayState(RelevantPlayStateChange::PlayAfterStop) => {
                            if (play_state == ClipPlayState::Stopped || play_state
                                == ClipPlayState::Paused) && s.was_caused_by_transport_change {
                                TransportReaction::Play(play_args)
                            } else {
                                TransportReaction::Stop { memorize: false }
                            }
                        },
                        TransportChange::PlayState(RelevantPlayStateChange::StopAfterPlay) => {
                            TransportReaction::Stop { memorize: is_under_way(play_state) && synced }
                        },
                        TransportChange::PlayState(RelevantPlayStateChange::StopAfterPause) => {
                            TransportReaction::Stop { memorize: false }
                        },
                        TransportChange::PlayCursorJump => {
                            if synced && is_under_way(play_state) {
                                TransportReaction::Play(play_args)
                            } else {
                                TransportReaction::Nothing
                            }
                        },
                    }
                },
            },
        }
    }

    /// A change of the host's transport: the slot reacts as
    /// `transport_reaction_spec` says.
    pub open spec fn transport_transition(
        self,
        reg: PreviewRegister,
        change: TransportChange,
        moment: TimelineMoment,
        engagement: Option<u64>,
    ) -> (Result<State, (State, SlotError)>, PreviewRegister) {
        match self.transport_reaction_spec(self.play_state_of(reg), change) {
            TransportReaction::Nothing => (Ok(self), reg),
            TransportReaction::Play(args) => self.play_transition(reg, args, moment, engagement),
            TransportReaction::Stop { memorize } => self.stop_transition(
                reg,
                SlotStopBehavior::Immediately,
                memorize,
                moment,
            ),
        }
    }

    /// Derives the corresponding clip play state.
    pub fn play_state(&self, reg: &PreviewRegister) -> (r: ClipPlayState)
        ensures
            r == self.play_state_of(*reg),
    {
        match self {
            State::Empty => ClipPlayState::Stopped,
            State::Filled(s) => s.play_state(reg),
        }
    }

    /// Decides what to do when the host's transport changes.
    pub fn transport_reaction(&self, play_state: ClipPlayState, change: TransportChange) -> (r:
        TransportReaction)
        ensures
            r == self.transport_reaction_spec(play_state, change),
    {
        let s = match self {
            State::Empty => {
                return TransportReaction::Nothing;
            },
            State::Filled(s) => s,
        };
        let play_args = match s.last_play_args {
            None => {
                return TransportReaction::Nothing;
            },
            Some(a) => a,
        };
        let synced = play_args.options.next_bar;
        let under_way = match play_state {
            ClipPlayState::ScheduledForPlay | ClipPlayState::Playing
            | ClipPlayState::ScheduledForStop => true,
            _ => false,
        };
        let halted = match play_state {
            ClipPlayState::Stopped | ClipPlayState::Paused => true,
            _ => false,
        };
        match change {
            TransportChange::PlayState(rel_change) => match rel_change {
                RelevantPlayStateChange::PlayAfterStop => {
                    if halted && s.was_caused_by_transport_change {
                        TransportReaction::Play(play_args)
                    } else {
                        TransportReaction::Stop { memorize: false }
                    }
                },
                RelevantPlayStateChange::StopAfterPlay => TransportReaction::Stop {
                    memorize: under_way && synced,
                },
                RelevantPlayStateChange::StopAfterPause => TransportReaction::Stop {
                    memorize: false,
                },
            },
            TransportChange::PlayCursorJump => {
                if synced && under_way {
                    TransportReaction::Play(play_args)
                } else {
                    TransportReaction::Nothing
                }
            },
        }
    }

    /// Makes the clip start and stop with the host's transport.
    pub fn process_transport_change(
        self,
        reg: &mut PreviewRegister,
        change: TransportChange,
        moment: &TimelineMoment,
        engagement: Option<u64>,
    ) -> (r: Result<State, (State, SlotError)>)
        ensures
            (r, *final(reg)) == self.transport_transition(*old(reg), change, *moment, engagement),
    {
        let play_state = self.play_state(reg);
        match self.transport_reaction(play_state, change) {
            TransportReaction::Nothing => Ok(self),
            TransportReaction::Play(args) => self.play(reg, args, moment, engagement),
            TransportReaction::Stop { memorize } => match self {
                State::Filled(s) => s.stop(reg, SlotStopBehavior::Immediately, memorize, moment),
                State::Empty => Ok(State::Empty),
            },
        }
    }

    /// Plays the clip. An empty slot cannot play.
    pub fn play(
        self,
        reg: &mut PreviewRegister,
        args: ClipPlayArgs,
        moment: &TimelineMoment,
        engagement: Option<u64>,
    ) -> (r: Result<State, (State, SlotError)>)
        ensures
            (r, *final(reg)) == self.play_transition(*old(reg), args, *moment, engagement),
    {
        match self {
            State::Empty => Err((State::Empty, SlotError::SlotIsEmpty)),
            State::Filled(s) => s.play(reg, args, moment, engagement),
        }
    }

    pub fn stop(
        self,
        reg: &mut PreviewRegister,
        stop_behavior: SlotStopBehavior,
        moment: &TimelineMoment,
    ) -> (r: Result<State, (State, SlotError)>)
        ensures
            (r, *final(reg)) == self.stop_transition(*old(reg), stop_behavior, false, *moment),
    {
        match self {
            State::Empty => Err((State::Empty, SlotError::SlotIsEmpty)),
            State::Filled(s) => s.stop(reg, stop_behavior, false, moment),
        }
    }

    pub fn pause(self, reg: &mut PreviewRegister, timeline_cursor_pos: i64) -> (r: Result<
        State,
        (State, SlotError),
    >)
        ensures
            (r, *final(reg)) == self.pause_transition(*old(reg)),
    {
        match self {
            State::Empty => Err((State::Empty, SlotError::SlotIsEmpty)),
            State::Filled(s) => s.pause(reg, false, timeline_cursor_pos),
        }
    }

    pub fn record(self, reg: &mut PreviewRegister, record_args: RecordArgs) -> (r: Result<
        State,
        (State, SlotError),
    >)
        ensures
            (r, *final(reg)) == self.record_transition(*old(reg)),
    {
        match self {
            State::Empty => Err((State::Empty, SlotError::SlotIsEmpty)),
            State::Filled(s) => s.record(reg, record_args),
        }
    }

    /// Empties the slot, and says which delivery of blocks the host is to
    /// end, if any.
    pub fn clear(self, reg: &mut PreviewRegister) -> (r: (
        Result<State, (State, SlotError)>,
        Option<Disengagement>,
    ))
        ensures
            (r.0, *final(reg)) == self.clear_transition(*old(reg)),
            r.1 == self.disengagement_spec(),
    {
        match self {
            State::Empty => (Ok(State::Empty), None),
            State::Filled(s) => s.clear(reg),
        }
    }

    pub fn poll(self, reg: &PreviewRegister, timeline_cursor_pos: i64, timeline_tempo: u32) -> (r: (
        Result<State, (State, SlotError)>,
        Option<ClipChangedEvent>,
    ))
        ensures
            r == self.poll_transition(*reg, timeline_cursor_pos, timeline_tempo),
    {
        match self {
            State::Filled(s) => s.poll(reg, timeline_cursor_pos, timeline_tempo),
            // When empty, change nothing and emit no change events.
            State::Empty => (Ok(self), None),
        }
    }

    /// Puts a new source into the slot.
    pub fn fill_with_source(self, source: ClipPcmSource, reg: &mut PreviewRegister) -> (r: Result<
        State,
        (State, SlotError),
    >)
        ensures
            (r, *final(reg)) == self.fill_transition(source, *old(reg)),
    {
        match self {
            State::Empty => {
                reg.src = Some(source);
                Ok(
                    State::Filled(
                        FilledState {
                            last_clip_play_state: ClipPlayState::Stopped,
                            handle: None,
                            last_play_args: None,
                            was_caused_by_transport_change: false,
                        },
                    ),
                )
            },
            State::Filled(s) => s.fill_with_source(source, reg),
        }
    }
}

/// A slot for one clip.
///
/// Every command takes the state of the slot, works out the transition, and
/// puts back the new state, or, where the transition failed, the state with
/// which it began, together with the error.
#[derive(Copy, Clone, Debug, PartialEq, Eq, Structural)]
pub struct ClipSlot {
    pub index: u32,
    pub clip: LegacyClip,
    pub register: PreviewRegister,
    pub state: State,
}

impl ClipSlot {
    /// An empty slot with default settings.
    pub open spec fn spec_new(index: u32) -> ClipSlot {
        ClipSlot {
            index,
            clip: LegacyClip::spec_default(),
            register: PreviewRegister::spec_create(LegacyClip::spec_default()),
            state: State::Empty,
        }
    }

    /// The slot after a transition of its state and register.
    pub open spec fn applied(
        self,
        transition: (Result<State, (State, SlotError)>, PreviewRegister),
    ) -> ClipSlot {
        ClipSlot { state: settled(transition.0), register: transition.1, ..self }
    }

    /// How the slot tells its clip to play.
    pub open spec fn clip_play_args(self, track: Option<u32>, options: SlotPlayOptions) -> ClipPlayArgs {
        ClipPlayArgs { options, track, repeat: self.clip.repeat }
    }

    /// The events that tell all about a slot that was loaded anew.
    pub open spec fn load_events_spec(self) -> Seq<ClipChangedEvent> {
        seq![
            ClipChangedEvent::PlayState(self.state.play_state_of(self.register)),
            ClipChangedEvent::ClipVolume(self.clip.volume),
            ClipChangedEvent::ClipRepeat(self.clip.repeat),
        ]
    }

    /// The slot with the given settings and nothing loaded.
    pub open spec fn started_load_spec(self, clip: LegacyClip) -> ClipSlot {
        ClipSlot {
            index: self.index,
            clip,
            register: PreviewRegister::spec_create(clip),
            state: State::Empty,
        }
    }

    /// The slot with the given source in place of its own.
    pub open spec fn with_source(self, src: ClipPcmSource) -> ClipSlot {
        ClipSlot { register: with_src(self.register, src), ..self }
    }

    /// The position of the clip as a proportion of its length: the start
    /// for an empty slot and where the clip has no position.
    pub open spec fn proportional_position_spec(self, moment: TimelineMoment) -> Result<
        Proportion,
        SlotError,
    > {
        match self.register.src {
            None => Err(SlotError::NoSourceLoaded),
            Some(src) => Ok(
                if self.state is Empty {
                    Proportion::min()
                } else {
                    match proportional_position_spec(
                        src.pos_within_clip_spec(
                            PosWithinClipArgs {
                                timeline_cursor_pos: moment.cursor_pos,
                                timeline_tempo: moment.tempo,
                            },
                        ),
                        src.clip_length_spec(moment.tempo),
                    ) {
                        Some(p) => p,
                        None => Proportion::min(),
                    }
                },
            ),
        }
    }

    /// The position of the clip in nanoseconds: zero for an empty slot and
    /// where the clip has no position.
    pub open spec fn position_in_seconds_spec(self, moment: TimelineMoment) -> Result<i64, SlotError> {
        match self.register.src {
            None => Err(SlotError::NoSourceLoaded),
            Some(src) => Ok(
                if self.state is Empty {
                    0
                } else {
                    match src.pos_within_clip_spec(
                        PosWithinClipArgs {
                            timeline_cursor_pos: moment.cursor_pos,
                            timeline_tempo: moment.tempo,
                        },
                    ) {
                        Some(p) => p,
                        None => 0,
                    }
                },
            ),
        }
    }

    pub fn new(index: u32) -> (slot: ClipSlot)
        ensures
            slot == Self::spec_new(index),
    {
        let descriptor = LegacyClip::new_default();
        let register = create_shared_register(&descriptor);
        ClipSlot { index, clip: descriptor, register, state: State::Empty }
    }

    /// Returns the slot descriptor.
    pub fn descriptor(&self) -> (r: &LegacyClip)
        ensures
            *r == self.clip,
    {
        &self.clip
    }

    fn start_transition(&self) -> (r: State)
        ensures
            r == self.state,
    {
        self.state
    }

    fn finish_transition(&mut self, result: Result<State, (State, SlotError)>) -> (r: Result<
        (),
        SlotError,
    >)
        ensures
            *final(self) == (ClipSlot { state: settled(result), ..*old(self) }),
            r == verdict(result),
    {
        match result {
            Ok(s) => {
                self.state = s;
                Ok(())
            },
            Err((s, error)) => {
                self.state = s;
                Err(error)
            },
        }
    }

    /// Stops playback if necessary, destroys the contained source and
    /// resets the playback position to zero. Says which delivery of blocks
    /// the host is to end, if any.
    pub fn clear(&mut self) -> (r: Result<Option<Disengagement>, SlotError>)
        ensures
            *final(self) == old(self).applied(old(self).state.clear_transition(old(self).register)),
            r == Ok::<Option<Disengagement>, SlotError>(old(self).state.disengagement_spec()),
    {
        let (result, disengagement) = self.start_transition().clear(&mut self.register);
        match self.finish_transition(result) {
            Ok(()) => Ok(disengagement),
            Err(e) => Err(e),
        }
    }

    fn start_load(&mut self, clip: LegacyClip) -> (r: Result<Option<Disengagement>, SlotError>)
        ensures
            *final(self) == old(self).started_load_spec(clip),
            r == Ok::<Option<Disengagement>, SlotError>(old(self).state.disengagement_spec()),
    {
        let disengagement = match self.clear() {
            Ok(d) => d,
            Err(e) => {
                return Err(e);
            },
        };
        // Using a completely new register saves us from cleaning up.
        self.register = create_shared_register(&clip);
        self.clip = clip;
        Ok(disengagement)
    }

    fn load_events(&self) -> (r: Vec<ClipChangedEvent>)
        ensures
            r@ == self.load_events_spec(),
    {
        let events = vec![
            self.play_state_changed_event(),
            self.volume_changed_event(),
            self.repeat_changed_event(),
        ];
        assert(events@ =~= self.load_events_spec());
        events
    }

    /// Empties the slot and resets all settings to the defaults (including
    /// volume, repeat etc.). Returns the events that tell of the new
    /// settings, and the delivery of blocks that the host is to end, if
    /// any.
    pub fn reset(&mut self) -> (r: Result<(Vec<ClipChangedEvent>, Option<Disengagement>), SlotError>)
        ensures
            *final(self) == Self::spec_new(old(self).index),
            r is Ok,
            r->Ok_0.0@ == final(self).load_events_spec(),
            r->Ok_0.1 == old(self).state.disengagement_spec(),
    {
        let disengagement = match self.start_load(LegacyClip::new_default()) {
            Ok(d) => d,
            Err(e) => {
                return Err(e);
            },
        };
        Ok((self.load_events(), disengagement))
    }

    /// Loads all slot settings from the given descriptor, and the source
    /// that was made for its content, if one could be made. Stops playback
    /// if necessary.
    pub fn load(&mut self, clip: LegacyClip, source: Option<ClipPcmSource>) -> (r: Result<
        (Vec<ClipChangedEvent>, Option<Disengagement>),
        SlotError,
    >)
        ensures
            *final(self) == (match (clip.content, source) {
                (Some(_), Some(src)) => old(self).started_load_spec(clip).applied(
                    State::Empty.fill_transition(src, PreviewRegister::spec_create(clip)),
                ),
                _ => old(self).started_load_spec(clip),
            }),
            r is Ok,
            r->Ok_0.0@ == final(self).load_events_spec(),
            r->Ok_0.1 == old(self).state.disengagement_spec(),
    {
        let disengagement = match self.start_load(clip) {
            Ok(d) => d,
            Err(e) => {
                return Err(e);
            },
        };
        // If we can't load now, don't complain. Maybe media is missing just temporarily.
        if self.clip.content.is_some() {
            match source {
                Some(src) => {
                    let _ = self.fill_with_source(src);
                },
                None => {},
            }
        }
        Ok((self.load_events(), disengagement))
    }

    /// Fills this slot with the given content, triggered by a user
    /// interaction.
    pub fn fill_by_user(&mut self, content: ClipContent, source: ClipPcmSource) -> (r: Result<
        (),
        SlotError,
    >)
        ensures
            *final(self) == (ClipSlot {
                clip: LegacyClip { content: Some(content), ..old(self).clip },
                ..old(self).applied(old(self).state.fill_transition(source, old(self).register))
            }),
            r is Ok,
    {
        match self.fill_with_source(source) {
            Ok(()) => {},
            Err(e) => {
                return Err(e);
            },
        }
        // Here it's important to not set the descriptor unless load was successful.
        self.clip.content = Some(content);
        Ok(())
    }

    fn fill_with_source(&mut self, source: ClipPcmSource) -> (r: Result<(), SlotError>)
        ensures
            *final(self) == old(self).applied(
                old(self).state.fill_transition(source, old(self).register),
            ),
            r is Ok,
    {
        let result = self.start_transition().fill_with_source(source, &mut self.register);
        self.finish_transition(result)
    }

    /// This method should be called regularly. It looks at the clip,
    /// remembers its play state, and returns one event: a change of the
    /// play state, or else the position.
    pub fn poll(&mut self, timeline_cursor_pos: i64, timeline_tempo: u32) -> (r: Option<
        ClipChangedEvent,
    >)
        ensures
            ({
                let t = old(self).state.poll_transition(
                    old(self).register,
                    timeline_cursor_pos,
                    timeline_tempo,
                );
                *final(self) == (ClipSlot { state: settled(t.0), ..*old(self) }) && r == t.1
            }),
    {
        let (result, change_events) = self.start_transition().poll(
            &self.register,
            timeline_cursor_pos,
            timeline_tempo,
        );
        match self.finish_transition(result) {
            Ok(()) => change_events,
            Err(_) => None,
        }
    }

    /// Returns whether there's anything at all in this slot.
    pub fn is_filled(&self) -> (r: bool)
        ensures
            r == self.clip.content is Some,
    {
        self.clip.is_filled()
    }

    /// A slot can be filled but the source might not be loaded.
    pub fn source_is_loaded(&self) -> (r: bool)
        ensures
            r == self.state is Filled,
    {
        match self.state {
            State::Empty => false,
            State::Filled(_) => true,
        }
    }

    /// Whether the host delivers blocks for this slot, so that it need not
    /// be asked again.
    pub fn is_engaged(&self) -> (r: bool)
        ensures
            r == (self.state is Filled && self.state->Filled_0.handle is Some),
    {
        match self.state {
            State::Empty => false,
            State::Filled(s) => s.handle.is_some(),
        }
    }

    /// Returns the play state of this slot, derived from the slot state.
    pub fn play_state(&self) -> (r: ClipPlayState)
        ensures
            r == self.state.play_state_of(self.register),
    {
        self.state.play_state(&self.register)
    }

    fn play_state_changed_event(&self) -> (r: ClipChangedEvent)
        ensures
            r == ClipChangedEvent::PlayState(self.state.play_state_of(self.register)),
    {
        ClipChangedEvent::PlayState(self.play_state())
    }

    /// Instructs this slot to play the contained clip.
    ///
    /// The clip might start immediately or on the next bar, depending on
    /// the play options. `engagement` is the handle that the host gave when
    /// it was asked to deliver blocks, or none if it refused; it counts only
    /// while the slot is not engaged.
    pub fn play(
        &mut self,
        track: Option<u32>,
        options: SlotPlayOptions,
        moment: &TimelineMoment,
        engagement: Option<u64>,
    ) -> (r: Result<(), SlotError>)
        ensures
            ({
                let t = old(self).state.play_transition(
                    old(self).register,
                    old(self).clip_play_args(track, options),
                    *moment,
                    engagement,
                );
                *final(self) == old(self).applied(t) && r == verdict(t.0)
            }),
    {
        let args = ClipPlayArgs { options, track, repeat: self.clip.repeat };
        let result = self.start_transition().play(&mut self.register, args, moment, engagement);
        self.finish_transition(result)
    }

    /// This method should be called whenever the host's play state
    /// changes. It makes the clip start and stop with the host's transport.
    pub fn process_transport_change(
        &mut self,
        change: TransportChange,
        moment: &TimelineMoment,
        engagement: Option<u64>,
    ) -> (r: Result<(), SlotError>)
        ensures
            ({
                let t = old(self).state.transport_transition(
                    old(self).register,
                    change,
                    *moment,
                    engagement,
                );
                *final(self) == old(self).applied(t) && r == verdict(t.0)
            }),
    {
        let result = self.start_transition().process_transport_change(
            &mut self.register,
            change,
            moment,
            engagement,
        );
        self.finish_transition(result)
    }

    /// Instructs this slot to stop the contained clip, either immediately
    /// or when it has finished playing.
    pub fn stop(&mut self, stop_behavior: SlotStopBehavior, moment: &TimelineMoment) -> (r: Result<
        (),
        SlotError,
    >)
        ensures
            ({
                let t = old(self).state.stop_transition(
                    old(self).register,
                    stop_behavior,
                    false,
                    *moment,
                );
                *final(self) == old(self).applied(t) && r == verdict(t.0)
            }),
    {
        let result = self.start_transition().stop(&mut self.register, stop_behavior, moment);
        self.finish_transition(result)
    }

    /// Instructs this slot to record a clip.
    pub fn record(&mut self, args: RecordArgs) -> (r: Result<(), SlotError>)
        ensures
            ({
                let t = old(self).state.record_transition(old(self).register);
                *final(self) == old(self).applied(t) && r == verdict(t.0)
            }),
    {
        let result = self.start_transition().record(&mut self.register, args);
        self.finish_transition(result)
    }

    /// Pauses clip playing.
    pub fn pause(&mut self, timeline_cursor_pos: i64) -> (r: Result<(), SlotError>)
        ensures
            ({
                let t = old(self).state.pause_transition(old(self).register);
                *final(self) == old(self).applied(t) && r == verdict(t.0)
            }),
    {
        let result = self.start_transition().pause(&mut self.register, timeline_cursor_pos);
        self.finish_transition(result)
    }

    /// Returns whether repeat is enabled for this clip.
    pub fn repeat_is_enabled(&self) -> (r: bool)
        ensures
            r == self.clip.repeat,
    {
        self.clip.repeat
    }

    fn repeat_changed_event(&self) -> (r: ClipChangedEvent)
        ensures
            r == ClipChangedEvent::ClipRepeat(self.clip.repeat),
    {
        ClipChangedEvent::ClipRepeat(self.clip.repeat)
    }

    /// Toggles repeat for the slot clip. The transport of the clip stays
    /// in its state: the next block goes by the new setting.
    pub fn toggle_repeat(&mut self, moment: &TimelineMoment) -> (r: ClipChangedEvent)
        ensures
            r == ClipChangedEvent::ClipRepeat(!old(self).clip.repeat),
            final(self).clip == (LegacyClip { repeat: !old(self).clip.repeat, ..old(self).clip }),
            final(self).index == old(self).index,
            final(self).state == old(self).state,
            final(self).register == (match old(self).register.src {
                Some(src) => with_src(old(self).register, src.repeated_spec(!old(self).clip.repeat)),
                None => old(self).register,
            }),
    {
        let new_value = !self.clip.repeat;
        self.clip.repeat = new_value;
        let args = SetRepeatedArgs {
            timeline_cursor_pos: moment.cursor_pos,
            timeline_tempo: moment.tempo,
            repeated: new_value,
        };
        match self.register.src {
            Some(s) => {
                let mut src = s;
                src.set_repeated(args);
                self.register.src = Some(src);
            },
            None => {},
        }
        self.repeat_changed_event()
    }

    /// Returns the volume of the slot clip.
    pub fn volume(&self) -> (r: u32)
        ensures
            r == self.clip.volume,
    {
        self.clip.volume
    }

    fn volume_changed_event(&self) -> (r: ClipChangedEvent)
        ensures
            r == ClipChangedEvent::ClipVolume(self.clip.volume),
    {
        ClipChangedEvent::ClipVolume(self.clip.volume)
    }

    /// Sets volume of the slot clip.
    pub fn set_volume(&mut self, volume: u32) -> (r: ClipChangedEvent)
        ensures
            r == ClipChangedEvent::ClipVolume(volume),
            *final(self) == (ClipSlot {
                clip: LegacyClip { volume, ..old(self).clip },
                register: PreviewRegister { volume, ..old(self).register },
                ..*old(self)
            }),
    {
        self.clip.volume = volume;
        self.register.volume = volume;
        self.volume_changed_event()
    }

    /// Returns the tempo factor of the slot clip: one while no source is
    /// loaded.
    pub fn tempo_factor(&self) -> (r: TempoFactor)
        ensures
            r == (match self.register.src {
                Some(src) => src.manual_tempo_factor,
                None => TempoFactor::one(),
            }),
    {
        match self.register.src {
            Some(src) => src.get_tempo_factor(),
            None => TempoFactor::unity(),
        }
    }

    /// Sets tempo factor of the slot clip.
    pub fn set_tempo_factor(&mut self, tempo_factor: TempoFactor) -> (r: Result<(), SlotError>)
        ensures
            old(self).register.src is None ==> r == Err::<(), SlotError>(SlotError::NoSourceLoaded)
                && *final(self) == *old(self),
            old(self).register.src is Some ==> r is Ok && *final(self) == old(self).with_source(
                old(self).register.src->Some_0.tempo_factor_set_spec(tempo_factor),
            ),
    {
        let mut src = match self.register.src {
            Some(s) => s,
            None => {
                return Err(SlotError::NoSourceLoaded);
            },
        };
        src.set_tempo_factor(tempo_factor);
        self.register.src = Some(src);
        Ok(())
    }

    /// Returns the current position within the slot clip as a proportion of
    /// its length.
    pub fn proportional_position(&self, moment: &TimelineMoment) -> (r: Result<Proportion, SlotError>)
        ensures
            r == self.proportional_position_spec(*moment),
    {
        let args = PosWithinClipArgs {
            timeline_cursor_pos: moment.cursor_pos,
            timeline_tempo: moment.tempo,
        };
        let src = match self.register.src {
            Some(s) => s,
            None => {
                return Err(SlotError::NoSourceLoaded);
            },
        };
        match self.state {
            State::Empty => Ok(Proportion::minimum()),
            State::Filled(_) => Ok(
                match src.proportional_pos_within_clip(args) {
                    Some(p) => p,
                    None => Proportion::minimum(),
                },
            ),
        }
    }

    /// Returns the current clip position in nanoseconds.
    pub fn position_in_seconds(&self, moment: &TimelineMoment) -> (r: Result<i64, SlotError>)
        ensures
            r == self.position_in_seconds_spec(*moment),
    {
        let args = PosWithinClipArgs {
            timeline_cursor_pos: moment.cursor_pos,
            timeline_tempo: moment.tempo,
        };
        let src = match self.register.src {
            Some(s) => s,
            None => {
                return Err(SlotError::NoSourceLoaded);
            },
        };
        match self.state {
            State::Empty => Ok(0),
            State::Filled(_) => Ok(
                match src.pos_within_clip(args) {
                    Some(p) => p,
                    None => 0,
                },
            ),
        }
    }

    /// What a seek does to the slot and what it returns.
    ///
    /// Without a source, and in a clip that is stopped, there is nowhere to
    /// seek: the command fails and changes nothing. In any other clip the
    /// transport is told to seek, which a suspending clip and a clip that
    /// has not started ignore. An event is returned only if the clip is
    /// paused: while it plays, polling tells of the position.
    pub open spec fn seek_spec(self, desired_proportional_pos: Proportion, moment: TimelineMoment) -> (
        ClipSlot,
        Result<Option<ClipChangedEvent>, SlotError>,
    ) {
        match self.register.src {
            None => (self, Err(SlotError::NoSourceLoaded)),
            Some(src) => if src.state is Stopped {
                (self, Err(SlotError::ClipIsStopped))
            } else {
                (
                    self.with_source(
                        src.seek_to_spec(
                            SeekToArgs {
                                timeline_cursor_pos: moment.cursor_pos,
                                timeline_tempo: moment.tempo,
                                desired_pos: desired_proportional_pos,
                            },
                        ),
                    ),
                    Ok(
                        if src.state is Paused {
                            Some(ClipChangedEvent::ClipPosition(desired_proportional_pos))
                        } else {
                            None
                        },
                    ),
                )
            },
        }
    }

    /// Changes the clip position as a proportion of its length.
    pub fn set_proportional_position(
        &mut self,
        desired_proportional_pos: Proportion,
        moment: &TimelineMoment,
    ) -> (r: Result<Option<ClipChangedEvent>, SlotError>)
        ensures
            (*final(self), r) == old(self).seek_spec(desired_proportional_pos, *moment),
    {
        let args = SeekToArgs {
            timeline_cursor_pos: moment.cursor_pos,
            timeline_tempo: moment.tempo,
            desired_pos: desired_proportional_pos,
        };
        let mut src = match self.register.src {
            Some(s) => s,
            None => {
                return Err(SlotError::NoSourceLoaded);
            },
        };
        let clip_state = src.clip_state();
        match clip_state {
            ClipState::Stopped => {
                return Err(SlotError::ClipIsStopped);
            },
            _ => {},
        }
        src.seek_to(args);
        self.register.src = Some(src);
        let event = match clip_state {
            ClipState::Paused { .. } => Some(ClipChangedEvent::ClipPosition(desired_proportional_pos)),
            // While the clip plays, position changes are detected by polling.
            _ => None,
        };
        Ok(event)
    }

    /// Works out one block of the real-time thread for the clip of this
    /// slot. A slot without a source stays silent.
    pub fn get_samples(
        &mut self,
        block: &BlockRequest,
        timeline: &TimelineMoment,
    ) -> (r: BlockOutcome)
        ensures
            old(self).register.src is None ==> *final(self) == *old(self) && r
                == BlockOutcome::nothing(),
            old(self).register.src is Some ==> (
                final(self).register.src->Some_0,
                r,
            ) == old(self).register.src->Some_0.samples_spec(*block, *timeline) && *final(self)
                == old(self).with_source(final(self).register.src->Some_0),
    {
        match self.register.src {
            Some(s) => {
                let mut src = s;
                let outcome = src.get_samples(block, timeline);
                self.register.src = Some(src);
                outcome
            },
            None => BlockOutcome { played: None, silence_midi: false },
        }
    }
}

/// A command that fails leaves the state of the slot as it was: an empty
/// slot stays empty, and a filled slot keeps its handle and what it
/// remembers of the last play.
pub proof fn law_failed_command_keeps_the_state(
    state: State,
    reg: PreviewRegister,
    args: ClipPlayArgs,
    stop_behavior: SlotStopBehavior,
    change: TransportChange,
    moment: TimelineMoment,
    engagement: Option<u64>,
)
    ensures
        state.play_transition(reg, args, moment, engagement).0 is Err ==> settled(
            state.play_transition(reg, args, moment, engagement).0,
        ) == state,
        state.stop_transition(reg, stop_behavior, false, moment).0 is Err ==> settled(
            state.stop_transition(reg, stop_behavior, false, moment).0,
        ) == state && state.stop_transition(reg, stop_behavior, false, moment).1 == reg,
        state.pause_transition(reg).0 is Err ==> settled(state.pause_transition(reg).0) == state
            && state.pause_transition(reg).1 == reg,
        state.record_transition(reg).0 is Err ==> settled(state.record_transition(reg).0) == state
            && state.record_transition(reg).1 == reg,
        state.transport_transition(reg, change, moment, engagement).0 is Err ==> settled(
            state.transport_transition(reg, change, moment, engagement).0,
        ) == state,
{
}

/// Any playback command to an empty slot fails, and leaves slot and
/// register as they were.
pub proof fn law_empty_slot_refuses_playback(
    reg: PreviewRegister,
    args: ClipPlayArgs,
    stop_behavior: SlotStopBehavior,
    moment: TimelineMoment,
    engagement: Option<u64>,
)
    ensures
        State::Empty.play_transition(reg, args, moment, engagement) == (
            Err::<State, (State, SlotError)>((State::Empty, SlotError::SlotIsEmpty)),
            reg,
        ),
        State::Empty.stop_transition(reg, stop_behavior, false, moment) == (
            Err::<State, (State, SlotError)>((State::Empty, SlotError::SlotIsEmpty)),
            reg,
        ),
        State::Empty.pause_transition(reg) == (
            Err::<State, (State, SlotError)>((State::Empty, SlotError::SlotIsEmpty)),
            reg,
        ),
        State::Empty.record_transition(reg) == (
            Err::<State, (State, SlotError)>((State::Empty, SlotError::SlotIsEmpty)),
            reg,
        ),
{
}

/// Once the host delivers blocks for a slot, playing again keeps the
/// delivery that there is: the handle stays, whatever the host says when
/// asked anew.
pub proof fn law_engagement_is_kept(
    filled: FilledState,
    reg: PreviewRegister,
    args: ClipPlayArgs,
    engagement: Option<u64>,
    handle: u64,
)
    requires
        filled.handle == Some(handle),
        reg.src is Some,
    ensures
        filled.play_spec(reg, args, engagement) is Ok,
        filled.play_spec(reg, args, engagement)->Ok_0 is Filled,
        filled.play_spec(reg, args, engagement)->Ok_0->Filled_0.handle == Some(handle),
{
}

} // verus!
