//! A clip source: the material of a clip with its chain of suppliers and
//! the state of its transport, and the commands that change that state.

use vstd::prelude::*;
use crate::clip_source::state::{
    ClipStartTime, ClipState, ClipStopTime, PlayArgs, PlayInstruction, PosWithinClipArgs,
    Proportion, RecordArgs, Repetition, ScheduledOrPlayingState, SeekToArgs, SetRepeatedArgs,
    StopArgs, SuspensionReason, TimelineMoment, START_END_FADE_LENGTH,
};
use crate::supplier::chain::ClipSupplierChain;
use crate::supplier::looper::{LoopBehavior, Looper};
use crate::supplier::material::SourceMaterial;
use crate::supplier::stretcher::Stretcher;
use crate::units::{
    at_least_one, clamp_i64, clamp_u64, convert_duration_in_frames_to_other_frame_rate,
    convert_duration_in_frames_to_seconds, convert_frames_spec, convert_position_in_frames_to_seconds,
    frames_to_nanos_spec, saturate_i64, saturate_u64, scale, scale_spec, signed_frames_to_nanos_spec,
    signed_scale, signed_scale_spec, TempoFactor, MIDI_BASE_TEMPO, MIDI_FRAME_RATE,
};

verus! {

/// Whether a source holds audio or MIDI material.
#[derive(Copy, Clone, Debug, PartialEq, Eq, Structural)]
pub enum InnerSourceKind {
    Audio,
    Midi,
}

/// The material of a clip and the chain of suppliers over it.
#[derive(Copy, Clone, Debug, PartialEq, Eq, Structural)]
pub struct InnerSource {
    pub kind: InnerSourceKind,
    pub chain: ClipSupplierChain,
}

impl InnerSource {
    pub fn is_midi(&self) -> (r: bool)
        ensures
            r == (self.kind == InnerSourceKind::Midi),
    {
        match self.kind {
            InnerSourceKind::Midi => true,
            InnerSourceKind::Audio => false,
        }
    }

    /// The tempo that the material is taken to be written in.
    pub fn original_tempo(&self) -> (r: u32)
        ensures
            r == MIDI_BASE_TEMPO,
    {
        MIDI_BASE_TEMPO
    }
}

/// A clip: its material, the chain of suppliers over it, and its transport.
///
/// Every value of this type is a valid clip: no field constrains another.
#[derive(Copy, Clone, Debug, PartialEq, Eq, Structural)]
pub struct ClipPcmSource {
    pub inner: InnerSource,
    /// This can change at any time; the next block goes by it.
    pub repetition: Repetition,
    /// A tempo factor set by hand, kept beside the one of the timeline.
    pub manual_tempo_factor: TempoFactor,
    /// The state of the transport.
    pub state: ClipState,
    /// The sample rate of the last block, once there was one.
    pub current_sample_rate: Option<u32>,
}

/// The reason that a suspension goes on with after a command that asks for
/// `new_reason`: the last command wins, except that a stop is given up only
/// for a command that takes effect at once.
pub open spec fn superseded_reason(
    reason: SuspensionReason,
    new_reason: SuspensionReason,
    immediate: bool,
) -> SuspensionReason {
    if reason == SuspensionReason::Stop && !immediate {
        reason
    } else {
        new_reason
    }
}

/// The proportion that a position is of a length, kept between nothing
/// and all. Of a length of zero every position is the start.
pub open spec fn proportional_position_spec(position: Option<i64>, length: u64) -> Option<
    Proportion,
> {
    if length == 0 {
        Some(Proportion::min())
    } else {
        match position {
            Some(p) => Some(Proportion::spec_new_clamped(p, length)),
            None => None,
        }
    }
}

/// Turns a position within a clip of the given length into a proportion.
pub fn calculate_proportional_position(position: Option<i64>, length: u64) -> (r: Option<
    Proportion,
>)
    ensures
        r == proportional_position_spec(position, length),
{
    if length == 0 {
        return Some(Proportion::minimum());
    }
    match position {
        Some(p) => Some(Proportion::new_clamped(p, length)),
        None => None,
    }
}

impl ClipPcmSource {
    // ------------------------------------------------------------------
    // What the clip is
    // ------------------------------------------------------------------
    /// The material at the bottom of the chain.
    pub open spec fn material(self) -> SourceMaterial {
        self.inner.chain.spec_material()
    }

    /// The same clip in another state.
    pub open spec fn with_state(self, state: ClipState) -> ClipPcmSource {
        ClipPcmSource { state, ..self }
    }

    /// The same clip with another looper in its chain.
    pub open spec fn with_looper(self, looper: Looper) -> ClipPcmSource {
        ClipPcmSource {
            inner: InnerSource {
                chain: ClipSupplierChain {
                    head: Stretcher { supplier: looper, ..self.inner.chain.head },
                },
                ..self.inner
            },
            ..self
        }
    }

    /// The same clip whose looper behaves in another way.
    pub open spec fn with_loop_behavior(self, loop_behavior: LoopBehavior) -> ClipPcmSource {
        self.with_looper(Looper { loop_behavior, ..self.inner.chain.spec_looper() })
    }

    /// A new clip over the given material: stopped, to be played once, with
    /// a chain that loops and stretches. MIDI material is counted at the
    /// MIDI frame rate.
    pub open spec fn spec_new(kind: InnerSourceKind, source: SourceMaterial) -> ClipPcmSource {
        let material = match kind {
            InnerSourceKind::Audio => source,
            InnerSourceKind::Midi => SourceMaterial { frame_rate: MIDI_FRAME_RATE, ..source },
        };
        let chain = ClipSupplierChain::spec_new(material);
        ClipPcmSource {
            inner: InnerSource {
                kind,
                chain: ClipSupplierChain {
                    head: Stretcher {
                        enabled: true,
                        supplier: Looper { fades_enabled: true, ..chain.head.supplier },
                        ..chain.head
                    },
                },
            },
            repetition: Repetition::Once,
            manual_tempo_factor: TempoFactor::one(),
            state: ClipState::Stopped,
            current_sample_rate: None,
        }
    }

    /// The frame rate at which positions in the source are counted.
    pub open spec fn source_frame_rate_spec(self) -> u32 {
        match self.inner.kind {
            InnerSourceKind::Audio => self.material().frame_rate,
            InnerSourceKind::Midi => MIDI_FRAME_RATE,
        }
    }

    /// The frames of one cycle of the clip: the length of the section of
    /// the material that it plays.
    pub open spec fn cycle_length(self) -> u64 {
        self.inner.chain.spec_section().frame_count_spec()
    }

    /// The length of one cycle of the clip in nanoseconds, at the tempo of
    /// the material.
    pub open spec fn native_clip_length_spec(self) -> u64 {
        frames_to_nanos_spec(self.cycle_length() as nat, self.material().frame_rate as nat)
    }

    /// The length of one cycle of the clip in frames of the given rate.
    pub open spec fn native_clip_length_in_frames_spec(self, sample_rate: u32) -> u64 {
        convert_frames_spec(
            self.cycle_length() as nat,
            self.material().frame_rate as nat,
            sample_rate as nat,
        )
    }

    /// The factor by which the timeline's tempo differs from the tempo of
    /// the material. It is strictly positive: a timeline tempo of zero
    /// counts as the smallest tempo there is.
    pub open spec fn final_tempo_factor_spec(timeline_tempo: u32) -> TempoFactor {
        TempoFactor { num: at_least_one(timeline_tempo as nat) as u32, den: MIDI_BASE_TEMPO }
    }

    /// The length of the clip in nanoseconds at the timeline's tempo.
    pub open spec fn clip_length_spec(self, timeline_tempo: u32) -> u64 {
        let f = Self::final_tempo_factor_spec(timeline_tempo);
        scale_spec(self.native_clip_length_spec() as nat, f.den as nat, f.num as nat)
    }

    /// A position brought into the cycle: a position in the count-in stays
    /// as it is, any other is taken modulo the length of a cycle. In a clip
    /// without frames every position is the start.
    pub open spec fn modulo_pos_spec(self, pos: i64) -> i64 {
        if pos < 0 {
            pos
        } else if self.cycle_length() == 0 {
            0
        } else {
            (pos as int % self.cycle_length() as int) as i64
        }
    }

    /// The position within the clip, in nanoseconds at the timeline's
    /// tempo: negative in the count-in, and none where the clip is stopped
    /// or its position is not resolved yet.
    pub open spec fn pos_within_clip_spec(self, args: PosWithinClipArgs) -> Option<i64> {
        let f = Self::final_tempo_factor_spec(args.timeline_tempo);
        match self.state {
            ClipState::Paused { next_block_pos } => Some(
                signed_scale_spec(clamp_i64(next_block_pos as int) as int, f.den as nat, f.num as nat),
            ),
            _ => match self.state.spec_play_info() {
                Some(play_info) => Some(
                    signed_scale_spec(
                        signed_frames_to_nanos_spec(
                            self.modulo_pos_spec(play_info.next_block_pos) as int,
                            self.source_frame_rate_spec() as nat,
                        ) as int,
                        f.den as nat,
                        f.num as nat,
                    ),
                ),
                None => None,
            },
        }
    }

    // ------------------------------------------------------------------
    // What the commands do
    // ------------------------------------------------------------------
    /// The clip after it was scheduled to play: it repeats as the command
    /// says, and waits for the first block to resolve its position.
    pub open spec fn scheduled_spec(self, args: PlayArgs, timeline: TimelineMoment) -> ClipPcmSource {
        ClipPcmSource {
            repetition: args.repetition,
            state: ClipState::ScheduledOrPlaying(
                ScheduledOrPlayingState::scheduled(
                    PlayInstruction::spec_from_play_time(
                        args.play_time,
                        args.timeline_cursor_pos,
                        timeline,
                    ),
                ),
            ),
            ..self.with_loop_behavior(LoopBehavior::spec_from_repetition(args.repetition))
        }
    }

    /// The clip after a play command.
    ///
    /// - A stopped clip is scheduled.
    /// - A clip that is due to stop is no longer so.
    /// - A clip that has started suspends for a retrigger.
    /// - A clip that has not started yet is scheduled anew.
    /// - A suspending clip goes on suspending, for the play request, unless
    ///   it suspends for a stop and the request is for the next bar.
    /// - A paused clip resumes at once, from the place at which it was
    ///   paused.
    pub open spec fn play_spec(self, args: PlayArgs, timeline: TimelineMoment) -> ClipPcmSource {
        match self.state {
            ClipState::Stopped => self.scheduled_spec(args, timeline),
            ClipState::ScheduledOrPlaying(s) => {
                if s.scheduled_for_stop {
                    self.with_state(
                        ClipState::ScheduledOrPlaying(
                            ScheduledOrPlayingState { scheduled_for_stop: false, ..s },
                        ),
                    )
                } else if s.has_started() {
                    self.with_state(
                        ClipState::Suspending {
                            reason: SuspensionReason::Retrigger,
                            play_info: s.resolved_play_data->Some_0,
                            transition_countdown: START_END_FADE_LENGTH,
                        },
                    )
                } else {
                    self.scheduled_spec(args, timeline)
                }
            },
            ClipState::Suspending { reason, play_info, transition_countdown } => {
                let immediate = args.play_time == ClipStartTime::Immediately;
                if reason == SuspensionReason::Stop && !immediate {
                    self
                } else {
                    ClipPcmSource {
                        repetition: args.repetition,
                        state: ClipState::Suspending {
                            reason: SuspensionReason::PlayWhileSuspending {
                                play_time: args.play_time,
                            },
                            play_info,
                            transition_countdown,
                        },
                        ..self
                    }
                }
            },
            ClipState::Paused { next_block_pos } => self.with_state(
                ClipState::ScheduledOrPlaying(
                    ScheduledOrPlayingState::scheduled(
                        PlayInstruction::spec_resume(
                            next_block_pos,
                            args.timeline_cursor_pos,
                            timeline,
                        ),
                    ),
                ),
            ),
        }
    }

    /// The clip after a pause command: a clip that has started suspends for
    /// the pause, a suspending clip goes on suspending for it, and any other
    /// clip stays as it is.
    pub open spec fn pause_spec(self) -> ClipPcmSource {
        match self.state {
            ClipState::ScheduledOrPlaying(s) => {
                if s.has_started() {
                    self.with_state(
                        ClipState::Suspending {
                            reason: SuspensionReason::Pause,
                            play_info: s.resolved_play_data->Some_0,
                            transition_countdown: START_END_FADE_LENGTH,
                        },
                    )
                } else {
                    self
                }
            },
            ClipState::Suspending { reason, play_info, transition_countdown } => self.with_state(
                ClipState::Suspending {
                    reason: superseded_reason(reason, SuspensionReason::Pause, true),
                    play_info,
                    transition_countdown,
                },
            ),
            _ => self,
        }
    }

    /// The clip after a stop command.
    ///
    /// - A clip that has not started yet is stopped at once.
    /// - A clip that has started suspends for the stop if it is to stop
    ///   immediately, and is marked as due to stop if it is to stop at the
    ///   end of the clip.
    /// - A suspending clip goes on suspending, for the stop.
    /// - A paused clip is stopped.
    pub open spec fn stop_spec(self, args: StopArgs) -> ClipPcmSource {
        let immediate = args.stop_time == ClipStopTime::Immediately;
        match self.state {
            ClipState::Stopped => self,
            ClipState::ScheduledOrPlaying(s) => {
                if !s.has_started() {
                    self.with_state(ClipState::Stopped)
                } else if immediate {
                    self.with_state(
                        ClipState::Suspending {
                            reason: SuspensionReason::Stop,
                            play_info: s.resolved_play_data->Some_0,
                            transition_countdown: START_END_FADE_LENGTH,
                        },
                    )
                } else {
                    self.with_state(
                        ClipState::ScheduledOrPlaying(
                            ScheduledOrPlayingState { scheduled_for_stop: true, ..s },
                        ),
                    )
                }
            },
            ClipState::Suspending { reason, play_info, transition_countdown } => self.with_state(
                ClipState::Suspending {
                    reason: superseded_reason(reason, SuspensionReason::Stop, immediate),
                    play_info,
                    transition_countdown,
                },
            ),
            ClipState::Paused { .. } => self.with_state(ClipState::Stopped),
        }
    }

    /// The clip after a tempo factor was set by hand: the factor is kept
    /// strictly positive, a part that is zero counting as one.
    pub open spec fn tempo_factor_set_spec(self, tempo_factor: TempoFactor) -> ClipPcmSource {
        ClipPcmSource {
            manual_tempo_factor: TempoFactor {
                num: tempo_factor.eff_num() as u32,
                den: tempo_factor.eff_den() as u32,
            },
            ..self
        }
    }

    /// The clip after the repetition was set: its transport stays in its
    /// state, and the next block goes by the new setting.
    pub open spec fn repeated_spec(self, repeated: bool) -> ClipPcmSource {
        ClipPcmSource { repetition: Repetition::spec_from_bool(repeated), ..self }
    }

    /// The clip after a record command: a clip that is scheduled or playing
    /// overdubs, any other stays as it is.
    pub open spec fn record_spec(self) -> ClipPcmSource {
        match self.state {
            ClipState::ScheduledOrPlaying(s) => self.with_state(
                ClipState::ScheduledOrPlaying(ScheduledOrPlayingState { overdubbing: true, ..s }),
            ),
            _ => self,
        }
    }

    /// The clip after a seek command: a paused clip resumes from the
    /// desired place, a clip that has started plays on from there, from
    /// the moment of the seek, and resolves its position anew, and any
    /// other clip stays as it is.
    pub open spec fn seek_to_spec(self, args: SeekToArgs) -> ClipPcmSource {
        let desired = args.desired_pos.of_spec(self.native_clip_length_spec());
        match self.state {
            ClipState::ScheduledOrPlaying(s) => {
                if s.has_started() {
                    self.with_state(
                        ClipState::ScheduledOrPlaying(
                            ScheduledOrPlayingState {
                                play_instruction: PlayInstruction {
                                    scheduled_play_pos: args.timeline_cursor_pos,
                                    start_pos_within_clip: desired,
                                    ..s.play_instruction
                                },
                                resolved_play_data: None,
                                ..s
                            },
                        ),
                    )
                } else {
                    self
                }
            },
            ClipState::Paused { .. } => self.with_state(ClipState::Paused { next_block_pos: desired }),
            _ => self,
        }
    }

    // ------------------------------------------------------------------
    // Construction and queries
    // ------------------------------------------------------------------
    /// Wraps the given material.
    pub fn new(kind: InnerSourceKind, source: SourceMaterial) -> (c: ClipPcmSource)
        ensures
            c == Self::spec_new(kind, source),
    {
        let material = match kind {
            InnerSourceKind::Audio => source,
            InnerSourceKind::Midi => SourceMaterial {
                frame_rate: MIDI_FRAME_RATE,
                frame_count: source.frame_count,
            },
        };
        let mut chain = ClipSupplierChain::new(material);
        chain.head.supplier.loop_behavior = LoopBehavior::Infinitely;
        chain.head.supplier.fades_enabled = true;
        chain.head.enabled = true;
        ClipPcmSource {
            inner: InnerSource { kind, chain },
            repetition: Repetition::Once,
            manual_tempo_factor: TempoFactor::unity(),
            state: ClipState::Stopped,
            current_sample_rate: None,
        }
    }

    /// Returns the state of this clip.
    pub fn clip_state(&self) -> (r: ClipState)
        ensures
            r == self.state,
    {
        self.state
    }

    /// The frame rate at which positions in the source are counted.
    pub fn source_frame_rate(&self) -> (r: u32)
        ensures
            r == self.source_frame_rate_spec(),
    {
        match self.inner.kind {
            InnerSourceKind::Audio => self.inner.chain.head.supplier.supplier.supplier.frame_rate,
            InnerSourceKind::Midi => MIDI_FRAME_RATE,
        }
    }

    /// Returns the native length of the clip in nanoseconds,
    /// tempo-independent.
    pub fn native_clip_length(&self) -> (r: u64)
        ensures
            r == self.native_clip_length_spec(),
    {
        let section = self.inner.chain.section();
        convert_duration_in_frames_to_seconds(section.frame_count(), section.frame_rate())
    }

    /// The length of the material in frames of the given rate.
    pub fn native_clip_length_in_frames(&self, sample_rate: u32) -> (r: u64)
        ensures
            r == self.native_clip_length_in_frames_spec(sample_rate),
    {
        let section = self.inner.chain.section();
        convert_duration_in_frames_to_other_frame_rate(
            section.frame_count(),
            section.frame_rate(),
            sample_rate,
        )
    }

    /// The frames that are left from `frame_within_clip` to the end of the
    /// clip: none at the end or after it.
    pub fn countdown_to_end_of_clip(&self, sample_rate: u32, frame_within_clip: i64) -> (r: u64)
        ensures
            r == clamp_u64(
                self.native_clip_length_in_frames_spec(sample_rate) - frame_within_clip,
            ),
    {
        let length = self.native_clip_length_in_frames(sample_rate);
        saturate_u64(length as i128 - frame_within_clip as i128)
    }

    /// The factor by which the timeline's tempo differs from the tempo of
    /// the material, kept strictly positive.
    pub fn calc_final_tempo_factor(&self, timeline_tempo: u32) -> (r: TempoFactor)
        ensures
            r == Self::final_tempo_factor_spec(timeline_tempo),
            r.is_positive(),
    {
        TempoFactor::new(timeline_tempo, self.inner.original_tempo())
    }

    /// Returns the clip length in nanoseconds at the given tempo of the
    /// timeline.
    pub fn clip_length(&self, timeline_tempo: u32) -> (r: u64)
        ensures
            r == self.clip_length_spec(timeline_tempo),
    {
        let f = self.calc_final_tempo_factor(timeline_tempo);
        scale(self.native_clip_length(), f.den as u64, f.num as u64)
    }

    /// Brings a position into the cycle.
    pub fn modulo_pos(&self, pos: i64) -> (r: i64)
        ensures
            r == self.modulo_pos_spec(pos),
    {
        if pos < 0 {
            return pos;
        }
        let length = self.inner.chain.section().frame_count();
        if length == 0 {
            return 0;
        }
        (pos as u64 % length) as i64
    }

    /// Manually adjusts the play tempo by the given factor, which is kept
    /// strictly positive.
    pub fn set_tempo_factor(&mut self, tempo_factor: TempoFactor)
        ensures
            *final(self) == old(self).tempo_factor_set_spec(tempo_factor),
            final(self).manual_tempo_factor.is_positive(),
    {
        self.manual_tempo_factor = tempo_factor.floored();
    }

    /// Returns the tempo factor that was set by hand.
    pub fn get_tempo_factor(&self) -> (r: TempoFactor)
        ensures
            r == self.manual_tempo_factor,
    {
        self.manual_tempo_factor
    }

    /// Changes whether to repeat or not repeat the clip. The state of the
    /// transport stays as it is: the next block goes by the new setting.
    pub fn set_repeated(&mut self, args: SetRepeatedArgs)
        ensures
            *final(self) == old(self).repeated_spec(args.repeated),
    {
        self.repetition = Repetition::from_bool(args.repeated);
    }

    /// Returns the position within the clip.
    pub fn pos_within_clip(&self, args: PosWithinClipArgs) -> (r: Option<i64>)
        ensures
            r == self.pos_within_clip_spec(args),
    {
        let f = self.calc_final_tempo_factor(args.timeline_tempo);
        let inner_source_pos: i64 = match self.state {
            ClipState::Paused { next_block_pos } => saturate_i64(next_block_pos as i128),
            _ => {
                let play_info = match self.state.play_info() {
                    Some(p) => p,
                    None => {
                        return None;
                    },
                };
                convert_position_in_frames_to_seconds(
                    self.modulo_pos(play_info.next_block_pos),
                    self.source_frame_rate(),
                )
            },
        };
        Some(signed_scale(inner_source_pos, f.den as u64, f.num as u64))
    }

    /// Returns the position within the clip as a proportion of its length.
    pub fn proportional_pos_within_clip(&self, args: PosWithinClipArgs) -> (r: Option<Proportion>)
        ensures
            r == proportional_position_spec(
                self.pos_within_clip_spec(args),
                self.clip_length_spec(args.timeline_tempo),
            ),
    {
        let pos_within_clip = self.pos_within_clip(args);
        let length = self.clip_length(args.timeline_tempo);
        calculate_proportional_position(pos_within_clip, length)
    }

    // ------------------------------------------------------------------
    // Commands
    // ------------------------------------------------------------------
    fn schedule_play_internal(&mut self, args: PlayArgs, timeline: &TimelineMoment)
        ensures
            *final(self) == old(self).scheduled_spec(args, *timeline),
    {
        self.repetition = args.repetition;
        self.inner.chain.head.supplier.loop_behavior = LoopBehavior::from_repetition(
            args.repetition,
        );
        self.state = ClipState::ScheduledOrPlaying(
            ScheduledOrPlayingState {
                play_instruction: PlayInstruction::from_play_time(
                    args.play_time,
                    args.timeline_cursor_pos,
                    timeline,
                ),
                resolved_play_data: None,
                scheduled_for_stop: false,
                overdubbing: false,
            },
        );
    }

    /// Starts or schedules clip playing.
    ///
    /// - Reschedules if not yet playing.
    /// - Retriggers if already playing and not scheduled for stop.
    /// - Resumes immediately if paused.
    /// - Backpedals if already playing and scheduled for stop.
    pub fn play(&mut self, args: PlayArgs, timeline: &TimelineMoment)
        ensures
            *final(self) == old(self).play_spec(args, *timeline),
    {
        match self.state {
            ClipState::Stopped => self.schedule_play_internal(args, timeline),
            ClipState::ScheduledOrPlaying(s) => {
                if s.scheduled_for_stop {
                    self.state = ClipState::ScheduledOrPlaying(
                        ScheduledOrPlayingState {
                            play_instruction: s.play_instruction,
                            resolved_play_data: s.resolved_play_data,
                            scheduled_for_stop: false,
                            overdubbing: s.overdubbing,
                        },
                    );
                } else {
                    match s.resolved_play_data {
                        Some(play_info) => {
                            let info = play_info.cursor_info_at(args.timeline_cursor_pos);
                            if info.has_started_already() {
                                self.state = ClipState::Suspending {
                                    reason: SuspensionReason::Retrigger,
                                    play_info,
                                    transition_countdown: START_END_FADE_LENGTH,
                                };
                            } else {
                                self.schedule_play_internal(args, timeline);
                            }
                        },
                        None => {
                            self.schedule_play_internal(args, timeline);
                        },
                    }
                }
            },
            ClipState::Suspending { reason, play_info, transition_countdown } => {
                let is_stop = match reason {
                    SuspensionReason::Stop => true,
                    _ => false,
                };
                let immediate = match args.play_time {
                    ClipStartTime::Immediately => true,
                    ClipStartTime::NextBar => false,
                };
                if !is_stop || immediate {
                    self.repetition = args.repetition;
                    self.state = ClipState::Suspending {
                        reason: SuspensionReason::PlayWhileSuspending { play_time: args.play_time },
                        play_info,
                        transition_countdown,
                    };
                }
            },
            ClipState::Paused { next_block_pos } => {
                self.state = ClipState::ScheduledOrPlaying(
                    ScheduledOrPlayingState {
                        play_instruction: PlayInstruction::resume(
                            next_block_pos,
                            args.timeline_cursor_pos,
                            timeline,
                        ),
                        resolved_play_data: None,
                        scheduled_for_stop: false,
                        overdubbing: false,
                    },
                );
            },
        }
    }

    /// Pauses playback.
    pub fn pause(&mut self, timeline_cursor_pos: i64)
        ensures
            *final(self) == old(self).pause_spec(),
    {
        match self.state {
            ClipState::Stopped | ClipState::Paused { .. } => {},
            ClipState::ScheduledOrPlaying(s) => {
                match s.resolved_play_data {
                    Some(play_info) => {
                        let info = play_info.cursor_info_at(timeline_cursor_pos);
                        if info.has_started_already() {
                            self.state = ClipState::Suspending {
                                reason: SuspensionReason::Pause,
                                play_info,
                                transition_countdown: START_END_FADE_LENGTH,
                            };
                        }
                    },
                    None => {},
                }
            },
            ClipState::Suspending { reason: _, play_info, transition_countdown } => {
                self.state = ClipState::Suspending {
                    reason: SuspensionReason::Pause,
                    play_info,
                    transition_countdown,
                };
            },
        }
    }

    /// Starts recording a clip.
    pub fn record(&mut self, args: RecordArgs)
        ensures
            *final(self) == old(self).record_spec(),
    {
        let _ = args;
        match self.state {
            ClipState::ScheduledOrPlaying(s) => {
                self.state = ClipState::ScheduledOrPlaying(
                    ScheduledOrPlayingState {
                        play_instruction: s.play_instruction,
                        resolved_play_data: s.resolved_play_data,
                        scheduled_for_stop: s.scheduled_for_stop,
                        overdubbing: true,
                    },
                );
            },
            _ => {},
        }
    }

    /// Stops the clip or schedules the stop.
    ///
    /// - Backpedals from scheduled start if not yet playing.
    /// - Stops immediately if paused.
    pub fn stop(&mut self, args: StopArgs)
        ensures
            *final(self) == old(self).stop_spec(args),
    {
        let immediate = match args.stop_time {
            ClipStopTime::Immediately => true,
            ClipStopTime::EndOfClip => false,
        };
        match self.state {
            ClipState::Stopped => {},
            ClipState::ScheduledOrPlaying(s) => {
                match s.resolved_play_data {
                    Some(play_info) => {
                        let info = play_info.cursor_info_at(args.timeline_cursor_pos);
                        self.state = if info.has_started_already() {
                            if immediate {
                                ClipState::Suspending {
                                    reason: SuspensionReason::Stop,
                                    play_info,
                                    transition_countdown: START_END_FADE_LENGTH,
                                }
                            } else {
                                ClipState::ScheduledOrPlaying(
                                    ScheduledOrPlayingState {
                                        play_instruction: s.play_instruction,
                                        resolved_play_data: s.resolved_play_data,
                                        scheduled_for_stop: true,
                                        overdubbing: s.overdubbing,
                                    },
                                )
                            }
                        } else {
                            ClipState::Stopped
                        };
                    },
                    None => {
                        self.state = ClipState::Stopped;
                    },
                }
            },
            ClipState::Paused { .. } => {
                self.state = ClipState::Stopped;
            },
            ClipState::Suspending { reason, play_info, transition_countdown } => {
                let is_stop = match reason {
                    SuspensionReason::Stop => true,
                    _ => false,
                };
                if !is_stop {
                    self.state = ClipState::Suspending {
                        reason: SuspensionReason::Stop,
                        play_info,
                        transition_countdown,
                    };
                }
            },
        }
    }

    /// Seeks to the given position within the clip.
    ///
    /// This only has an effect if the clip is paused, or already and still
    /// playing.
    pub fn seek_to(&mut self, args: SeekToArgs)
        ensures
            *final(self) == old(self).seek_to_spec(args),
    {
        let length = self.native_clip_length();
        let desired_pos = args.desired_pos.of(length);
        match self.state {
            ClipState::Stopped | ClipState::Suspending { .. } => {},
            ClipState::ScheduledOrPlaying(s) => {
                match s.resolved_play_data {
                    Some(play_info) => {
                        let info = play_info.cursor_info_at(args.timeline_cursor_pos);
                        if info.has_started_already() {
                            self.state = ClipState::ScheduledOrPlaying(
                                ScheduledOrPlayingState {
                                    play_instruction: PlayInstruction {
                                        scheduled_play_pos: args.timeline_cursor_pos,
                                        start_pos_within_clip: desired_pos,
                                        initial_tempo: s.play_instruction.initial_tempo,
                                    },
                                    resolved_play_data: None,
                                    scheduled_for_stop: s.scheduled_for_stop,
                                    overdubbing: s.overdubbing,
                                },
                            );
                        }
                    },
                    None => {},
                }
            },
            ClipState::Paused { .. } => {
                self.state = ClipState::Paused { next_block_pos: desired_pos };
            },
        }
    }
}

} // verus!
