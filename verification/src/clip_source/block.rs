//! What one block of the real-time thread does with a clip.

use vstd::prelude::*;
use crate::clip_source::source::{ClipPcmSource, InnerSource, InnerSourceKind};
use crate::clip_source::state::{
    ClipStartTime, ClipState, PlayInstruction, Repetition, ResolvedPlayData,
    ScheduledOrPlayingState, SuspensionReason, TimelineMoment,
};
use crate::supplier::chain::ClipSupplierChain;
use crate::supplier::looper::{LoopBehavior, Looper};
use crate::supplier::request::{BlockPlan, SupplyRequest, SupplyResponseStatus};
use crate::supplier::stretcher::Stretcher;
use crate::units::{
    advance, clamp_i64, convert_duration_in_frames_to_seconds,
    convert_position_in_seconds_to_frames, frames_to_nanos_spec, saturate_i64, scale, scale_spec,
    signed_nanos_to_frames_spec, signed_scale, signed_scale_spec, TempoFactor, NANOS_PER_SECOND,
};

verus! {

/// One block that the real-time thread asks for: so many destination
/// frames at a sample rate.
#[derive(Copy, Clone, Debug, PartialEq, Eq, Structural)]
pub struct BlockRequest {
    pub frame_count: u64,
    pub sample_rate: u32,
}

/// The material that a block plays.
#[derive(Copy, Clone, Debug, PartialEq, Eq, Structural)]
pub struct PlayedBlock {
    /// The source frame at which the block starts.
    pub start_frame: i64,
    /// What the chain answered and which stretches of material it plays.
    pub plan: BlockPlan,
    /// For a block within a transition: the frames of the fade that were
    /// left when the block began.
    pub fade_out_countdown: Option<u64>,
}

/// What a block is to sound like.
#[derive(Copy, Clone, Debug, PartialEq, Eq, Structural)]
pub struct BlockOutcome {
    /// The material that the block plays, if any.
    pub played: Option<PlayedBlock>,
    /// Whether every MIDI channel is to be silenced in this block.
    pub silence_midi: bool,
}

impl BlockOutcome {
    /// A block that stays silent.
    pub open spec fn nothing() -> BlockOutcome {
        BlockOutcome { played: None, silence_midi: false }
    }

    /// The source frames that the block consumed: none where it played
    /// nothing.
    pub open spec fn frames_consumed(self) -> u64 {
        match self.played {
            Some(played) => played.plan.response.num_frames_consumed,
            None => 0,
        }
    }
}

/// The request that a block makes of the chain, from `start_frame` on. The
/// tempo is left to the chain.
pub open spec fn block_supply_request(block: BlockRequest, start_frame: i64) -> SupplyRequest {
    SupplyRequest {
        start_frame,
        dest_frame_count: block.frame_count,
        dest_frame_rate: block.sample_rate,
        tempo_factor: TempoFactor::one(),
    }
}

impl ClipPcmSource {
    /// The position at which a scheduled clip plays its next block.
    ///
    /// A position that is resolved stays as it is. Otherwise it is the
    /// distance from the scheduled start to the timeline's cursor, in
    /// frames of the source, scaled by the tempo factor of this very block,
    /// so that a count-in follows the tempo as it is now. While the
    /// distance is negative the clip counts in. Once the scheduled start
    /// is reached, the clip plays from the place within the clip that its
    /// instruction names, at the frame nearest to it.
    pub open spec fn resolved_spec(
        self,
        s: ScheduledOrPlayingState,
        timeline: TimelineMoment,
    ) -> ResolvedPlayData {
        match s.resolved_play_data {
            Some(play_info) => play_info,
            None => {
                let f = Self::final_tempo_factor_spec(timeline.tempo);
                let distance = clamp_i64(timeline.cursor_pos - s.play_instruction.scheduled_play_pos);
                let hypothetical = signed_nanos_to_frames_spec(
                    distance as int,
                    self.source_frame_rate_spec() as nat,
                );
                let scaled = signed_scale_spec(hypothetical as int, f.num as nat, f.den as nat);
                ResolvedPlayData {
                    next_block_pos: if scaled < 0 {
                        scaled
                    } else {
                        clamp_i64(
                            scaled + scale_spec(
                                s.play_instruction.start_pos_within_clip as nat,
                                self.source_frame_rate_spec() as nat,
                                NANOS_PER_SECOND as nat,
                            ),
                        )
                    },
                }
            },
        }
    }

    /// The state that follows a suspension.
    ///
    /// - After a retrigger the clip is scheduled to start at once.
    /// - After a pause the clip is paused at the position at which the
    ///   suspension began, turned into time at the frame rate of the
    ///   source; a position in the count-in counts as the start.
    /// - After a stop the clip is stopped.
    /// - After a play request the clip is scheduled as the request said.
    pub open spec fn suspension_follow_up_spec(
        reason: SuspensionReason,
        play_info: ResolvedPlayData,
        timeline: TimelineMoment,
        source_frame_rate: u32,
    ) -> ClipState {
        match reason {
            SuspensionReason::Retrigger => ClipState::ScheduledOrPlaying(
                ScheduledOrPlayingState::scheduled(
                    PlayInstruction::spec_from_play_time(
                        ClipStartTime::Immediately,
                        timeline.cursor_pos,
                        timeline,
                    ),
                ),
            ),
            SuspensionReason::Pause => ClipState::Paused {
                next_block_pos: if play_info.next_block_pos < 0 {
                    0
                } else {
                    frames_to_nanos_spec(play_info.next_block_pos as nat, source_frame_rate as nat)
                },
            },
            SuspensionReason::Stop => ClipState::Stopped,
            SuspensionReason::PlayWhileSuspending { play_time } => ClipState::ScheduledOrPlaying(
                ScheduledOrPlayingState::scheduled(
                    PlayInstruction::spec_from_play_time(play_time, timeline.cursor_pos, timeline),
                ),
            ),
        }
    }

    /// The state of a suspending clip after a block: a MIDI clip leaves the
    /// suspension at once, an audio clip when the block uses up what is
    /// left of the countdown.
    pub open spec fn suspension_step_spec(
        kind: InnerSourceKind,
        reason: SuspensionReason,
        play_info: ResolvedPlayData,
        transition_countdown: u64,
        timeline: TimelineMoment,
        block: BlockRequest,
        source_frame_rate: u32,
    ) -> ClipState {
        if kind == InnerSourceKind::Audio && transition_countdown > block.frame_count {
            ClipState::Suspending {
                reason,
                play_info,
                transition_countdown: (transition_countdown - block.frame_count) as u64,
            }
        } else {
            Self::suspension_follow_up_spec(reason, play_info, timeline, source_frame_rate)
        }
    }

    /// Whether the clip is to end with the cycle it is in.
    pub open spec fn stops_at_end_of_clip(self, s: ScheduledOrPlayingState) -> bool {
        s.scheduled_for_stop || self.repetition == Repetition::Once
    }

    /// The chain as it is set for a block that starts at `play_info`: the
    /// looper ends with the current cycle where the clip is to stop at its
    /// end and repeats without end where not, and the stretcher takes the
    /// tempo factor of this block.
    pub open spec fn chain_for_block_spec(
        self,
        s: ScheduledOrPlayingState,
        play_info: ResolvedPlayData,
        timeline: TimelineMoment,
    ) -> ClipSupplierChain {
        let looper = self.inner.chain.spec_looper();
        let loop_behavior = if self.stops_at_end_of_clip(s) {
            LoopBehavior::UntilEndOfCycle(
                if play_info.next_block_pos < 0 {
                    0
                } else {
                    looper.cycle_at_frame_spec(play_info.next_block_pos as u64)
                },
            )
        } else {
            LoopBehavior::Infinitely
        };
        ClipSupplierChain {
            head: Stretcher {
                supplier: Looper { loop_behavior, ..looper },
                tempo_factor: Self::final_tempo_factor_spec(timeline.tempo),
                ..self.inner.chain.head
            },
        }
    }

    /// The clip after one block, and what the block is to sound like.
    ///
    /// - A stopped or paused clip stays as it is and plays nothing.
    /// - A suspending MIDI clip silences its channels and enters the state
    ///   that follows. A suspending audio clip plays on from the position
    ///   at which the suspension began, fading, while the countdown runs.
    /// - A scheduled or playing clip resolves its position if need be, asks
    ///   the chain for the block, and then either stops, where the chain
    ///   has reached the end, or moves its position on by exactly the
    ///   frames that the block consumed.
    pub open spec fn block_spec(self, block: BlockRequest, timeline: TimelineMoment) -> (
        ClipPcmSource,
        BlockOutcome,
    ) {
        let me = ClipPcmSource { current_sample_rate: Some(block.sample_rate), ..self };
        match self.state {
            ClipState::Stopped => (me, BlockOutcome::nothing()),
            ClipState::Paused { .. } => (me, BlockOutcome::nothing()),
            ClipState::Suspending { reason, play_info, transition_countdown } => {
                let next = Self::suspension_step_spec(
                    self.inner.kind,
                    reason,
                    play_info,
                    transition_countdown,
                    timeline,
                    block,
                    self.source_frame_rate_spec(),
                );
                let outcome = match self.inner.kind {
                    InnerSourceKind::Midi => BlockOutcome { played: None, silence_midi: true },
                    InnerSourceKind::Audio => BlockOutcome {
                        played: Some(
                            PlayedBlock {
                                start_frame: play_info.next_block_pos,
                                plan: self.inner.chain.supply_spec(
                                    block_supply_request(block, play_info.next_block_pos),
                                ),
                                fade_out_countdown: Some(transition_countdown),
                            },
                        ),
                        silence_midi: false,
                    },
                };
                (me.with_state(next), outcome)
            },
            ClipState::ScheduledOrPlaying(s) => {
                let play_info = self.resolved_spec(s, timeline);
                let chain = self.chain_for_block_spec(s, play_info, timeline);
                let plan = chain.supply_spec(block_supply_request(block, play_info.next_block_pos));
                let next = if plan.response.is_end() {
                    ClipState::Stopped
                } else {
                    ClipState::ScheduledOrPlaying(
                        ScheduledOrPlayingState {
                            resolved_play_data: Some(
                                ResolvedPlayData {
                                    next_block_pos: clamp_i64(
                                        play_info.next_block_pos
                                            + plan.response.num_frames_consumed,
                                    ),
                                },
                            ),
                            ..s
                        },
                    )
                };
                (
                    ClipPcmSource {
                        inner: InnerSource { chain, ..self.inner },
                        state: next,
                        ..me
                    },
                    BlockOutcome {
                        played: Some(
                            PlayedBlock {
                                start_frame: play_info.next_block_pos,
                                plan,
                                fade_out_countdown: None,
                            },
                        ),
                        silence_midi: false,
                    },
                )
            },
        }
    }

    /// The clip after a block of the real-time thread: while the timeline
    /// stands still nothing plays and nothing changes.
    pub open spec fn samples_spec(self, block: BlockRequest, timeline: TimelineMoment) -> (
        ClipPcmSource,
        BlockOutcome,
    ) {
        if timeline.is_running {
            self.block_spec(block, timeline)
        } else {
            (self, BlockOutcome::nothing())
        }
    }

    fn resolve_play_info(&self, s: &ScheduledOrPlayingState, timeline: &TimelineMoment) -> (r:
        ResolvedPlayData)
        ensures
            r == self.resolved_spec(*s, *timeline),
    {
        match s.resolved_play_data {
            Some(play_info) => play_info,
            None => {
                let f = self.calc_final_tempo_factor(timeline.tempo);
                let distance = saturate_i64(
                    timeline.cursor_pos as i128 - s.play_instruction.scheduled_play_pos as i128,
                );
                let hypothetical = convert_position_in_seconds_to_frames(
                    distance,
                    self.source_frame_rate(),
                );
                let scaled = signed_scale(hypothetical, f.num as u64, f.den as u64);
                ResolvedPlayData {
                    next_block_pos: if scaled < 0 {
                        scaled
                    } else {
                        advance(
                            scaled,
                            scale(
                                s.play_instruction.start_pos_within_clip,
                                self.source_frame_rate() as u64,
                                NANOS_PER_SECOND,
                            ),
                        )
                    },
                }
            },
        }
    }

    /// The state that follows a suspension.
    pub fn get_suspension_follow_up_state(
        reason: SuspensionReason,
        play_info: ResolvedPlayData,
        timeline: &TimelineMoment,
        source_frame_rate: u32,
    ) -> (r: ClipState)
        ensures
            r == Self::suspension_follow_up_spec(reason, play_info, *timeline, source_frame_rate),
    {
        match reason {
            SuspensionReason::Retrigger => ClipState::ScheduledOrPlaying(
                ScheduledOrPlayingState {
                    play_instruction: PlayInstruction::from_play_time(
                        ClipStartTime::Immediately,
                        timeline.cursor_pos,
                        timeline,
                    ),
                    resolved_play_data: None,
                    scheduled_for_stop: false,
                    overdubbing: false,
                },
            ),
            SuspensionReason::Pause => ClipState::Paused {
                next_block_pos: if play_info.next_block_pos < 0 {
                    0
                } else {
                    convert_duration_in_frames_to_seconds(
                        play_info.next_block_pos as u64,
                        source_frame_rate,
                    )
                },
            },
            SuspensionReason::Stop => ClipState::Stopped,
            SuspensionReason::PlayWhileSuspending { play_time } => ClipState::ScheduledOrPlaying(
                ScheduledOrPlayingState {
                    play_instruction: PlayInstruction::from_play_time(
                        play_time,
                        timeline.cursor_pos,
                        timeline,
                    ),
                    resolved_play_data: None,
                    scheduled_for_stop: false,
                    overdubbing: false,
                },
            ),
        }
    }

    fn fill_samples(&self, block: &BlockRequest, start_frame: i64) -> (r: BlockPlan)
        ensures
            r == self.inner.chain.supply_spec(block_supply_request(*block, start_frame)),
    {
        let request = SupplyRequest {
            start_frame,
            dest_frame_count: block.frame_count,
            dest_frame_rate: block.sample_rate,
            tempo_factor: TempoFactor::unity(),
        };
        self.inner.chain.supply(&request)
    }

    /// Works out one block while the timeline runs: what it plays, and the
    /// state of the clip after it.
    pub fn get_samples_internal(&mut self, block: &BlockRequest, timeline: &TimelineMoment) -> (r:
        BlockOutcome)
        ensures
            (*final(self), r) == old(self).block_spec(*block, *timeline),
    {
        let final_tempo_factor = self.calc_final_tempo_factor(timeline.tempo);
        self.current_sample_rate = Some(block.sample_rate);
        match self.state {
            ClipState::Stopped => BlockOutcome { played: None, silence_midi: false },
            ClipState::Paused { .. } => BlockOutcome { played: None, silence_midi: false },
            ClipState::Suspending { reason, play_info, transition_countdown } => {
                if self.inner.is_midi() {
                    self.state = Self::get_suspension_follow_up_state(
                        reason,
                        play_info,
                        timeline,
                        self.source_frame_rate(),
                    );
                    BlockOutcome { played: None, silence_midi: true }
                } else {
                    let plan = self.fill_samples(block, play_info.next_block_pos);
                    self.state = if transition_countdown > block.frame_count {
                        ClipState::Suspending {
                            reason,
                            play_info,
                            transition_countdown: transition_countdown - block.frame_count,
                        }
                    } else {
                        Self::get_suspension_follow_up_state(
                            reason,
                            play_info,
                            timeline,
                            self.source_frame_rate(),
                        )
                    };
                    BlockOutcome {
                        played: Some(
                            PlayedBlock {
                                start_frame: play_info.next_block_pos,
                                plan,
                                fade_out_countdown: Some(transition_countdown),
                            },
                        ),
                        silence_midi: false,
                    }
                }
            },
            ClipState::ScheduledOrPlaying(s) => {
                let play_info = self.resolve_play_info(&s, timeline);
                let stop_at_end_of_clip = s.scheduled_for_stop || match self.repetition {
                    Repetition::Once => true,
                    Repetition::Infinitely => false,
                };
                let loop_behavior = if stop_at_end_of_clip {
                    let last_cycle = if play_info.next_block_pos < 0 {
                        0
                    } else {
                        self.inner.chain.head.supplier.get_cycle_at_frame(
                            play_info.next_block_pos as u64,
                        )
                    };
                    LoopBehavior::UntilEndOfCycle(last_cycle)
                } else {
                    LoopBehavior::Infinitely
                };
                self.inner.chain.head.supplier.loop_behavior = loop_behavior;
                self.inner.chain.head.tempo_factor = final_tempo_factor;
                let plan = self.fill_samples(block, play_info.next_block_pos);
                self.state = match plan.response.status {
                    SupplyResponseStatus::PleaseContinue => ClipState::ScheduledOrPlaying(
                        ScheduledOrPlayingState {
                            play_instruction: s.play_instruction,
                            resolved_play_data: Some(
                                ResolvedPlayData {
                                    next_block_pos: advance(
                                        play_info.next_block_pos,
                                        plan.response.num_frames_consumed,
                                    ),
                                },
                            ),
                            scheduled_for_stop: s.scheduled_for_stop,
                            overdubbing: s.overdubbing,
                        },
                    ),
                    SupplyResponseStatus::ReachedEnd { .. } => ClipState::Stopped,
                };
                BlockOutcome {
                    played: Some(
                        PlayedBlock {
                            start_frame: play_info.next_block_pos,
                            plan,
                            fade_out_countdown: None,
                        },
                    ),
                    silence_midi: false,
                }
            },
        }
    }

    /// Works out one block of the real-time thread. While the timeline
    /// stands still the block stays silent and the clip as it is, so that no
    /// material is played twice.
    pub fn get_samples(&mut self, block: &BlockRequest, timeline: &TimelineMoment) -> (r:
        BlockOutcome)
        ensures
            (*final(self), r) == old(self).samples_spec(*block, *timeline),
    {
        if !timeline.is_running {
            return BlockOutcome { played: None, silence_midi: false };
        }
        self.get_samples_internal(block, timeline)
    }
}

} // verus!
