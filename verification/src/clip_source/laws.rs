//! What holds of the transport of every clip.

use vstd::prelude::*;
use crate::clip_source::block::{block_supply_request, BlockRequest};
use crate::clip_source::source::{ClipPcmSource, InnerSourceKind};
use crate::clip_source::state::{
    ClipState, ClipStopTime, PlayArgs, ResolvedPlayData, ScheduledOrPlayingState, StopArgs,
    SuspensionReason, TimelineMoment, START_END_FADE_LENGTH,
};
use crate::supplier::material::SourceMaterial;
use crate::supplier::request::SupplyRequest;
use crate::supplier::section::law_section_consumes_up_to_its_end;
use crate::units::{
    at_least_one, clamp_i64, frames_to_nanos_spec, lemma_frames_survive_the_way_through_time,
    lemma_scale_by_equal_parts, scale_floor_spec, scale_spec, MIDI_BASE_TEMPO,
};

verus! {

/// The clip after a run of blocks, each with the moment of the timeline at
/// which it was asked for, and no command in between.
pub open spec fn after_blocks(
    clip: ClipPcmSource,
    blocks: Seq<(BlockRequest, TimelineMoment)>,
) -> ClipPcmSource
    decreases blocks.len(),
{
    if blocks.len() == 0 {
        clip
    } else {
        after_blocks(clip.samples_spec(blocks[0].0, blocks[0].1).0, blocks.drop_first())
    }
}

/// The destination frames of a run of blocks, all together.
pub open spec fn total_frames(blocks: Seq<(BlockRequest, TimelineMoment)>) -> nat
    decreases blocks.len(),
{
    if blocks.len() == 0 {
        0
    } else {
        blocks[0].0.frame_count as nat + total_frames(blocks.drop_first())
    }
}

/// Whether the timeline runs at each block of a run.
pub open spec fn all_running(blocks: Seq<(BlockRequest, TimelineMoment)>) -> bool {
    forall|i: int| 0 <= i < blocks.len() ==> (#[trigger] blocks[i]).1.is_running
}

/// The frames that are left of a suspension: none where the clip is not
/// suspending.
pub open spec fn countdown_of(state: ClipState) -> nat {
    match state {
        ClipState::Suspending { transition_countdown, .. } => transition_countdown as nat,
        _ => 0,
    }
}

/// The time at which a clip is paused that was suspended at `play_info`:
/// the position turned into time at the frame rate of the source, and the
/// start for a position in the count-in.
pub open spec fn paused_at(play_info: ResolvedPlayData, source_frame_rate: u32) -> u64 {
    if play_info.next_block_pos < 0 {
        0
    } else {
        frames_to_nanos_spec(play_info.next_block_pos as nat, source_frame_rate as nat)
    }
}

proof fn lemma_stopped_stays_stopped(
    clip: ClipPcmSource,
    blocks: Seq<(BlockRequest, TimelineMoment)>,
)
    requires
        clip.state == ClipState::Stopped,
    ensures
        after_blocks(clip, blocks).state == ClipState::Stopped,
    decreases blocks.len(),
{
    if blocks.len() > 0 {
        lemma_stopped_stays_stopped(
            clip.samples_spec(blocks[0].0, blocks[0].1).0,
            blocks.drop_first(),
        );
    }
}

proof fn lemma_paused_stays_paused(
    clip: ClipPcmSource,
    blocks: Seq<(BlockRequest, TimelineMoment)>,
)
    requires
        clip.state is Paused,
    ensures
        after_blocks(clip, blocks).state == clip.state,
    decreases blocks.len(),
{
    if blocks.len() > 0 {
        lemma_paused_stays_paused(
            clip.samples_spec(blocks[0].0, blocks[0].1).0,
            blocks.drop_first(),
        );
    }
}

proof fn lemma_rest_of_run(blocks: Seq<(BlockRequest, TimelineMoment)>)
    requires
        blocks.len() > 0,
    ensures
        all_running(blocks) ==> all_running(blocks.drop_first()),
{
    let rest = blocks.drop_first();
    assert forall|i: int| 0 <= i < rest.len() implies rest[i] == blocks[i + 1] by {}
    if all_running(blocks) {
        assert forall|i: int| 0 <= i < rest.len() implies (#[trigger] rest[i]).1.is_running by {
            assert(blocks[i + 1].1.is_running);
        }
    }
}

proof fn lemma_pause_runs_out(clip: ClipPcmSource, blocks: Seq<(BlockRequest, TimelineMoment)>)
    requires
        clip.state is Suspending,
        clip.state->Suspending_reason == SuspensionReason::Pause,
        blocks.len() > 0,
        all_running(blocks),
        total_frames(blocks) >= countdown_of(clip.state),
    ensures
        after_blocks(clip, blocks).state == (ClipState::Paused {
            next_block_pos: paused_at(
                clip.state->Suspending_play_info,
                clip.source_frame_rate_spec(),
            ),
        }),
    decreases blocks.len(),
{
    let block = blocks[0].0;
    let timeline = blocks[0].1;
    let rest = blocks.drop_first();
    let next = clip.samples_spec(block, timeline).0;
    assert(timeline.is_running);
    lemma_rest_of_run(blocks);
    if next.state is Suspending {
        assert(total_frames(rest) >= countdown_of(next.state));
        assert(countdown_of(next.state) > 0);
        assert(rest.len() > 0);
        lemma_pause_runs_out(next, rest);
    } else {
        lemma_paused_stays_paused(next, rest);
    }
}

proof fn lemma_stop_runs_out(clip: ClipPcmSource, blocks: Seq<(BlockRequest, TimelineMoment)>)
    requires
        clip.state is Suspending,
        clip.state->Suspending_reason == SuspensionReason::Stop,
        blocks.len() > 0,
        all_running(blocks),
        total_frames(blocks) >= countdown_of(clip.state),
    ensures
        after_blocks(clip, blocks).state == ClipState::Stopped,
    decreases blocks.len(),
{
    let block = blocks[0].0;
    let timeline = blocks[0].1;
    let rest = blocks.drop_first();
    let next = clip.samples_spec(block, timeline).0;
    assert(timeline.is_running);
    lemma_rest_of_run(blocks);
    if next.state is Suspending {
        assert(total_frames(rest) >= countdown_of(next.state));
        assert(countdown_of(next.state) > 0);
        assert(rest.len() > 0);
        lemma_stop_runs_out(next, rest);
    } else {
        lemma_stopped_stays_stopped(next, rest);
    }
}

/// While a clip plays and no command comes in between, each block starts at
/// the position that the block before it left, and leaves the position
/// that many frames further on as it consumed: nothing is skipped and
/// nothing played twice, whatever the tempo of either block.
pub proof fn law_position_is_continuous(
    clip: ClipPcmSource,
    first: BlockRequest,
    first_moment: TimelineMoment,
    second: BlockRequest,
    second_moment: TimelineMoment,
)
    requires
        clip.state is ScheduledOrPlaying,
        first_moment.is_running,
        second_moment.is_running,
        clip.samples_spec(first, first_moment).0.state is ScheduledOrPlaying,
        clip.samples_spec(first, first_moment).0.samples_spec(
            second,
            second_moment,
        ).0.state is ScheduledOrPlaying,
    ensures
        ({
            let (after_first, first_outcome) = clip.samples_spec(first, first_moment);
            let (after_second, second_outcome) = after_first.samples_spec(second, second_moment);
            let reported_first = after_first.state.spec_play_info()->Some_0.next_block_pos;
            let reported_second = after_second.state.spec_play_info()->Some_0.next_block_pos;
            &&& first_outcome.played is Some
            &&& second_outcome.played is Some
            &&& after_first.state.spec_play_info() is Some
            &&& after_second.state.spec_play_info() is Some
            &&& reported_first == clamp_i64(
                first_outcome.played->Some_0.start_frame + first_outcome.frames_consumed(),
            )
            &&& second_outcome.played->Some_0.start_frame == reported_first
            &&& reported_second == clamp_i64(reported_first + second_outcome.frames_consumed())
        }),
{
}

/// The position of a playing clip never goes back: a block leaves it where
/// it was or further on.
pub proof fn law_position_never_goes_back(
    clip: ClipPcmSource,
    block: BlockRequest,
    timeline: TimelineMoment,
    position: i64,
)
    requires
        clip.state is ScheduledOrPlaying,
        clip.state.spec_play_info() == Some(ResolvedPlayData { next_block_pos: position }),
        clip.samples_spec(block, timeline).0.state is ScheduledOrPlaying,
    ensures
        clip.samples_spec(block, timeline).0.state.spec_play_info() is Some,
        clip.samples_spec(block, timeline).0.state.spec_play_info()->Some_0.next_block_pos
            >= position,
{
}

/// A block of a playing clip whose position is resolved starts at that
/// position, and where the clip plays on, its new position is the old one
/// plus the frames that the block consumed.
pub proof fn law_block_advances_by_frames_consumed(
    clip: ClipPcmSource,
    block: BlockRequest,
    timeline: TimelineMoment,
    position: i64,
)
    requires
        clip.state is ScheduledOrPlaying,
        clip.state.spec_play_info() == Some(ResolvedPlayData { next_block_pos: position }),
        timeline.is_running,
        clip.samples_spec(block, timeline).0.state is ScheduledOrPlaying,
        position + clip.samples_spec(block, timeline).1.frames_consumed() <= i64::MAX,
    ensures
        clip.samples_spec(block, timeline).1.played is Some,
        clip.samples_spec(block, timeline).1.played->Some_0.start_frame == position,
        clip.samples_spec(block, timeline).0.state.spec_play_info() == Some(
            ResolvedPlayData {
                next_block_pos: (position + clip.samples_spec(
                    block,
                    timeline,
                ).1.frames_consumed()) as i64,
            },
        ),
{
}

/// After a command to stop immediately a clip is stopped or suspends for
/// the stop, whatever its state was, and once blocks with as many frames
/// as the countdown of that suspension have passed, it is stopped.
pub proof fn law_immediate_stop_ends_stopped(
    clip: ClipPcmSource,
    args: StopArgs,
    blocks: Seq<(BlockRequest, TimelineMoment)>,
)
    requires
        args.stop_time == ClipStopTime::Immediately,
        blocks.len() > 0,
        all_running(blocks),
        total_frames(blocks) >= countdown_of(clip.stop_spec(args).state),
    ensures
        clip.stop_spec(args).state == ClipState::Stopped || (clip.stop_spec(args).state is Suspending
            && clip.stop_spec(args).state->Suspending_reason == SuspensionReason::Stop),
        after_blocks(clip.stop_spec(args), blocks).state == ClipState::Stopped,
{
    let stopping = clip.stop_spec(args);
    if stopping.state == ClipState::Stopped {
        lemma_stopped_stays_stopped(stopping, blocks);
    } else {
        lemma_stop_runs_out(stopping, blocks);
    }
}

/// After a pause command a clip that has started, or that is suspending,
/// suspends for the pause, and once blocks with as many frames as the
/// countdown of that suspension have passed, it is paused at the position
/// at which the suspension began, turned into time.
pub proof fn law_pause_ends_paused_where_suspension_began(
    clip: ClipPcmSource,
    blocks: Seq<(BlockRequest, TimelineMoment)>,
)
    requires
        clip.state is Suspending || (clip.state is ScheduledOrPlaying
            && clip.state->ScheduledOrPlaying_0.has_started()),
        blocks.len() > 0,
        all_running(blocks),
        total_frames(blocks) >= countdown_of(clip.pause_spec().state),
    ensures
        clip.state.spec_play_info() is Some,
        after_blocks(clip.pause_spec(), blocks).state == (ClipState::Paused {
            next_block_pos: paused_at(
                clip.state.spec_play_info()->Some_0,
                clip.source_frame_rate_spec(),
            ),
        }),
{
    lemma_pause_runs_out(clip.pause_spec(), blocks);
}

/// A clip that was paused at a position and is told to play again resumes
/// at that very position: the first block after the command starts there,
/// whatever the tempo and however long the pause was.
pub proof fn law_resume_starts_where_the_clip_was_paused(
    clip: ClipPcmSource,
    play_info: ResolvedPlayData,
    args: PlayArgs,
    timeline: TimelineMoment,
    block: BlockRequest,
)
    requires
        play_info.next_block_pos >= 0,
        clip.state == (ClipState::Paused {
            next_block_pos: paused_at(play_info, clip.source_frame_rate_spec()),
        }),
        0 < clip.source_frame_rate_spec() < 500_000_000,
        play_info.next_block_pos * 1_000_000_000 <= u64::MAX,
        timeline.cursor_pos == args.timeline_cursor_pos,
    ensures
        clip.play_spec(args, timeline).state is ScheduledOrPlaying,
        clip.play_spec(args, timeline).block_spec(block, timeline).1.played is Some,
        clip.play_spec(args, timeline).block_spec(block, timeline).1.played->Some_0.start_frame
            == play_info.next_block_pos,
{
    lemma_frames_survive_the_way_through_time(
        play_info.next_block_pos as nat,
        clip.source_frame_rate_spec() as nat,
    );
    let resumed = clip.play_spec(args, timeline);
    let s = resumed.state->ScheduledOrPlaying_0;
    let f = ClipPcmSource::final_tempo_factor_spec(timeline.tempo);
    let rate = clip.source_frame_rate_spec() as nat;
    assert(resumed.source_frame_rate_spec() == clip.source_frame_rate_spec());
    lemma_nothing_scales_to_nothing(rate, 1_000_000_000);
    lemma_nothing_scales_to_nothing(f.num as nat, f.den as nat);
    assert(resumed.resolved_spec(s, timeline).next_block_pos == play_info.next_block_pos);
}

proof fn lemma_nothing_scales_to_nothing(num: nat, den: nat)
    ensures
        scale_spec(0, num, den) == 0,
        scale_floor_spec(0, num, den) == 0,
{
    assert(0 * num == 0) by (nonlinear_arith);
    let d = at_least_one(den);
    vstd::arithmetic::div_mod::lemma_small_mod(0, d);
    vstd::arithmetic::div_mod::lemma_fundamental_div_mod_converse(0, d as int, 0, 0);
}

/// Two play commands in a row, to a clip that has started and is not due
/// to stop, make one suspension: the first begins it, with a full
/// countdown, and the second leaves position and countdown as they are and
/// only changes the reason, so that the clip is scheduled once when the
/// one suspension is over.
pub proof fn law_play_twice_suspends_once(
    clip: ClipPcmSource,
    first: PlayArgs,
    first_moment: TimelineMoment,
    second: PlayArgs,
    second_moment: TimelineMoment,
)
    requires
        clip.state is ScheduledOrPlaying,
        clip.state->ScheduledOrPlaying_0.has_started(),
        !clip.state->ScheduledOrPlaying_0.scheduled_for_stop,
    ensures
        clip.play_spec(first, first_moment).state == (ClipState::Suspending {
            reason: SuspensionReason::Retrigger,
            play_info: clip.state.spec_play_info()->Some_0,
            transition_countdown: START_END_FADE_LENGTH,
        }),
        clip.play_spec(first, first_moment).play_spec(second, second_moment).state
            == (ClipState::Suspending {
            reason: SuspensionReason::PlayWhileSuspending { play_time: second.play_time },
            play_info: clip.state.spec_play_info()->Some_0,
            transition_countdown: START_END_FADE_LENGTH,
        }),
{
}

/// Every suspension has one state that follows it, and that state is no
/// suspension.
pub proof fn law_suspension_has_a_successor(
    reason: SuspensionReason,
    play_info: ResolvedPlayData,
    timeline: TimelineMoment,
    source_frame_rate: u32,
)
    ensures
        !(ClipPcmSource::suspension_follow_up_spec(
            reason,
            play_info,
            timeline,
            source_frame_rate,
        ) is Suspending),
        reason == SuspensionReason::Stop <==> ClipPcmSource::suspension_follow_up_spec(
            reason,
            play_info,
            timeline,
            source_frame_rate,
        ) is Stopped,
        reason == SuspensionReason::Pause <==> ClipPcmSource::suspension_follow_up_spec(
            reason,
            play_info,
            timeline,
            source_frame_rate,
        ) is Paused,
{
}

/// A clip that is to end with its current cycle, because it plays once or
/// is due to stop, plays that cycle out: a block stops the clip exactly if
/// it reaches the end of the cycle, and then the frames consumed end on
/// that very frame. A block that does not reach it leaves the clip
/// playing, further on by the frames the block asked for.
pub proof fn law_clip_ends_exactly_with_its_cycle(
    clip: ClipPcmSource,
    block: BlockRequest,
    timeline: TimelineMoment,
)
    requires
        clip.state is ScheduledOrPlaying,
        clip.state->ScheduledOrPlaying_0.has_started(),
        clip.stops_at_end_of_clip(clip.state->ScheduledOrPlaying_0),
        clip.inner.chain.head.enabled,
        clip.inner.chain.spec_section().frame_count_spec() > 0,
        clip.inner.chain.spec_section().boundary.start_frame
            + clip.inner.chain.spec_section().frame_count_spec() <= i64::MAX,
        ideal_frames(clip, block, timeline) > 0,
    ensures
        ({
            let cycle_length = clip.inner.chain.spec_section().frame_count_spec() as int;
            let position = clip.state.spec_play_info()->Some_0.next_block_pos as int;
            let (after, outcome) = clip.block_spec(block, timeline);
            let ideal = ideal_frames(clip, block, timeline);
            let reaches_end = position % cycle_length + ideal >= cycle_length;
            &&& outcome.played is Some
            &&& after.state == ClipState::Stopped <==> reaches_end
            &&& reaches_end ==> (position + outcome.frames_consumed()) % cycle_length == 0
                && outcome.frames_consumed() == cycle_length - position % cycle_length
            &&& !reaches_end ==> outcome.frames_consumed() == ideal && after.state
                == ClipState::ScheduledOrPlaying(
                ScheduledOrPlayingState {
                    resolved_play_data: Some(
                        ResolvedPlayData { next_block_pos: clamp_i64(position + ideal) },
                    ),
                    ..clip.state->ScheduledOrPlaying_0
                },
            )
        }),
{
    let s = clip.state->ScheduledOrPlaying_0;
    let play_info = s.resolved_play_data->Some_0;
    let chain = clip.chain_for_block_spec(s, play_info, timeline);
    let looper = chain.head.supplier;
    let section = looper.supplier;
    let n = section.frame_count_spec();
    let position = play_info.next_block_pos;
    let request = chain.head.inner_request(block_supply_request(block, position));
    let modulo_start = (position as u64 % n) as i64;
    assert(looper.is_relevant_spec(position));
    assert(looper.is_last_cycle_spec(looper.cycle_at_frame_spec(position as u64)));
    law_section_consumes_up_to_its_end(section, request.starting_at(modulo_start));
    let consumed = section.supply_spec(request.starting_at(modulo_start)).response.num_frames_consumed;
    if modulo_start + ideal_frames(clip, block, timeline) >= n {
        assert(modulo_start + consumed == n);
        vstd::arithmetic::div_mod::lemma_fundamental_div_mod(position as int, n as int);
        assert(position + consumed == n * (position as int / n as int + 1)) by (nonlinear_arith)
            requires
                position == n * (position as int / n as int) + modulo_start,
                modulo_start + consumed == n,
        ;
        vstd::arithmetic::div_mod::lemma_mod_multiples_basic(
            position as int / n as int + 1,
            n as int,
        );
        assert(n * (position as int / n as int + 1) == (position as int / n as int + 1) * n)
            by (nonlinear_arith);
    }
}

/// The source frames that a block asks of a clip at the tempo of a moment.
pub open spec fn ideal_frames(
    clip: ClipPcmSource,
    block: BlockRequest,
    timeline: TimelineMoment,
) -> u64 {
    SupplyRequest {
        start_frame: 0,
        dest_frame_count: block.frame_count,
        dest_frame_rate: block.sample_rate,
        tempo_factor: ClipPcmSource::final_tempo_factor_spec(timeline.tempo),
    }.source_frames_spec(block.frame_count, clip.material().frame_rate)
}

/// A fresh clip that plays once, at the tempo of its material and at its
/// own sample rate, consumes one frame of material per frame of a block. It
/// reports the end in exactly the block with which the frames consumed
/// reach the length of the material, consumes no frame beyond it, and is
/// stopped when that very block is over.
pub proof fn law_single_shot_ends_exactly_at_native_length(
    kind: InnerSourceKind,
    source: SourceMaterial,
    state: ScheduledOrPlayingState,
    block: BlockRequest,
    timeline: TimelineMoment,
)
    requires
        state.has_started(),
        state.resolved_play_data->Some_0.next_block_pos < source.frame_count,
        source.frame_count <= i64::MAX,
        timeline.tempo == MIDI_BASE_TEMPO,
        block.sample_rate == ClipPcmSource::spec_new(kind, source).material().frame_rate,
        block.sample_rate > 0,
        block.frame_count > 0,
    ensures
        ({
            let clip = ClipPcmSource::spec_new(kind, source).with_state(
                ClipState::ScheduledOrPlaying(state),
            );
            let position = state.resolved_play_data->Some_0.next_block_pos;
            let (after, outcome) = clip.block_spec(block, timeline);
            let reaches_end = position + block.frame_count >= source.frame_count;
            &&& outcome.played is Some
            &&& outcome.played->Some_0.plan.response.is_end() <==> reaches_end
            &&& after.state == ClipState::Stopped <==> reaches_end
            &&& reaches_end ==> position + outcome.frames_consumed() == source.frame_count
            &&& !reaches_end ==> outcome.frames_consumed() == block.frame_count
        }),
{
    let clip = ClipPcmSource::spec_new(kind, source).with_state(
        ClipState::ScheduledOrPlaying(state),
    );
    let rate = clip.material().frame_rate;
    assert((rate as nat) * (MIDI_BASE_TEMPO as nat) > 0) by (nonlinear_arith)
        requires
            rate > 0,
    ;
    lemma_scale_by_equal_parts(
        block.frame_count as nat,
        (rate as nat) * (MIDI_BASE_TEMPO as nat),
    );
    assert(ideal_frames(clip, block, timeline) == block.frame_count);
    law_clip_ends_exactly_with_its_cycle(clip, block, timeline);
    let position = state.resolved_play_data->Some_0.next_block_pos;
    vstd::arithmetic::div_mod::lemma_small_mod(position as nat, source.frame_count as nat);
}

/// Switching the repetition off while a clip plays does not stop it: the
/// command leaves the state of the transport as it is, and the clip plays
/// on until a block reaches the end of the cycle that it is in, which
/// stops it.
pub proof fn law_repeat_off_plays_the_cycle_out(
    clip: ClipPcmSource,
    block: BlockRequest,
    timeline: TimelineMoment,
)
    requires
        clip.state is ScheduledOrPlaying,
        clip.state->ScheduledOrPlaying_0.has_started(),
        clip.inner.chain.head.enabled,
        clip.inner.chain.spec_section().frame_count_spec() > 0,
        clip.inner.chain.spec_section().boundary.start_frame
            + clip.inner.chain.spec_section().frame_count_spec() <= i64::MAX,
        ideal_frames(clip, block, timeline) > 0,
    ensures
        ({
            let off = clip.repeated_spec(false);
            let cycle_length = clip.inner.chain.spec_section().frame_count_spec() as int;
            let position = clip.state.spec_play_info()->Some_0.next_block_pos as int;
            let reaches_end = position % cycle_length + ideal_frames(clip, block, timeline)
                >= cycle_length;
            &&& off.state == clip.state
            &&& off.block_spec(block, timeline).0.state == ClipState::Stopped <==> reaches_end
            &&& !reaches_end ==> off.block_spec(block, timeline).0.state.spec_play_info() == Some(
                ResolvedPlayData {
                    next_block_pos: clamp_i64(position + ideal_frames(clip, block, timeline)),
                },
            )
        }),
{
    law_clip_ends_exactly_with_its_cycle(clip.repeated_spec(false), block, timeline);
}

} // verus!
