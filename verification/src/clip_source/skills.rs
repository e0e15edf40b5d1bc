//! What can be asked of anything that is a clip.

use vstd::prelude::*;
use crate::clip_source::source::{proportional_position_spec, ClipPcmSource};
use crate::clip_source::state::{
    ClipState, PlayArgs, PosWithinClipArgs, Proportion, RecordArgs, SeekToArgs, SetRepeatedArgs,
    StopArgs, TimelineMoment,
};
use crate::units::TempoFactor;

verus! {

/// The commands and queries of a clip. Whatever has these skills behaves
/// as the clip that it stands for.
pub trait ClipPcmSourceSkills {
    /// The clip that this stands for.
    spec fn clip(&self) -> ClipPcmSource;

    /// Returns the state of this clip source.
    fn clip_state(&self) -> (r: ClipState)
        ensures
            r == self.clip().state,
    ;

    /// Starts or schedules clip playing.
    ///
    /// - Reschedules if not yet playing.
    /// - Retriggers if already playing and not scheduled for stop.
    /// - Resumes immediately if paused.
    /// - Backpedals if already playing and scheduled for stop.
    fn play(&mut self, args: PlayArgs, timeline: &TimelineMoment)
        ensures
            final(self).clip() == old(self).clip().play_spec(args, *timeline),
    ;

    /// Pauses playback.
    fn pause(&mut self, timeline_cursor_pos: i64)
        ensures
            final(self).clip() == old(self).clip().pause_spec(),
    ;

    /// Stops the clip or schedules the stop.
    ///
    /// - Backpedals from scheduled start if not yet playing.
    /// - Stops immediately if paused.
    fn stop(&mut self, args: StopArgs)
        ensures
            final(self).clip() == old(self).clip().stop_spec(args),
    ;

    /// Starts recording a clip.
    fn record(&mut self, args: RecordArgs)
        ensures
            final(self).clip() == old(self).clip().record_spec(),
    ;

    /// Seeks to the given position within the clip.
    ///
    /// This only has an effect if the clip is paused, or already and still
    /// playing.
    fn seek_to(&mut self, args: SeekToArgs)
        ensures
            final(self).clip() == old(self).clip().seek_to_spec(args),
    ;

    /// Returns the clip length in nanoseconds at a tempo of the timeline.
    ///
    /// The clip length is different from the length that the host sees,
    /// which is without end, as that of a track.
    fn clip_length(&self, timeline_tempo: u32) -> (r: u64)
        ensures
            r == self.clip().clip_length_spec(timeline_tempo),
    ;

    /// Returns the native length of the clip in nanoseconds,
    /// tempo-independent.
    fn native_clip_length(&self) -> (r: u64)
        ensures
            r == self.clip().native_clip_length_spec(),
    ;

    /// Manually adjusts the play tempo by the given factor (in addition to
    /// the automatic timeline tempo adjustment).
    fn set_tempo_factor(&mut self, tempo_factor: TempoFactor)
        ensures
            final(self).clip() == old(self).clip().tempo_factor_set_spec(tempo_factor),
    ;

    /// Returns the tempo factor.
    fn get_tempo_factor(&self) -> (r: TempoFactor)
        ensures
            r == self.clip().manual_tempo_factor,
    ;

    /// Changes whether to repeat or not repeat the clip.
    fn set_repeated(&mut self, args: SetRepeatedArgs)
        ensures
            final(self).clip() == old(self).clip().repeated_spec(args.repeated),
    ;

    /// Returns the position within the clip.
    ///
    /// - Considers clip length.
    /// - Considers repeat.
    /// - Returns negative position if clip not yet playing.
    /// - Returns `None` if not scheduled.
    fn pos_within_clip(&self, args: PosWithinClipArgs) -> (r: Option<i64>)
        ensures
            r == self.clip().pos_within_clip_spec(args),
    ;

    /// Returns the position within the clip as a proportion of its length.
    fn proportional_pos_within_clip(&self, args: PosWithinClipArgs) -> (r: Option<Proportion>)
        ensures
            r == proportional_position_spec(
                self.clip().pos_within_clip_spec(args),
                self.clip().clip_length_spec(args.timeline_tempo),
            ),
    ;
}

impl ClipPcmSourceSkills for ClipPcmSource {
    open spec fn clip(&self) -> ClipPcmSource {
        *self
    }

    fn clip_state(&self) -> (r: ClipState) {
        ClipPcmSource::clip_state(self)
    }

    fn play(&mut self, args: PlayArgs, timeline: &TimelineMoment) {
        ClipPcmSource::play(self, args, timeline)
    }

    fn pause(&mut self, timeline_cursor_pos: i64) {
        ClipPcmSource::pause(self, timeline_cursor_pos)
    }

    fn stop(&mut self, args: StopArgs) {
        ClipPcmSource::stop(self, args)
    }

    fn record(&mut self, args: RecordArgs) {
        ClipPcmSource::record(self, args)
    }

    fn seek_to(&mut self, args: SeekToArgs) {
        ClipPcmSource::seek_to(self, args)
    }

    fn clip_length(&self, timeline_tempo: u32) -> (r: u64) {
        ClipPcmSource::clip_length(self, timeline_tempo)
    }

    fn native_clip_length(&self) -> (r: u64) {
        ClipPcmSource::native_clip_length(self)
    }

    fn set_tempo_factor(&mut self, tempo_factor: TempoFactor) {
        ClipPcmSource::set_tempo_factor(self, tempo_factor)
    }

    fn get_tempo_factor(&self) -> (r: TempoFactor) {
        ClipPcmSource::get_tempo_factor(self)
    }

    fn set_repeated(&mut self, args: SetRepeatedArgs) {
        ClipPcmSource::set_repeated(self, args)
    }

    fn pos_within_clip(&self, args: PosWithinClipArgs) -> (r: Option<i64>) {
        ClipPcmSource::pos_within_clip(self, args)
    }

    fn proportional_pos_within_clip(&self, args: PosWithinClipArgs) -> (r: Option<Proportion>) {
        ClipPcmSource::proportional_pos_within_clip(self, args)
    }
}

} // verus!
