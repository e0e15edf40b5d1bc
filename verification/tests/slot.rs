use clip_engine::clip_source::block::BlockRequest;
use clip_engine::clip_source::source::{ClipPcmSource, InnerSourceKind};
use clip_engine::clip_source::state::{
    ClipStartTime, ClipState, ClipStopTime, PlayInstruction, Proportion, RecordArgs, Repetition,
    ResolvedPlayData, ScheduledOrPlayingState, SuspensionReason, TimelineMoment,
};
use clip_engine::slot::{
    create_shared_register, get_play_state, ClipChangedEvent, ClipContent, ClipPlayArgs,
    ClipPlayState, ClipRecordSourceType, ClipRecordTiming, ClipSlot, Disengagement, FilledState,
    LegacyClip, PlayState, PreviewRegister, RelevantPlayStateChange, SlotError, SlotPlayOptions,
    SlotStopBehavior, State, TransportChange, TransportReaction, FULL_VOLUME,
};
use clip_engine::supplier::material::SourceMaterial;
use clip_engine::units::TempoFactor;

const TEMPO: u32 = 120_000;

fn source() -> ClipPcmSource {
    ClipPcmSource::new(InnerSourceKind::Audio, SourceMaterial::new(48000, 96000))
}

fn moment(cursor_pos: i64) -> TimelineMoment {
    TimelineMoment { cursor_pos, tempo: TEMPO, next_bar_pos: cursor_pos + 1000, is_running: true }
}

fn block() -> BlockRequest {
    BlockRequest { frame_count: 480, sample_rate: 48000 }
}

fn filled_slot() -> ClipSlot {
    let mut slot = ClipSlot::new(3);
    slot.fill_by_user(ClipContent::File, source()).unwrap();
    slot
}

fn immediately() -> SlotPlayOptions {
    SlotPlayOptions { next_bar: false, buffered: false }
}

fn synced() -> SlotPlayOptions {
    SlotPlayOptions { next_bar: true, buffered: false }
}

fn scheduled(state: ScheduledOrPlayingState) -> ClipState {
    ClipState::ScheduledOrPlaying(state)
}

fn playing(pos: i64, scheduled_for_stop: bool, overdubbing: bool) -> ClipState {
    scheduled(ScheduledOrPlayingState {
        play_instruction: PlayInstruction {
            scheduled_play_pos: 0,
            start_pos_within_clip: 0,
            initial_tempo: TEMPO,
        },
        resolved_play_data: Some(ResolvedPlayData { next_block_pos: pos }),
        scheduled_for_stop,
        overdubbing,
    })
}

fn clip_state_of(slot: &ClipSlot) -> ClipState {
    slot.register.src.unwrap().clip_state()
}

#[test]
fn slot_play_options_buffering() {
    assert!(!SlotPlayOptions { next_bar: false, buffered: false }.is_effectively_buffered());
    assert!(SlotPlayOptions { next_bar: true, buffered: false }.is_effectively_buffered());
    assert!(SlotPlayOptions { next_bar: false, buffered: true }.is_effectively_buffered());
    assert!(SlotPlayOptions { next_bar: true, buffered: true }.is_effectively_buffered());
}

#[test]
fn relevant_changes_of_the_host_play_state() {
    let state = |is_playing, is_paused| PlayState { is_playing, is_paused, is_recording: false };
    assert_eq!(
        RelevantPlayStateChange::from_play_state_change(state(false, false), state(true, false)),
        Some(RelevantPlayStateChange::PlayAfterStop)
    );
    assert_eq!(
        RelevantPlayStateChange::from_play_state_change(state(true, false), state(false, false)),
        Some(RelevantPlayStateChange::StopAfterPlay)
    );
    assert_eq!(
        RelevantPlayStateChange::from_play_state_change(state(false, true), state(false, false)),
        Some(RelevantPlayStateChange::StopAfterPause)
    );
    assert_eq!(
        RelevantPlayStateChange::from_play_state_change(state(true, false), state(false, true)),
        None
    );
    assert_eq!(
        RelevantPlayStateChange::from_play_state_change(state(false, true), state(true, false)),
        None
    );
    assert_eq!(
        RelevantPlayStateChange::from_play_state_change(state(false, false), state(false, false)),
        None
    );
}

#[test]
fn stop_behavior_to_stop_time() {
    assert_eq!(SlotStopBehavior::Immediately.get_clip_stop_position(), ClipStopTime::Immediately);
    assert_eq!(SlotStopBehavior::EndOfClip.get_clip_stop_position(), ClipStopTime::EndOfClip);
}

#[test]
fn play_state_of_each_clip_state() {
    assert_eq!(get_play_state(ClipState::Stopped), ClipPlayState::Stopped);
    assert_eq!(get_play_state(playing(0, false, false)), ClipPlayState::Playing);
    assert_eq!(get_play_state(playing(-1, false, false)), ClipPlayState::ScheduledForPlay);
    assert_eq!(get_play_state(playing(5, true, false)), ClipPlayState::ScheduledForStop);
    assert_eq!(get_play_state(playing(5, true, true)), ClipPlayState::Recording);
    assert_eq!(
        get_play_state(scheduled(ScheduledOrPlayingState {
            play_instruction: PlayInstruction {
                scheduled_play_pos: 0,
                start_pos_within_clip: 0,
                initial_tempo: TEMPO,
            },
            resolved_play_data: None,
            scheduled_for_stop: false,
            overdubbing: false,
        })),
        ClipPlayState::ScheduledForPlay
    );
    let suspending = |reason| ClipState::Suspending {
        reason,
        play_info: ResolvedPlayData { next_block_pos: 0 },
        transition_countdown: 480,
    };
    assert_eq!(get_play_state(suspending(SuspensionReason::Retrigger)), ClipPlayState::Playing);
    assert_eq!(get_play_state(suspending(SuspensionReason::Pause)), ClipPlayState::Paused);
    assert_eq!(get_play_state(suspending(SuspensionReason::Stop)), ClipPlayState::Stopped);
    assert_eq!(
        get_play_state(suspending(SuspensionReason::PlayWhileSuspending {
            play_time: ClipStartTime::NextBar
        })),
        ClipPlayState::Playing
    );
    assert_eq!(get_play_state(ClipState::Paused { next_block_pos: 1 }), ClipPlayState::Paused);
}

#[test]
fn slot_errors_in_words() {
    assert_eq!(SlotError::SlotIsEmpty.message(), "slot is empty");
    assert_eq!(SlotError::NoSourceLoaded.message(), "no source loaded");
    assert_eq!(SlotError::CouldNotPlayPreview.message(), "couldn't play preview");
    assert_eq!(SlotError::ClipIsStopped.message(), "clip is stopped");
}

#[test]
fn a_new_slot_is_empty() {
    let slot = ClipSlot::new(3);
    assert_eq!(slot.index, 3);
    assert_eq!(slot.state, State::Empty);
    assert_eq!(*slot.descriptor(), LegacyClip { volume: 1000, repeat: false, content: None });
    assert_eq!(
        slot.register,
        PreviewRegister { src: None, volume: 1000, out_chan: -1, preview_track: None }
    );
    assert!(!slot.is_filled());
    assert!(!slot.source_is_loaded());
    assert!(!slot.is_engaged());
    assert_eq!(slot.play_state(), ClipPlayState::Stopped);
    assert_eq!(slot.volume(), FULL_VOLUME);
    assert!(!slot.repeat_is_enabled());
    assert_eq!(slot.tempo_factor(), TempoFactor { num: 1, den: 1 });
    assert_eq!(
        create_shared_register(&LegacyClip { volume: 7, repeat: true, content: None }),
        PreviewRegister { src: None, volume: 7, out_chan: -1, preview_track: None }
    );
}

#[test]
fn commands_to_an_empty_slot() {
    let mut slot = ClipSlot::new(0);
    let fresh = slot;
    assert_eq!(slot.play(None, immediately(), &moment(0), Some(1)), Err(SlotError::SlotIsEmpty));
    assert_eq!(slot, fresh);
    assert_eq!(slot.stop(SlotStopBehavior::Immediately, &moment(0)), Err(SlotError::SlotIsEmpty));
    assert_eq!(slot.stop(SlotStopBehavior::EndOfClip, &moment(0)), Err(SlotError::SlotIsEmpty));
    assert_eq!(slot.pause(0), Err(SlotError::SlotIsEmpty));
    assert_eq!(slot.record(RecordArgs {}), Err(SlotError::SlotIsEmpty));
    assert_eq!(slot, fresh);
    // Clearing and the events of the host are no playback operations.
    assert_eq!(slot.clear(), Ok(None));
    assert_eq!(slot.poll(0, TEMPO), None);
    assert_eq!(
        slot.process_transport_change(TransportChange::PlayCursorJump, &moment(0), None),
        Ok(())
    );
    assert_eq!(slot, fresh);
    assert_eq!(slot.set_tempo_factor(TempoFactor { num: 2, den: 1 }), Err(SlotError::NoSourceLoaded));
    assert_eq!(slot.proportional_position(&moment(0)), Err(SlotError::NoSourceLoaded));
    assert_eq!(slot.position_in_seconds(&moment(0)), Err(SlotError::NoSourceLoaded));
    assert_eq!(
        slot.set_proportional_position(Proportion { part: 1, whole: 2 }, &moment(0)),
        Err(SlotError::NoSourceLoaded)
    );
    assert_eq!(slot.get_samples(&block(), &moment(0)).played, None);
    assert_eq!(slot, fresh);
}

#[test]
fn filling_a_slot() {
    let slot = filled_slot();
    assert!(slot.is_filled());
    assert!(slot.source_is_loaded());
    assert!(!slot.is_engaged());
    assert_eq!(slot.clip.content, Some(ClipContent::File));
    assert_eq!(slot.register.src, Some(source()));
    assert_eq!(
        slot.state,
        State::Filled(FilledState {
            last_clip_play_state: ClipPlayState::Stopped,
            handle: None,
            last_play_args: None,
            was_caused_by_transport_change: false,
        })
    );
}

#[test]
fn a_failed_engagement_keeps_the_clip_scheduled() {
    let mut slot = filled_slot();
    let before = slot.state;
    assert_eq!(slot.play(Some(2), immediately(), &moment(0), None), Err(SlotError::CouldNotPlayPreview));
    // The slot is as it was, and not engaged ...
    assert_eq!(slot.state, before);
    assert!(!slot.is_engaged());
    // ... but the clip is told to play.
    assert_eq!(slot.play_state(), ClipPlayState::ScheduledForPlay);
    assert_eq!(slot.register.preview_track, Some(2));
    // The next play engages.
    assert_eq!(slot.play(Some(2), immediately(), &moment(0), Some(7)), Ok(()));
    assert!(slot.is_engaged());
    assert_eq!(
        slot.state,
        State::Filled(FilledState {
            last_clip_play_state: ClipPlayState::Stopped,
            handle: Some(7),
            last_play_args: Some(ClipPlayArgs { options: immediately(), track: Some(2), repeat: false }),
            was_caused_by_transport_change: false,
        })
    );
}

#[test]
fn an_engaged_slot_is_not_engaged_again() {
    let mut slot = filled_slot();
    slot.play(None, immediately(), &moment(0), Some(7)).unwrap();
    assert_eq!(slot.play(Some(5), immediately(), &moment(0), None), Ok(()));
    assert_eq!(slot.play(Some(5), immediately(), &moment(0), Some(9)), Ok(()));
    match slot.state {
        State::Filled(s) => assert_eq!(s.handle, Some(7)),
        State::Empty => panic!("slot is empty"),
    }
    // The track is set on the first play only.
    assert_eq!(slot.register.preview_track, None);
}

#[test]
fn play_without_a_source_fails() {
    let mut slot = filled_slot();
    slot.register.src = None;
    let before = slot;
    assert_eq!(slot.play(Some(1), immediately(), &moment(0), Some(7)), Err(SlotError::NoSourceLoaded));
    assert_eq!(slot, before);
    assert_eq!(slot.record(RecordArgs {}), Err(SlotError::NoSourceLoaded));
    assert_eq!(slot, before);
    assert_eq!(slot.poll(0, TEMPO), None);
    assert_eq!(slot.play_state(), ClipPlayState::Stopped);
}

#[test]
fn play_takes_repeat_and_start_time_from_the_slot() {
    let mut slot = filled_slot();
    slot.toggle_repeat(&moment(0));
    slot.play(None, synced(), &moment(500), Some(1)).unwrap();
    let src = slot.register.src.unwrap();
    assert_eq!(src.repetition, Repetition::Infinitely);
    match src.clip_state() {
        ClipState::ScheduledOrPlaying(s) => {
            assert_eq!(s.play_instruction.scheduled_play_pos, 1500)
        }
        other => panic!("unexpected state {:?}", other),
    }
}

#[test]
fn poll_reports_one_event_at_a_time() {
    let mut slot = filled_slot();
    // Nothing changed: the position is reported, which a stopped clip lacks.
    assert_eq!(
        slot.poll(0, TEMPO),
        Some(ClipChangedEvent::ClipPosition(Proportion { part: 0, whole: 1 }))
    );
    slot.play(None, immediately(), &moment(0), Some(1)).unwrap();
    assert_eq!(slot.poll(0, TEMPO), Some(ClipChangedEvent::PlayState(ClipPlayState::ScheduledForPlay)));
    assert_eq!(
        slot.poll(0, TEMPO),
        Some(ClipChangedEvent::ClipPosition(Proportion { part: 0, whole: 1 }))
    );
    slot.get_samples(&block(), &moment(0));
    assert_eq!(slot.poll(0, TEMPO), Some(ClipChangedEvent::PlayState(ClipPlayState::Playing)));
    assert_eq!(
        slot.poll(0, TEMPO),
        Some(ClipChangedEvent::ClipPosition(Proportion { part: 10_000_000, whole: 2_000_000_000 }))
    );
    match slot.state {
        State::Filled(s) => assert_eq!(s.last_clip_play_state, ClipPlayState::Playing),
        State::Empty => panic!("slot is empty"),
    }
}

#[test]
fn stop_and_pause_reach_the_clip() {
    let mut slot = filled_slot();
    slot.play(None, immediately(), &moment(0), Some(1)).unwrap();
    slot.get_samples(&block(), &moment(0));
    slot.pause(0).unwrap();
    assert_eq!(slot.play_state(), ClipPlayState::Paused);
    assert_eq!(
        clip_state_of(&slot),
        ClipState::Suspending {
            reason: SuspensionReason::Pause,
            play_info: ResolvedPlayData { next_block_pos: 480 },
            transition_countdown: 480,
        }
    );
    slot.stop(SlotStopBehavior::Immediately, &moment(0)).unwrap();
    assert_eq!(slot.play_state(), ClipPlayState::Stopped);
    slot.get_samples(&block(), &moment(0));
    assert_eq!(clip_state_of(&slot), ClipState::Stopped);
}

#[test]
fn stop_at_the_end_of_the_clip() {
    let mut slot = filled_slot();
    slot.play(None, immediately(), &moment(0), Some(1)).unwrap();
    slot.get_samples(&block(), &moment(0));
    slot.stop(SlotStopBehavior::EndOfClip, &moment(0)).unwrap();
    assert_eq!(slot.play_state(), ClipPlayState::ScheduledForStop);
}

#[test]
fn record_makes_the_clip_overdub() {
    let mut slot = filled_slot();
    slot.play(None, immediately(), &moment(0), Some(1)).unwrap();
    assert_eq!(slot.record(RecordArgs {}), Ok(()));
    assert_eq!(slot.play_state(), ClipPlayState::Recording);
}

#[test]
fn clear_empties_the_slot_and_names_the_delivery_to_end() {
    let mut slot = filled_slot();
    slot.play(Some(4), immediately(), &moment(0), Some(7)).unwrap();
    assert_eq!(slot.clear(), Ok(Some(Disengagement { handle: 7, track: Some(4) })));
    assert_eq!(slot.state, State::Empty);
    assert_eq!(slot.register.src, None);
    assert!(!slot.source_is_loaded());
    // The descriptor still says what the slot held.
    assert!(slot.is_filled());
    let mut never_played = filled_slot();
    assert_eq!(never_played.clear(), Ok(None));
}

#[test]
fn reset_goes_back_to_the_defaults() {
    let mut slot = filled_slot();
    slot.set_volume(500);
    slot.toggle_repeat(&moment(0));
    slot.play(None, immediately(), &moment(0), Some(7)).unwrap();
    let (events, disengagement) = slot.reset().unwrap();
    assert_eq!(
        events,
        vec![
            ClipChangedEvent::PlayState(ClipPlayState::Stopped),
            ClipChangedEvent::ClipVolume(1000),
            ClipChangedEvent::ClipRepeat(false),
        ]
    );
    assert_eq!(disengagement, Some(Disengagement { handle: 7, track: None }));
    assert_eq!(slot, ClipSlot::new(3));
}

#[test]
fn load_takes_settings_and_source() {
    let mut slot = ClipSlot::new(1);
    let clip = LegacyClip { volume: 250, repeat: true, content: Some(ClipContent::MidiChunk) };
    let (events, disengagement) = slot.load(clip, Some(source())).unwrap();
    assert_eq!(
        events,
        vec![
            ClipChangedEvent::PlayState(ClipPlayState::Stopped),
            ClipChangedEvent::ClipVolume(250),
            ClipChangedEvent::ClipRepeat(true),
        ]
    );
    assert_eq!(disengagement, None);
    assert_eq!(slot.clip, clip);
    assert_eq!(slot.register.volume, 250);
    assert!(slot.source_is_loaded());
    // Media that is missing leaves the settings in place.
    let mut other = ClipSlot::new(2);
    other.load(clip, None).unwrap();
    assert!(other.is_filled());
    assert!(!other.source_is_loaded());
    // Without content no source is taken up.
    let mut third = ClipSlot::new(2);
    third.load(LegacyClip { volume: 1, repeat: false, content: None }, Some(source())).unwrap();
    assert!(!third.source_is_loaded());
    assert_eq!(third.register.src, None);
}

#[test]
fn toggling_repeat_reaches_the_clip_without_stopping_it() {
    let mut slot = filled_slot();
    assert_eq!(slot.toggle_repeat(&moment(0)), ClipChangedEvent::ClipRepeat(true));
    assert!(slot.repeat_is_enabled());
    slot.play(None, immediately(), &moment(0), Some(1)).unwrap();
    slot.get_samples(&block(), &moment(0));
    let state = clip_state_of(&slot);
    assert_eq!(slot.toggle_repeat(&moment(0)), ClipChangedEvent::ClipRepeat(false));
    assert_eq!(clip_state_of(&slot), state);
    assert_eq!(slot.register.src.unwrap().repetition, Repetition::Once);
    assert_eq!(slot.play_state(), ClipPlayState::Playing);
}

#[test]
fn volume_and_tempo_factor() {
    let mut slot = filled_slot();
    assert_eq!(slot.set_volume(333), ClipChangedEvent::ClipVolume(333));
    assert_eq!(slot.volume(), 333);
    assert_eq!(slot.register.volume, 333);
    assert_eq!(slot.set_tempo_factor(TempoFactor { num: 0, den: 4 }), Ok(()));
    assert_eq!(slot.tempo_factor(), TempoFactor { num: 1, den: 4 });
}

#[test]
fn positions_of_a_slot() {
    let mut slot = filled_slot();
    assert_eq!(slot.proportional_position(&moment(0)), Ok(Proportion { part: 0, whole: 1 }));
    assert_eq!(slot.position_in_seconds(&moment(0)), Ok(0));
    slot.play(None, immediately(), &moment(0), Some(1)).unwrap();
    for _ in 0..50 {
        slot.get_samples(&block(), &moment(0));
    }
    assert_eq!(
        slot.proportional_position(&moment(0)),
        Ok(Proportion { part: 500_000_000, whole: 2_000_000_000 })
    );
    assert_eq!(slot.position_in_seconds(&moment(0)), Ok(500_000_000));
    // A slot that holds a source but is empty reports the start.
    slot.state = State::Empty;
    assert_eq!(slot.proportional_position(&moment(0)), Ok(Proportion { part: 0, whole: 1 }));
    assert_eq!(slot.position_in_seconds(&moment(0)), Ok(0));
}

#[test]
fn seeking_reports_an_event_only_while_paused() {
    let half = Proportion { part: 1, whole: 2 };
    let mut slot = filled_slot();
    // In a stopped clip there is nowhere to seek.
    let stopped = slot;
    assert_eq!(slot.set_proportional_position(half, &moment(0)), Err(SlotError::ClipIsStopped));
    assert_eq!(slot, stopped);
    slot.play(None, immediately(), &moment(0), Some(1)).unwrap();
    // Not started yet: the seek is ignored.
    let scheduled = slot;
    assert_eq!(slot.set_proportional_position(half, &moment(0)), Ok(None));
    assert_eq!(slot, scheduled);
    slot.get_samples(&block(), &moment(0));
    assert_eq!(slot.set_proportional_position(half, &moment(0)), Ok(None));
    let mut src = slot.register.src.unwrap();
    src.state = ClipState::Paused { next_block_pos: 0 };
    slot.register.src = Some(src);
    assert_eq!(
        slot.set_proportional_position(half, &moment(0)),
        Ok(Some(ClipChangedEvent::ClipPosition(half)))
    );
    assert_eq!(clip_state_of(&slot), ClipState::Paused { next_block_pos: 1_000_000_000 });
    // While suspending, a seek is ignored.
    let mut src = slot.register.src.unwrap();
    src.state = ClipState::Suspending {
        reason: SuspensionReason::Pause,
        play_info: ResolvedPlayData { next_block_pos: 480 },
        transition_countdown: 100,
    };
    slot.register.src = Some(src);
    let suspending = slot;
    assert_eq!(slot.set_proportional_position(half, &moment(0)), Ok(None));
    assert_eq!(slot, suspending);
}

fn playing_slot(options: SlotPlayOptions) -> ClipSlot {
    let mut slot = filled_slot();
    slot.toggle_repeat(&moment(0));
    slot.play(None, options, &moment(0), Some(1)).unwrap();
    let at_bar = TimelineMoment { cursor_pos: 1000, tempo: TEMPO, next_bar_pos: 1000, is_running: true };
    slot.get_samples(&block(), &at_bar);
    assert_eq!(slot.play_state(), ClipPlayState::Playing);
    slot
}

fn finish_suspension(slot: &mut ClipSlot) {
    slot.get_samples(&block(), &moment(5000));
}

#[test]
fn a_synced_clip_stops_and_starts_with_the_host() {
    let mut slot = playing_slot(synced());
    slot.process_transport_change(
        TransportChange::PlayState(RelevantPlayStateChange::StopAfterPlay),
        &moment(2000),
        None,
    )
    .unwrap();
    match slot.state {
        State::Filled(s) => assert!(s.was_caused_by_transport_change),
        State::Empty => panic!("slot is empty"),
    }
    finish_suspension(&mut slot);
    assert_eq!(slot.play_state(), ClipPlayState::Stopped);
    slot.process_transport_change(
        TransportChange::PlayState(RelevantPlayStateChange::PlayAfterStop),
        &moment(9000),
        None,
    )
    .unwrap();
    assert_eq!(slot.play_state(), ClipPlayState::ScheduledForPlay);
    match clip_state_of(&slot) {
        ClipState::ScheduledOrPlaying(s) => {
            assert_eq!(s.play_instruction.scheduled_play_pos, 10_000)
        }
        other => panic!("unexpected state {:?}", other),
    }
}

#[test]
fn a_clip_that_is_not_synced_is_stopped_and_forgotten() {
    let mut slot = playing_slot(immediately());
    slot.process_transport_change(
        TransportChange::PlayState(RelevantPlayStateChange::StopAfterPlay),
        &moment(2000),
        None,
    )
    .unwrap();
    match slot.state {
        State::Filled(s) => assert!(!s.was_caused_by_transport_change),
        State::Empty => panic!("slot is empty"),
    }
    finish_suspension(&mut slot);
    slot.process_transport_change(
        TransportChange::PlayState(RelevantPlayStateChange::PlayAfterStop),
        &moment(9000),
        None,
    )
    .unwrap();
    assert_eq!(slot.play_state(), ClipPlayState::Stopped);
}

#[test]
fn a_clip_that_plays_when_the_host_starts_is_stopped() {
    let mut slot = playing_slot(synced());
    slot.process_transport_change(
        TransportChange::PlayState(RelevantPlayStateChange::PlayAfterStop),
        &moment(2000),
        None,
    )
    .unwrap();
    assert_eq!(slot.play_state(), ClipPlayState::Stopped);
    let mut paused = playing_slot(synced());
    paused
        .process_transport_change(
            TransportChange::PlayState(RelevantPlayStateChange::StopAfterPause),
            &moment(2000),
            None,
        )
        .unwrap();
    assert_eq!(paused.play_state(), ClipPlayState::Stopped);
}

#[test]
fn a_cursor_jump_plays_a_synced_clip_anew() {
    let mut slot = playing_slot(synced());
    slot.process_transport_change(TransportChange::PlayCursorJump, &moment(2000), None).unwrap();
    assert_eq!(
        clip_state_of(&slot),
        ClipState::Suspending {
            reason: SuspensionReason::Retrigger,
            play_info: ResolvedPlayData { next_block_pos: 480 },
            transition_countdown: 480,
        }
    );
    let mut free = playing_slot(immediately());
    let before = free;
    free.process_transport_change(TransportChange::PlayCursorJump, &moment(2000), None).unwrap();
    assert_eq!(free, before);
    let mut never_played = filled_slot();
    let before = never_played;
    never_played
        .process_transport_change(
            TransportChange::PlayState(RelevantPlayStateChange::StopAfterPlay),
            &moment(0),
            None,
        )
        .unwrap();
    assert_eq!(never_played, before);
}

#[test]
fn transport_reactions() {
    let args = ClipPlayArgs { options: synced(), track: None, repeat: false };
    let state = |was_caused_by_transport_change| {
        State::Filled(FilledState {
            last_clip_play_state: ClipPlayState::Stopped,
            handle: Some(1),
            last_play_args: Some(args),
            was_caused_by_transport_change,
        })
    };
    let play = TransportChange::PlayState(RelevantPlayStateChange::PlayAfterStop);
    let stop = TransportChange::PlayState(RelevantPlayStateChange::StopAfterPlay);
    assert_eq!(state(true).transport_reaction(ClipPlayState::Paused, play), TransportReaction::Play(args));
    assert_eq!(
        state(false).transport_reaction(ClipPlayState::Paused, play),
        TransportReaction::Stop { memorize: false }
    );
    assert_eq!(
        state(true).transport_reaction(ClipPlayState::Recording, play),
        TransportReaction::Stop { memorize: false }
    );
    assert_eq!(
        state(false).transport_reaction(ClipPlayState::ScheduledForStop, stop),
        TransportReaction::Stop { memorize: true }
    );
    assert_eq!(
        state(false).transport_reaction(ClipPlayState::Paused, stop),
        TransportReaction::Stop { memorize: false }
    );
    assert_eq!(
        state(false).transport_reaction(ClipPlayState::Stopped, TransportChange::PlayCursorJump),
        TransportReaction::Nothing
    );
    assert_eq!(State::Empty.transport_reaction(ClipPlayState::Playing, stop), TransportReaction::Nothing);
}

#[test]
fn recording_settings_are_plain_values() {
    let timing = ClipRecordTiming::StartOnBarStopOnBar { start_bar: 3, bar_count: 4 };
    assert_ne!(timing, ClipRecordTiming::StartImmediatelyStopOnDemand);
    assert_ne!(ClipRecordTiming::StartOnBarStopOnDemand { start_bar: 3 }, timing);
    assert_ne!(ClipRecordSourceType::Midi, ClipRecordSourceType::Audio);
    assert!(LegacyClip::new_default().content.is_none());
    assert!(!LegacyClip::new_default().is_filled());
}
