use clip_engine::mode_model::ModeType;
use clip_engine::pot::collection::{PotStateChangedEvent, RuntimePotUnit};
use clip_engine::pot::constant_filters::{
    create_filter_items_is_available, create_filter_items_is_favorite,
    create_filter_items_is_supported, create_filter_items_is_user,
    create_filter_items_product_kind, fx_ensure_op, preset_file_format, preset_file_format_of,
    PresetFileFormat,
};
use clip_engine::pot::{
    DatabaseId, Fil, FilterItem, FilterItemId, FxEnsureOp, InnerPresetId,
    PersistentFilterSettings, PersistentNksFilterSettings, PersistentState, PresetId, ProductKind,
    RuntimeState,
};
use clip_engine::slot::{ClipChangedEvent, ClipPlayState, SlotPlayOptions, SlotStopBehavior};
use clip_engine::clip_source::state::Proportion;
use clip_engine::source_model::{
    format_osc_feedback_args, CompartmentKind, MidiSourceType, ReaperSourceType, SourceCategory,
};
use clip_engine::targets::{
    ClipTransportTarget, Fraction, NavigateWithinNksPresetsTarget, NavigationError, SlotCommand,
    TargetError, TransportAction, UnresolvededNavigateWithinNksPresetsTarget,
};

const MIDI_SOURCE_TYPES: [MidiSourceType; 14] = [
    MidiSourceType::ControlChangeValue,
    MidiSourceType::NoteVelocity,
    MidiSourceType::NoteKeyNumber,
    MidiSourceType::PitchBendChangeValue,
    MidiSourceType::ChannelPressureAmount,
    MidiSourceType::ProgramChangeNumber,
    MidiSourceType::ParameterNumberValue,
    MidiSourceType::PolyphonicKeyPressureAmount,
    MidiSourceType::ClockTempo,
    MidiSourceType::ClockTransport,
    MidiSourceType::Raw,
    MidiSourceType::Script,
    MidiSourceType::Display,
    MidiSourceType::SpecificProgramChange,
];

#[test]
fn source_categories() {
    assert_eq!(SourceCategory::default_for(CompartmentKind::Controller), SourceCategory::Midi);
    assert_eq!(SourceCategory::default_for(CompartmentKind::Main), SourceCategory::Midi);
    assert_eq!(SourceCategory::default(), SourceCategory::Midi);
    let all = [
        SourceCategory::Never,
        SourceCategory::Midi,
        SourceCategory::Osc,
        SourceCategory::Keyboard,
        SourceCategory::Reaper,
        SourceCategory::Virtual,
    ];
    for category in all {
        assert!(category.is_allowed_in(CompartmentKind::Main));
        assert_eq!(
            category.is_allowed_in(CompartmentKind::Controller),
            category != SourceCategory::Virtual
        );
    }
    let labels: Vec<&str> = all.iter().map(|c| c.label()).collect();
    assert_eq!(labels, vec!["None", "MIDI", "OSC", "Keyboard", "REAPER", "Virtual"]);
}

#[test]
fn midi_source_types_by_number() {
    for (i, source_type) in MIDI_SOURCE_TYPES.iter().enumerate() {
        assert_eq!(source_type.index(), i);
    }
    assert_eq!(MidiSourceType::default(), MidiSourceType::ControlChangeValue);
}

#[test]
fn what_midi_source_types_support() {
    let supporting = |f: fn(MidiSourceType) -> bool| -> Vec<usize> {
        MIDI_SOURCE_TYPES.iter().filter(|t| f(**t)).map(|t| t.index()).collect()
    };
    assert_eq!(supporting(MidiSourceType::supports_channel), vec![0, 1, 2, 3, 4, 5, 6, 7, 13]);
    assert_eq!(supporting(MidiSourceType::supports_midi_message_number), vec![0, 1, 7, 13]);
    assert_eq!(supporting(MidiSourceType::supports_parameter_number_message_number), vec![6]);
    assert_eq!(supporting(MidiSourceType::supports_14_bit), vec![0, 6]);
    assert_eq!(supporting(MidiSourceType::supports_is_registered), vec![6]);
    assert_eq!(supporting(MidiSourceType::supports_custom_character), vec![0, 6, 10]);
    assert_eq!(
        supporting(MidiSourceType::supports_control),
        vec![0, 1, 2, 3, 4, 5, 6, 7, 8, 9, 10, 13]
    );
    assert_eq!(
        supporting(MidiSourceType::supports_feedback),
        vec![0, 1, 2, 3, 4, 5, 6, 7, 10, 11, 12, 13]
    );
}

#[test]
fn number_labels_of_midi_source_types() {
    let labels: Vec<&str> = MIDI_SOURCE_TYPES.iter().map(|t| t.number_label()).collect();
    assert_eq!(
        labels,
        vec![
            "CC number",
            "Note number",
            "",
            "",
            "",
            "",
            "Number",
            "Note number",
            "",
            "",
            "",
            "",
            "",
            "Program"
        ]
    );
}

#[test]
fn what_host_source_types_support() {
    let all = [
        ReaperSourceType::MidiDeviceChanges,
        ReaperSourceType::RealearnUnitStart,
        ReaperSourceType::Timer,
        ReaperSourceType::RealearnParameter,
        ReaperSourceType::Speech,
    ];
    for source_type in all {
        let is_speech = source_type == ReaperSourceType::Speech;
        assert_eq!(source_type.supports_control(), !is_speech);
        assert_eq!(source_type.supports_feedback(), is_speech);
    }
    assert_eq!(ReaperSourceType::default(), ReaperSourceType::MidiDeviceChanges);
}

#[test]
fn osc_feedback_arguments_are_joined_by_blanks() {
    let args = |texts: &[&str]| -> Vec<String> { texts.iter().map(|t| t.to_string()).collect() };
    assert_eq!(format_osc_feedback_args(&args(&[])), "");
    assert_eq!(format_osc_feedback_args(&args(&["value.float"])), "value.float");
    assert_eq!(
        format_osc_feedback_args(&args(&["value.float", "style.color", "nil"])),
        "value.float style.color nil"
    );
}

#[test]
fn what_mode_types_support() {
    let all = [ModeType::Absolute, ModeType::Relative, ModeType::Toggle];
    let supporting = |f: fn(ModeType) -> bool| -> Vec<ModeType> {
        all.iter().copied().filter(|t| f(*t)).collect()
    };
    assert_eq!(supporting(ModeType::supports_reverse), vec![ModeType::Absolute, ModeType::Relative]);
    assert_eq!(supporting(ModeType::supports_ignore_out_of_range_source_values), vec![ModeType::Absolute]);
    assert_eq!(supporting(ModeType::supports_jump), vec![ModeType::Absolute]);
    assert_eq!(supporting(ModeType::supports_eel_control_transformation), vec![ModeType::Absolute]);
    assert_eq!(supporting(ModeType::supports_eel_feedback_transformation), vec![ModeType::Absolute]);
    assert_eq!(supporting(ModeType::supports_round_target_value), vec![ModeType::Absolute]);
    assert_eq!(supporting(ModeType::supports_approach_target_value), vec![ModeType::Absolute]);
    assert_eq!(supporting(ModeType::supports_step_size), vec![ModeType::Relative]);
    assert_eq!(supporting(ModeType::supports_rotate_is_enabled), vec![ModeType::Relative]);
}

fn target(action: TransportAction, next_bar: bool) -> ClipTransportTarget {
    ClipTransportTarget {
        track: Some(2),
        slot_index: 4,
        action,
        play_options: SlotPlayOptions { next_bar, buffered: false },
    }
}

#[test]
fn control_values_become_slot_commands() {
    let options = SlotPlayOptions { next_bar: false, buffered: false };
    let play = SlotCommand::Play { track: Some(2), options };
    let stop_now = SlotCommand::Stop { stop_behavior: SlotStopBehavior::Immediately };
    let stop_at_end = SlotCommand::Stop { stop_behavior: SlotStopBehavior::EndOfClip };
    assert_eq!(target(TransportAction::PlayStop, false).control(true), Ok(Some(play)));
    assert_eq!(target(TransportAction::PlayStop, false).control(false), Ok(Some(stop_now)));
    assert_eq!(target(TransportAction::PlayStop, true).control(false), Ok(Some(stop_at_end)));
    assert_eq!(target(TransportAction::PlayPause, false).control(true), Ok(Some(play)));
    assert_eq!(target(TransportAction::PlayPause, false).control(false), Ok(Some(SlotCommand::Pause)));
    assert_eq!(target(TransportAction::Stop, false).control(true), Ok(Some(stop_now)));
    assert_eq!(target(TransportAction::Stop, true).control(true), Ok(Some(stop_at_end)));
    assert_eq!(target(TransportAction::Stop, false).control(false), Ok(None));
    assert_eq!(target(TransportAction::Pause, false).control(true), Ok(Some(SlotCommand::Pause)));
    assert_eq!(target(TransportAction::Pause, false).control(false), Ok(None));
    assert_eq!(target(TransportAction::Repeat, false).control(true), Ok(Some(SlotCommand::ToggleRepeat)));
    assert_eq!(target(TransportAction::Repeat, false).control(false), Ok(Some(SlotCommand::ToggleRepeat)));
    assert_eq!(target(TransportAction::Record, false).control(true), Err(TargetError::NotSupported));
    assert_eq!(target(TransportAction::Record, false).control(false), Err(TargetError::NotSupported));
    assert_eq!(TargetError::NotSupported.message(), "not supported at the moment");
}

#[test]
fn events_that_change_what_a_target_shows() {
    let play_state = ClipChangedEvent::PlayState(ClipPlayState::Playing);
    let repeat = ClipChangedEvent::ClipRepeat(true);
    let volume = ClipChangedEvent::ClipVolume(5);
    let position = ClipChangedEvent::ClipPosition(Proportion { part: 1, whole: 2 });
    for action in [
        TransportAction::PlayStop,
        TransportAction::PlayPause,
        TransportAction::Stop,
        TransportAction::Pause,
    ] {
        assert!(target(action, false).is_affected_by(4, play_state));
        assert!(!target(action, false).is_affected_by(3, play_state));
        assert!(!target(action, false).is_affected_by(4, repeat));
        assert!(!target(action, false).is_affected_by(4, volume));
        assert!(!target(action, false).is_affected_by(4, position));
    }
    assert!(target(TransportAction::Repeat, false).is_affected_by(4, repeat));
    assert!(!target(TransportAction::Repeat, false).is_affected_by(5, repeat));
    assert!(!target(TransportAction::Repeat, false).is_affected_by(4, play_state));
    assert!(!target(TransportAction::Record, false).is_affected_by(4, play_state));
    assert!(!target(TransportAction::Record, false).is_affected_by(4, repeat));
}

fn unit_with_presets(count: u32) -> RuntimePotUnit {
    let persistent = PersistentState {
        filter_settings: PersistentFilterSettings {
            nks: PersistentNksFilterSettings {
                bank: None,
                sub_bank: None,
                category: None,
                sub_category: None,
                mode: None,
            },
        },
        preset_id: None,
    };
    let mut unit = RuntimePotUnit::new(RuntimeState::load(&persistent).unwrap());
    for i in 0..count {
        unit.preset_collection.insert(PresetId::new(DatabaseId(1), InnerPresetId(100 + i)));
    }
    unit
}

#[test]
fn preset_navigation_counts_from_one() {
    let index_to_value = NavigateWithinNksPresetsTarget::convert_preset_index_to_discrete_value;
    let value_to_index = NavigateWithinNksPresetsTarget::convert_discrete_value_to_preset_index;
    assert_eq!(index_to_value(None), 0);
    assert_eq!(index_to_value(Some(0)), 1);
    assert_eq!(index_to_value(Some(41)), 42);
    assert_eq!(index_to_value(Some(u32::MAX)), u32::MAX);
    assert_eq!(value_to_index(0), None);
    assert_eq!(value_to_index(1), Some(0));
    assert_eq!(value_to_index(u32::MAX), Some(u32::MAX - 1));
    for index in [None, Some(0), Some(7), Some(u32::MAX - 1)] {
        assert_eq!(value_to_index(index_to_value(index)), index);
    }
}

#[test]
fn preset_navigation_target() {
    let target = UnresolvededNavigateWithinNksPresetsTarget {}.resolve();
    let mut unit = unit_with_presets(3);
    let second = PresetId::new(DatabaseId(1), InnerPresetId(101));
    let unknown = PresetId::new(DatabaseId(2), InnerPresetId(101));
    assert_eq!(target.preset_count(&unit), 3);
    assert_eq!(target.current_preset_id(&unit), None);
    assert_eq!(target.numeric_value(&unit), None);
    assert_eq!(target.find_index_of_preset(&unit, second), Some(1));
    assert_eq!(
        target.convert_preset_id_to_absolute_value(&unit, None),
        Fraction { actual: 0, max: 3 }
    );
    assert_eq!(
        target.convert_preset_id_to_absolute_value(&unit, Some(second)),
        Fraction { actual: 2, max: 3 }
    );
    assert_eq!(
        target.convert_preset_id_to_absolute_value(&unit, Some(unknown)),
        Fraction { actual: 0, max: 3 }
    );
    assert_eq!(
        target.hit(&mut unit, Some(1)),
        Ok(PotStateChangedEvent::PresetChanged { id: Some(second) })
    );
    assert_eq!(target.current_preset_id(&unit), Some(second));
    assert_eq!(target.numeric_value(&unit), Some(2));
    assert_eq!(target.hit(&mut unit, Some(3)), Err(NavigationError::NoPresetAtIndex));
    assert_eq!(target.current_preset_id(&unit), Some(second));
    assert_eq!(NavigationError::NoPresetAtIndex.message(), "no preset found for that index");
    assert_eq!(target.hit(&mut unit, None), Ok(PotStateChangedEvent::PresetChanged { id: None }));
    assert_eq!(target.current_preset_id(&unit), None);
    unit.set_preset_id(Some(unknown));
    assert_eq!(target.numeric_value(&unit), None);
}

fn names(items: &[FilterItem]) -> Vec<String> {
    items.iter().map(|i| i.name.clone().unwrap()).collect()
}

fn ids(items: &[FilterItem]) -> Vec<FilterItemId> {
    items.iter().map(|i| i.id).collect()
}

#[test]
fn constant_filter_items() {
    let no = FilterItemId(Some(Fil::Boolean(false)));
    let yes = FilterItemId(Some(Fil::Boolean(true)));
    let available = create_filter_items_is_available();
    assert_eq!(names(&available), vec!["Not available", "Available"]);
    assert_eq!(ids(&available), vec![no, yes]);
    assert_eq!(available[0].more_info, None);
    assert_eq!(
        available[1].more_info.as_deref(),
        Some("Usually means that the corresponding plug-in has been scanned before by REAPER.\nFor Komplete, it means that the preset file itself is available.")
    );
    assert_eq!(available[0].icon, Some('❌'));
    let supported = create_filter_items_is_supported();
    assert_eq!(names(&supported), vec!["Not supported", "Supported"]);
    assert_eq!(ids(&supported), vec![no, yes]);
    assert_eq!(
        supported[1].more_info.as_deref(),
        Some("Means that Pot Browser can automatically load the preset into the corresponding plug-in.")
    );
    let favorite = create_filter_items_is_favorite();
    assert_eq!(names(&favorite), vec!["Not favorite", "Favorite"]);
    assert_eq!(ids(&favorite), vec![no, yes]);
    assert_eq!(favorite[1].icon, Some('★'));
    let user = create_filter_items_is_user();
    assert_eq!(names(&user), vec!["Factory preset", "User preset"]);
    assert_eq!(ids(&user), vec![no, yes]);
    let kinds = create_filter_items_product_kind();
    assert_eq!(names(&kinds), vec!["<None>", "Instrument", "Effect", "Loop", "One shot"]);
    assert_eq!(
        ids(&kinds),
        vec![
            FilterItemId(None),
            FilterItemId(Some(Fil::ProductKind(ProductKind::Instrument))),
            FilterItemId(Some(Fil::ProductKind(ProductKind::Effect))),
            FilterItemId(Some(Fil::ProductKind(ProductKind::Loop))),
            FilterItemId(Some(Fil::ProductKind(ProductKind::OneShot))),
        ]
    );
}

#[test]
fn preset_files_by_extension() {
    assert_eq!(preset_file_format("wav"), Some(PresetFileFormat::Audio));
    assert_eq!(preset_file_format("mp3"), Some(PresetFileFormat::Audio));
    // An audio file is known by its extension as it is written.
    assert_eq!(preset_file_format("WAV"), None);
    assert_eq!(preset_file_format("nksf"), Some(PresetFileFormat::Nks));
    assert_eq!(preset_file_format("NKSFX"), Some(PresetFileFormat::Nks));
    assert_eq!(preset_file_format("RfxChain"), Some(PresetFileFormat::RfxChain));
    assert_eq!(preset_file_format("RTrackTemplate"), Some(PresetFileFormat::TrackTemplate));
    assert_eq!(preset_file_format("ini"), None);
    assert_eq!(preset_file_format(""), None);
    assert_eq!(preset_file_format_of("X", "nksf"), Some(PresetFileFormat::Nks));
    assert_eq!(preset_file_format_of("nksf", "X"), None);
    assert_eq!(preset_file_format_of("wav", "nksf"), Some(PresetFileFormat::Audio));
}

#[test]
fn what_is_done_to_have_the_right_plugin() {
    assert_eq!(fx_ensure_op(None, "vst: Synth"), FxEnsureOp::Added);
    assert_eq!(fx_ensure_op(Some("vst: Synth"), "vst: Synth"), FxEnsureOp::Same);
    assert_eq!(fx_ensure_op(Some("vst: Other"), "vst: Synth"), FxEnsureOp::Replaced);
    assert_eq!(fx_ensure_op(Some(""), ""), FxEnsureOp::Same);
}
