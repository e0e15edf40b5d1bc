use clip_engine::data::{ensure_no_duplicate, ensure_no_duplicate_compartment_data};
use clip_engine::history::History;
use clip_engine::midi::{
    reset_midi, silence_midi, MidiResetMessageRange, MidiResetMessages, ShortMessageBytes,
    ALL_NOTES_OFF, ALL_SOUND_OFF, RESET_ALL_CONTROLLERS, SUSTAIN,
};
use clip_engine::persistence::preset::{
    ControllerPresetMetaData, MainPresetMetaData, VirtualControlSchemeId,
};
use clip_engine::persistence::source::{
    feedback_flags, FeedbackBehavior, FeedbackFlags, KeySource, Keystroke, MackieLcdSource,
    MackieSevenSegmentDisplayScope, MackieSevenSegmentDisplaySource, MidiChannelPressureAmountSource,
    MidiClockTransportMessage, MidiClockTransportSource, MidiControlChangeValueSource,
    MidiNoteKeyNumberSource, MidiNoteVelocitySource, MidiParameterNumberValueSource,
    MidiPitchBendChangeValueSource, MidiPolyphonicKeyPressureAmountSource,
    MidiProgramChangeNumberSource, MidiRawSource, MidiScriptKind, MidiScriptSource,
    MidiSpecificProgramChangeSource, OscArgKind, OscArgument, OscSource, RealearnParameterSource,
    SiniConE24DisplaySource, SlKeyboardDisplaySource, Source, SourceCharacter, TimerSource,
    VirtualControlElementCharacter, VirtualControlElementId, VirtualSource, XTouchMackieLcdSource,
};
use clip_engine::pot::collection::{PotStateChangedEvent, PresetCollection, RuntimePotUnit};
use clip_engine::pot::{
    find_next_preset_index, find_preview_file, is_audio_file_extension, DatabaseId, Debounce,
    DestinationDescriptor, DestinationTrackDescriptor, Fil, FiledBasedPresetKind, FilterInput,
    FilterItem, FilterItemId, Filters, FxEnsureOp, InnerPresetId, InternalPresetKind,
    LoadPresetError, LoadPresetOptions, LoadPresetWindowBehavior, PersistentFilterSettings,
    PersistentHash, PersistentNksFilterSettings, PersistentState, PluginId, PotFilterExcludes,
    PotFilterKind, Preset, PresetCommon, PresetId, PresetKind, PreviewFile, PreviewFiles,
    ProductId, ProductKind, RuntimeState, SearchEvaluator, Stats, WindowAction,
};
use clip_engine::proto::{
    create_initial_clip_updates, create_initial_slot_updates, ClipPositionUpdate, ClipUpdate,
    Column, GrpcClipPositionsUpdateEvent, Matrix, QualifiedOccasionalClipUpdate,
    QualifiedOccasionalSlotUpdate, SlotAddress, SlotUpdate, WithInstanceId,
};
use clip_engine::clip_source::source::{ClipPcmSource, InnerSourceKind};
use clip_engine::clip_source::state::{Proportion, TimelineMoment};
use clip_engine::slot::{ClipContent, ClipPlayState, ClipSlot, SlotPlayOptions};
use clip_engine::supplier::material::SourceMaterial;
use clip_engine::ui_util::{format_as_csv, format_tags_as_csv, OutputReason, Tag};

fn strings(texts: &[&str]) -> Vec<String> {
    texts.iter().map(|t| t.to_string()).collect()
}

#[test]
fn silence_reaches_every_channel() {
    let mut events = vec![ShortMessageBytes { status: 0x90, data_1: 60, data_2: 100 }];
    silence_midi(&mut events);
    assert_eq!(events.len(), 33);
    assert_eq!(events[0], ShortMessageBytes { status: 0x90, data_1: 60, data_2: 100 });
    assert_eq!(events[1], ShortMessageBytes { status: 0xB0, data_1: 123, data_2: 0 });
    assert_eq!(events[2], ShortMessageBytes { status: 0xB0, data_1: 120, data_2: 0 });
    assert_eq!(events[31], ShortMessageBytes { status: 0xBF, data_1: 123, data_2: 0 });
    assert_eq!(events[32], ShortMessageBytes { status: 0xBF, data_1: 120, data_2: 0 });
    for ch in 0..16u8 {
        let notes_off = events[1 + 2 * ch as usize];
        let sound_off = events[2 + 2 * ch as usize];
        assert_eq!(notes_off, ShortMessageBytes { status: 0xB0 + ch, data_1: ALL_NOTES_OFF, data_2: 0 });
        assert_eq!(sound_off, ShortMessageBytes { status: 0xB0 + ch, data_1: ALL_SOUND_OFF, data_2: 0 });
    }
}

#[test]
fn reset_messages_for_every_channel() {
    let mut events = Vec::new();
    reset_midi(&mut events, MidiResetMessages::none());
    assert!(events.is_empty());
    let chosen = MidiResetMessages {
        all_notes_off: false,
        all_sound_off: true,
        sustain_off: true,
        reset_all_controllers: true,
    };
    events.push(ShortMessageBytes { status: 0x80, data_1: 1, data_2: 2 });
    reset_midi(&mut events, chosen);
    assert_eq!(events.len(), 1 + 16 * 3);
    assert_eq!(events[0], ShortMessageBytes { status: 0x80, data_1: 1, data_2: 2 });
    for ch in 0..16u8 {
        let at = 1 + 3 * ch as usize;
        assert_eq!(events[at], ShortMessageBytes { status: 0xB0 + ch, data_1: ALL_SOUND_OFF, data_2: 0 });
        assert_eq!(events[at + 1], ShortMessageBytes { status: 0xB0 + ch, data_1: SUSTAIN, data_2: 0 });
        assert_eq!(
            events[at + 2],
            ShortMessageBytes { status: 0xB0 + ch, data_1: RESET_ALL_CONTROLLERS, data_2: 0 }
        );
    }
    let all = MidiResetMessages { all_notes_off: true, ..chosen };
    let mut every = Vec::new();
    reset_midi(&mut every, all);
    assert_eq!(every.len(), 64);
    assert_eq!(every[0], ShortMessageBytes { status: 0xB0, data_1: 123, data_2: 0 });
    assert_eq!(every[1], ShortMessageBytes { status: 0xB0, data_1: 120, data_2: 0 });
    assert_eq!(every[2], ShortMessageBytes { status: 0xB0, data_1: 64, data_2: 0 });
    assert_eq!(every[3], ShortMessageBytes { status: 0xB0, data_1: 121, data_2: 0 });
    assert_eq!(every[63], ShortMessageBytes { status: 0xBF, data_1: 121, data_2: 0 });
    assert_eq!(MidiResetMessageRange::none().left, MidiResetMessages::none());
}

#[test]
fn requires_playtime() {
    let mut meta = MainPresetMetaData::new();
    assert!(!meta.requires_playtime());
    meta.required_features = strings(&["play", "playtime2", "Playtime"]);
    assert!(!meta.requires_playtime());
    meta.required_features = strings(&["other", "playtime"]);
    assert!(meta.requires_playtime());
    meta.used_schemes.push(VirtualControlSchemeId::new("grid".to_string()));
    assert_eq!(meta.used_schemes[0].get(), "grid");
}

#[test]
fn controller_meta_data_starts_empty() {
    let meta = ControllerPresetMetaData::new();
    assert_eq!(meta.device_manufacturer, None);
    assert_eq!(meta.device_name, None);
    assert_eq!(meta.midi_identity_pattern, None);
    assert!(meta.midi_output_port_patterns.is_empty());
    assert!(meta.provided_schemes.is_empty());
}

#[test]
fn feedback_behavior_of_each_source() {
    let behavior = Some(FeedbackBehavior::PreventEchoFeedback);
    let with_behavior = vec![
        Source::MidiNoteVelocity(MidiNoteVelocitySource {
            feedback_behavior: behavior,
            channel: Some(1),
            key_number: None,
        }),
        Source::MidiNoteKeyNumber(MidiNoteKeyNumberSource { feedback_behavior: behavior, channel: None }),
        Source::MidiPolyphonicKeyPressureAmount(MidiPolyphonicKeyPressureAmountSource {
            feedback_behavior: behavior,
            channel: None,
            key_number: None,
        }),
        Source::MidiControlChangeValue(MidiControlChangeValueSource {
            feedback_behavior: behavior,
            channel: None,
            controller_number: Some(7),
            character: Some(SourceCharacter::Relative1),
            fourteen_bit: None,
        }),
        Source::MidiProgramChangeNumber(MidiProgramChangeNumberSource {
            feedback_behavior: behavior,
            channel: None,
        }),
        Source::MidiChannelPressureAmount(MidiChannelPressureAmountSource {
            feedback_behavior: behavior,
            channel: None,
        }),
        Source::MidiPitchBendChangeValue(MidiPitchBendChangeValueSource {
            feedback_behavior: behavior,
            channel: None,
        }),
        Source::MidiParameterNumberValue(MidiParameterNumberValueSource {
            feedback_behavior: behavior,
            channel: None,
            number: Some(300),
            fourteen_bit: None,
            registered: None,
            character: None,
        }),
        Source::MidiRaw(MidiRawSource {
            feedback_behavior: behavior,
            pattern: Some("B0 00 [0nml kjih]".to_string()),
            character: None,
        }),
        Source::Osc(OscSource {
            feedback_behavior: behavior,
            address: Some("/fader/1".to_string()),
            argument: Some(OscArgument { index: Some(0), kind: Some(OscArgKind::Float) }),
            relative: None,
            feedback_arguments: None,
        }),
    ];
    for source in with_behavior {
        assert_eq!(source.feedback_behavior(), behavior);
        assert_eq!(
            feedback_flags(Some(&source)),
            FeedbackFlags { prevent_echo_feedback: true, send_feedback_after_control: false }
        );
    }
    let without = vec![
        Source::NoSource,
        Source::MidiDeviceChanges,
        Source::RealearnInstanceStart,
        Source::Timer(TimerSource { duration: 5 }),
        Source::RealearnParameter(RealearnParameterSource { parameter_index: 2 }),
        Source::Speech,
        // A source of this kind names a behavior, which does not count.
        Source::MidiSpecificProgramChange(MidiSpecificProgramChangeSource {
            feedback_behavior: behavior,
            channel: None,
            program_number: None,
        }),
        Source::MidiClockTempo,
        Source::MidiClockTransport(MidiClockTransportSource {
            message: Some(MidiClockTransportMessage::Continue),
        }),
        Source::MidiScript(MidiScriptSource { script_kind: Some(MidiScriptKind::Lua), script: None }),
        Source::MackieLcd(MackieLcdSource { extender_index: None, channel: None, line: None }),
        Source::XTouchMackieLcd(XTouchMackieLcdSource { extender_index: None, channel: None, line: None }),
        Source::MackieSevenSegmentDisplay(MackieSevenSegmentDisplaySource {
            scope: Some(MackieSevenSegmentDisplayScope::Tc),
        }),
        Source::SlKeyboardDisplay(SlKeyboardDisplaySource { section: None, line: None }),
        Source::SiniConE24Display(SiniConE24DisplaySource { cell_index: None, item_index: None }),
        Source::LaunchpadProScrollingTextDisplay,
        Source::Key(KeySource { keystroke: Some(Keystroke { modifiers: 1, key: 65 }) }),
        Source::Virtual(VirtualSource {
            id: VirtualControlElementId::Named("play".to_string()),
            character: Some(VirtualControlElementCharacter::Button),
        }),
    ];
    for source in without {
        assert_eq!(source.feedback_behavior(), None);
        assert_eq!(
            feedback_flags(Some(&source)),
            FeedbackFlags { prevent_echo_feedback: false, send_feedback_after_control: false }
        );
    }
}

#[test]
fn feedback_flags_of_each_behavior() {
    let source = |feedback_behavior| {
        Source::MidiNoteKeyNumber(MidiNoteKeyNumberSource { feedback_behavior, channel: None })
    };
    assert_eq!(
        feedback_flags(None),
        FeedbackFlags { prevent_echo_feedback: false, send_feedback_after_control: false }
    );
    assert_eq!(
        feedback_flags(Some(&source(None))),
        FeedbackFlags { prevent_echo_feedback: false, send_feedback_after_control: false }
    );
    assert_eq!(
        feedback_flags(Some(&source(Some(FeedbackBehavior::Normal)))),
        FeedbackFlags { prevent_echo_feedback: false, send_feedback_after_control: false }
    );
    assert_eq!(
        feedback_flags(Some(&source(Some(FeedbackBehavior::SendFeedbackAfterControl)))),
        FeedbackFlags { prevent_echo_feedback: false, send_feedback_after_control: true }
    );
    assert_eq!(
        feedback_flags(Some(&source(Some(FeedbackBehavior::PreventEchoFeedback)))),
        FeedbackFlags { prevent_echo_feedback: true, send_feedback_after_control: false }
    );
}

#[test]
fn defaults_of_source_settings() {
    assert_eq!(FeedbackBehavior::default(), FeedbackBehavior::Normal);
    assert_eq!(MidiScriptKind::default(), MidiScriptKind::Eel);
    assert_eq!(SourceCharacter::default(), SourceCharacter::Range);
    assert_eq!(MidiClockTransportMessage::default(), MidiClockTransportMessage::Start);
    assert_eq!(MackieSevenSegmentDisplayScope::default(), MackieSevenSegmentDisplayScope::Assignment);
}

#[test]
fn midi_script_kinds_by_number_and_name() {
    assert_eq!(MidiScriptKind::Eel.index(), 0);
    assert_eq!(MidiScriptKind::Lua.index(), 1);
    assert_eq!(MidiScriptKind::try_from_index(0), Some(MidiScriptKind::Eel));
    assert_eq!(MidiScriptKind::try_from_index(1), Some(MidiScriptKind::Lua));
    assert_eq!(MidiScriptKind::try_from_index(2), None);
    assert_eq!(MidiScriptKind::try_from_index(usize::MAX), None);
    assert_eq!(MidiScriptKind::Eel.label(), "EEL");
    assert_eq!(MidiScriptKind::Lua.label(), "Lua");
}

#[test]
fn filters_by_kind() {
    let mut filters = Filters::empty();
    assert_eq!(filters.get(PotFilterKind::Bank), None);
    assert!(filters.matches(PotFilterKind::Bank, Fil::Product(ProductId(3))));
    filters.set(PotFilterKind::Bank, Some(FilterItemId(Some(Fil::Product(ProductId(3))))));
    assert!(filters.matches(PotFilterKind::Bank, Fil::Product(ProductId(3))));
    assert!(!filters.matches(PotFilterKind::Bank, Fil::Product(ProductId(4))));
    assert!(filters.matches(PotFilterKind::Category, Fil::Normal(4)));
    filters.set(PotFilterKind::Database, Some(FilterItemId(Some(Fil::Database(DatabaseId(1))))));
    assert!(filters.database_matches(DatabaseId(1)));
    assert!(!filters.database_matches(DatabaseId(2)));
    filters.set(PotFilterKind::Database, Some(FilterItemId(None)));
    assert!(!filters.database_matches(DatabaseId(1)));
    let kinds = [
        PotFilterKind::Database,
        PotFilterKind::IsAvailable,
        PotFilterKind::IsSupported,
        PotFilterKind::IsUser,
        PotFilterKind::IsFavorite,
        PotFilterKind::ProductKind,
        PotFilterKind::Bank,
        PotFilterKind::SubBank,
        PotFilterKind::Category,
        PotFilterKind::SubCategory,
        PotFilterKind::Mode,
    ];
    for (i, kind) in kinds.iter().enumerate() {
        let mut filters = Filters::empty();
        let id = Some(FilterItemId(Some(Fil::Normal(i as u32))));
        filters.set(*kind, id);
        for other in kinds.iter() {
            assert_eq!(filters.get(*other), if other == kind { id } else { None });
        }
    }
}

#[test]
fn filter_input_with_other_filters() {
    let filters = Filters::empty();
    let mut others = Filters::empty();
    others.set(PotFilterKind::IsUser, Some(FilterItemId(Some(Fil::Boolean(true)))));
    let excludes = PotFilterExcludes { excluded: vec![(PotFilterKind::Bank, FilterItemId(None))] };
    let favorites = vec![InnerPresetId(4)];
    let input = FilterInput { filters: &filters, excludes: &excludes, db_favorites: &favorites };
    let changed = input.with_filters(&others);
    assert_eq!(*changed.filters, others);
    assert_eq!(changed.excludes.excluded, excludes.excluded);
    assert_eq!(*changed.db_favorites, favorites);
}

#[test]
fn destination_track_is_dynamic_only_when_selected() {
    assert!(DestinationTrackDescriptor::SelectedTrack.is_dynamic());
    assert!(!DestinationTrackDescriptor::MasterTrack.is_dynamic());
    assert!(!DestinationTrackDescriptor::Track(0).is_dynamic());
    assert_eq!(DestinationTrackDescriptor::default(), DestinationTrackDescriptor::SelectedTrack);
    let descriptor = DestinationDescriptor { track: DestinationTrackDescriptor::Track(2), fx_index: 1 };
    assert_eq!(descriptor.fx_index, 1);
}

#[test]
fn total_query_duration() {
    let stats = Stats {
        filter_query_duration: 1,
        preset_query_duration: 20,
        sort_duration: 300,
        index_duration: 4000,
    };
    assert_eq!(stats.total_query_duration(), 4321);
    let long = Stats {
        filter_query_duration: u64::MAX,
        preset_query_duration: u64::MAX,
        sort_duration: u64::MAX,
        index_duration: u64::MAX,
    };
    assert_eq!(long.total_query_duration(), 4 * (u64::MAX as u128));
}

#[test]
fn runtime_state_starts_blank() {
    let persistent = PersistentState {
        filter_settings: PersistentFilterSettings {
            nks: PersistentNksFilterSettings {
                bank: Some("b".to_string()),
                sub_bank: None,
                category: None,
                sub_category: None,
                mode: None,
            },
        },
        preset_id: Some("p".to_string()),
    };
    let state = RuntimeState::load(&persistent).unwrap();
    assert_eq!(state.filters, Filters::empty());
    assert_eq!(state.search_expression, "");
    assert!(!state.use_wildcard_search);
    assert_eq!(state.preset_id, None);
}

#[test]
fn filter_items() {
    let none = FilterItem::none();
    assert_eq!(none.persistent_id, "");
    assert_eq!(none.id, FilterItemId(None));
    assert_eq!(none.parent_name, None);
    assert_eq!(none.name, Some("<None>".to_string()));
    assert_eq!(none.icon, None);
    assert_eq!(none.more_info, None);
    let simple = FilterItem::simple(Fil::Boolean(true), "Favorite", '*', "");
    assert_eq!(simple.id, FilterItemId(Some(Fil::Boolean(true))));
    assert_eq!(simple.name, Some("Favorite".to_string()));
    assert_eq!(simple.icon, Some('*'));
    assert_eq!(simple.more_info, None);
    assert_eq!(simple.parent_name, None);
    let more = FilterItem::simple(Fil::ProductKind(ProductKind::Loop), "Loop", 'o', "Loops only");
    assert_eq!(more.more_info, Some("Loops only".to_string()));
}

#[test]
fn names_of_a_filter_item() {
    let item = |name: Option<&str>, parent_name: Option<&str>| FilterItem {
        persistent_id: String::new(),
        id: FilterItemId(None),
        parent_name: parent_name.map(|s| s.to_string()),
        name: name.map(|s| s.to_string()),
        icon: None,
        more_info: None,
    };
    assert_eq!(item(Some("Bass"), Some("Synth")).effective_leaf_name(), "Bass");
    assert_eq!(item(Some("Bass"), Some("Synth")).sort_name(), "Bass");
    assert_eq!(item(None, Some("Synth")).effective_leaf_name(), "Synth*");
    assert_eq!(item(None, Some("Synth")).sort_name(), "Synth");
    assert_eq!(item(None, None).effective_leaf_name(), "");
    assert_eq!(item(None, None).sort_name(), "");
    assert_eq!(item(Some(""), Some("Synth")).effective_leaf_name(), "");
}

fn preset(kind: PresetKind, db_specific_preview_file: Option<&str>) -> Preset {
    Preset::new(
        PresetCommon {
            persistent_id: "id".to_string(),
            name: "Warm pad".to_string(),
            product_ids: vec![ProductId(1)],
            product_name: None,
            content_hash: Some(PersistentHash(5)),
            db_specific_preview_file: db_specific_preview_file.map(|s| s.to_string()),
        },
        kind,
    )
}

fn file_based(ext: &str) -> PresetKind {
    PresetKind::FileBased(FiledBasedPresetKind {
        path: format!("/presets/pad.{}", ext),
        file_ext: ext.to_string(),
    })
}

#[test]
fn preset_has_a_name() {
    let p = preset(PresetKind::DefaultFactory(PluginId::Vst2 { vst_magic_number: 7 }), None);
    assert_eq!(p.name(), "Warm pad");
    assert_eq!(p.common.product_ids, vec![ProductId(1)]);
    let internal = preset(PresetKind::Internal(InternalPresetKind { plugin_id: None }), None);
    assert_eq!(internal.name(), "Warm pad");
    assert_eq!(PresetId::new(DatabaseId(1), InnerPresetId(2)).preset_id, InnerPresetId(2));
}

#[test]
fn audio_file_extensions() {
    assert!(is_audio_file_extension("wav"));
    assert!(is_audio_file_extension("aif"));
    assert!(is_audio_file_extension("ogg"));
    assert!(is_audio_file_extension("mp3"));
    assert!(!is_audio_file_extension("WAV"));
    assert!(!is_audio_file_extension("flac"));
    assert!(!is_audio_file_extension(""));
    assert!(!is_audio_file_extension("wav "));
}

#[test]
fn preview_of_a_preset() {
    let files = |preset_file_exists, custom_preview_exists, db_specific_preview_exists| PreviewFiles {
        preset_file_exists,
        custom_preview_exists,
        db_specific_preview_exists,
    };
    // An audio file is its own preview, and has no other.
    let audio = preset(file_based("wav"), Some("/db/preview.ogg"));
    assert_eq!(find_preview_file(&audio, &files(true, true, true)), Some(PreviewFile::PresetFile));
    assert_eq!(find_preview_file(&audio, &files(false, true, true)), None);
    // Any other preset prefers the custom preview.
    let nks = preset(file_based("nksf"), Some("/db/preview.ogg"));
    assert_eq!(find_preview_file(&nks, &files(true, true, true)), Some(PreviewFile::CustomPreview));
    assert_eq!(find_preview_file(&nks, &files(true, false, true)), Some(PreviewFile::DbSpecificPreview));
    assert_eq!(find_preview_file(&nks, &files(true, false, false)), None);
    // A database that names no preview has none.
    let unnamed = preset(file_based("nksf"), None);
    assert_eq!(find_preview_file(&unnamed, &files(true, false, true)), None);
    let internal = preset(PresetKind::Internal(InternalPresetKind { plugin_id: None }), None);
    assert_eq!(find_preview_file(&internal, &files(true, true, false)), Some(PreviewFile::CustomPreview));
}

#[test]
fn window_after_loading_a_preset() {
    let (added, replaced, same) = (FxEnsureOp::Added, FxEnsureOp::Replaced, FxEnsureOp::Same);
    let never = LoadPresetWindowBehavior::NeverShow;
    let always = LoadPresetWindowBehavior::AlwaysShow;
    let if_shown = LoadPresetWindowBehavior::ShowOnlyIfPreviouslyShown;
    let if_shown_or_added = LoadPresetWindowBehavior::ShowOnlyIfPreviouslyShownOrNewlyAdded;
    let (hide, leave, show) = (WindowAction::Hide, WindowAction::Leave, WindowAction::Show);
    // (behavior, now_is_open, was_open_before, op) -> action
    assert_eq!(never.open_or_close(true, true, same), hide);
    assert_eq!(never.open_or_close(false, true, same), leave);
    assert_eq!(always.open_or_close(false, false, same), show);
    assert_eq!(always.open_or_close(true, false, same), leave);
    assert_eq!(if_shown.open_or_close(true, false, added), hide);
    assert_eq!(if_shown.open_or_close(false, true, added), show);
    assert_eq!(if_shown.open_or_close(true, true, added), leave);
    assert_eq!(if_shown.open_or_close(false, false, added), leave);
    assert_eq!(if_shown_or_added.open_or_close(false, false, added), show);
    assert_eq!(if_shown_or_added.open_or_close(true, false, added), leave);
    assert_eq!(if_shown_or_added.open_or_close(true, false, replaced), hide);
    assert_eq!(if_shown_or_added.open_or_close(false, true, same), show);
    assert_eq!(if_shown_or_added.open_or_close(false, false, same), leave);
    assert_eq!(LoadPresetWindowBehavior::default(), if_shown);
    assert_eq!(LoadPresetOptions { window_behavior: never }.window_behavior, never);
    assert_ne!(Debounce::No, Debounce::Yes);
}

#[test]
fn load_preset_errors_in_words() {
    let unsupported = LoadPresetError::UnsupportedPresetFormat {
        file_extension: "xyz".to_string(),
        is_shim_preset: false,
    };
    assert_eq!(unsupported.message(), "Unsupported preset format");
    assert_eq!(LoadPresetError::from_text("No track selected").message(), "No track selected");
    assert_eq!(LoadPresetError::Other("x".to_string()).message(), "x");
}

#[test]
fn next_preset_wraps_around() {
    assert_eq!(find_next_preset_index(0, None, 1), None);
    assert_eq!(find_next_preset_index(0, Some(3), -1), None);
    assert_eq!(find_next_preset_index(5, None, 1), Some(0));
    assert_eq!(find_next_preset_index(5, None, 0), Some(0));
    assert_eq!(find_next_preset_index(5, None, -1), Some(4));
    assert_eq!(find_next_preset_index(5, Some(2), 1), Some(3));
    assert_eq!(find_next_preset_index(5, Some(2), -2), Some(0));
    assert_eq!(find_next_preset_index(5, Some(2), -3), Some(4));
    assert_eq!(find_next_preset_index(5, Some(4), 1), Some(0));
    assert_eq!(find_next_preset_index(5, Some(2), 100), Some(0));
    assert_eq!(find_next_preset_index(5, Some(9), -1), Some(0));
    assert_eq!(find_next_preset_index(u32::MAX, Some(u32::MAX - 1), i32::MAX), Some(0));
    assert_eq!(find_next_preset_index(u32::MAX, Some(0), i32::MIN), Some(u32::MAX - 1));
}

#[test]
fn texts_for_the_user() {
    assert_eq!(OutputReason::RealFeedback.label(), "Real feedback");
    assert_eq!(OutputReason::VirtualFeedback.label(), "Virtual feedback");
    assert_eq!(OutputReason::Lifecycle.label(), "Lifecycle output");
    assert_eq!(OutputReason::TargetOutput.label(), "Target output");
    assert_eq!(format_as_csv(&strings(&[])), "");
    assert_eq!(format_as_csv(&strings(&["a"])), "a");
    assert_eq!(format_as_csv(&strings(&["a", "", "c"])), "a, , c");
    let tags: Vec<Tag> =
        ["drums", "live"].iter().map(|t| Tag { text: t.to_string() }).collect();
    assert_eq!(format_tags_as_csv(&tags), "drums, live");
    assert_eq!(format_tags_as_csv(&vec![]), "");
}

#[test]
fn lists_without_duplicates_pass() {
    assert_eq!(ensure_no_duplicate("mapping IDs", &strings(&[])), Ok(()));
    assert_eq!(ensure_no_duplicate("mapping IDs", &strings(&["a", "b", "A"])), Ok(()));
}

#[test]
fn duplicates_are_named_once_each() {
    assert_eq!(
        ensure_no_duplicate("mapping IDs", &strings(&["a", "b", "a"])),
        Err("Found the following duplicate mapping IDs: a".to_string())
    );
    assert_eq!(
        ensure_no_duplicate("group IDs", &strings(&["x", "b", "a", "b", "a", "b", "c", "a"])),
        Err("Found the following duplicate group IDs: b, a".to_string())
    );
    assert_eq!(
        ensure_no_duplicate("", &strings(&["", ""])),
        Err("Found the following duplicate : ".to_string())
    );
}

#[test]
fn compartment_data_is_checked_list_by_list() {
    let some = |texts: &[&str]| -> Vec<Option<String>> {
        texts.iter().map(|t| if t.is_empty() { None } else { Some(t.to_string()) }).collect()
    };
    assert_eq!(
        ensure_no_duplicate_compartment_data(&some(&["m1", "", "", "m2"]), &strings(&["", "", "g"]), &some(&["p"])),
        Ok(())
    );
    assert_eq!(
        ensure_no_duplicate_compartment_data(&some(&["m1", "m1"]), &strings(&["g", "g"]), &some(&["p", "p"])),
        Err("Found the following duplicate mapping IDs: m1".to_string())
    );
    assert_eq!(
        ensure_no_duplicate_compartment_data(&some(&["m1"]), &strings(&["g", "g"]), &some(&["p", "p"])),
        Err("Found the following duplicate group IDs: g".to_string())
    );
    assert_eq!(
        ensure_no_duplicate_compartment_data(&some(&["m1"]), &strings(&["g"]), &some(&["p", "q", "p"])),
        Err("Found the following duplicate parameter IDs: p".to_string())
    );
}

#[test]
fn history_undoes_and_redoes() {
    let mut history = History::new(vec![0]);
    assert!(!history.can_undo());
    assert!(!history.can_redo());
    assert_eq!(history.next_undo_label(), None);
    assert_eq!(history.next_redo_label(), None);
    assert_eq!(history.undo(), Err("nothing to undo"));
    assert_eq!(history.redo(), Err("nothing to redo"));
    history.add("Fill slot".to_string(), vec![1]);
    history.add("Set volume".to_string(), vec![1, 2]);
    assert!(history.can_undo());
    assert_eq!(history.next_undo_label(), Some("Set volume"));
    assert_eq!(history.undo(), Ok(&vec![1]));
    assert_eq!(history.next_undo_label(), Some("Fill slot"));
    assert_eq!(history.next_redo_label(), Some("Set volume"));
    assert!(history.can_redo());
    assert_eq!(history.undo(), Ok(&vec![0]));
    assert_eq!(history.undo(), Err("nothing to undo"));
    assert_eq!(history.redo(), Ok(&vec![1]));
    assert_eq!(history.redo(), Ok(&vec![1, 2]));
    assert_eq!(history.redo(), Err("nothing to redo"));
    assert_eq!(history.undo_stack.len(), 3);
    assert_eq!(history.undo_stack[0].label, "Initial");
}

#[test]
fn history_skips_what_did_not_change_and_forgets_what_was_undone() {
    let mut history = History::new(vec![0]);
    history.add("Nothing".to_string(), vec![0]);
    assert!(!history.can_undo());
    history.add("One".to_string(), vec![1]);
    history.add("Two".to_string(), vec![2]);
    history.undo().unwrap();
    // The same matrix as now: the redo stack stays.
    history.add("Same".to_string(), vec![1]);
    assert!(history.can_redo());
    // Another matrix: what was undone is forgotten.
    history.add("Other".to_string(), vec![3]);
    assert!(!history.can_redo());
    assert_eq!(history.next_undo_label(), Some("Other"));
    assert_eq!(history.undo(), Ok(&vec![1]));
}

fn slot(index: u32, content: Option<ClipContent>, playing: bool) -> ClipSlot {
    let mut slot = ClipSlot::new(index);
    if let Some(c) = content {
        let source = ClipPcmSource::new(InnerSourceKind::Audio, SourceMaterial::new(48000, 96000));
        slot.fill_by_user(c, source).unwrap();
    }
    if playing {
        let moment = TimelineMoment { cursor_pos: 0, tempo: 120_000, next_bar_pos: 0, is_running: true };
        slot.play(None, SlotPlayOptions { next_bar: false, buffered: false }, &moment, Some(1)).unwrap();
    }
    slot
}

#[test]
fn initial_updates_of_a_matrix() {
    assert_eq!(create_initial_slot_updates(None), vec![]);
    assert_eq!(create_initial_clip_updates(None), vec![]);
    let matrix = Matrix {
        columns: vec![
            Column { slots: vec![slot(0, Some(ClipContent::File), true), slot(1, None, false)] },
            Column { slots: vec![] },
            Column { slots: vec![slot(5, Some(ClipContent::MidiChunk), false)] },
        ],
    };
    let slot_update = |column_index, row_index, play_state| QualifiedOccasionalSlotUpdate {
        slot_address: Some(SlotAddress { column_index, row_index }),
        update: Some(SlotUpdate::PlayState(play_state)),
    };
    assert_eq!(
        create_initial_slot_updates(Some(&matrix)),
        vec![
            slot_update(0, 0, ClipPlayState::ScheduledForPlay),
            slot_update(0, 1, ClipPlayState::Stopped),
            slot_update(2, 5, ClipPlayState::Stopped),
        ]
    );
    let clip_update = |column_index, row_index, content| QualifiedOccasionalClipUpdate {
        clip_address: Some(SlotAddress { column_index, row_index }),
        update: Some(ClipUpdate::ContentInfo(content)),
    };
    assert_eq!(
        create_initial_clip_updates(Some(&matrix)),
        vec![clip_update(0, 0, ClipContent::File), clip_update(2, 5, ClipContent::MidiChunk)]
    );
    let empty = Matrix { columns: vec![] };
    assert_eq!(create_initial_slot_updates(Some(&empty)), vec![]);
}

#[test]
fn updates_carry_their_instance() {
    let batch = WithInstanceId { instance_id: 9, value: vec![1, 2] };
    assert_eq!(batch.clone().value, vec![1, 2]);
    let event = GrpcClipPositionsUpdateEvent {
        session_id: "s".to_string(),
        updates: vec![ClipPositionUpdate { slot_index: 1, position: Proportion { part: 1, whole: 2 } }],
    };
    assert_eq!(event.clone().updates.len(), 1);
}

#[test]
fn search_expression_is_trimmed_and_lowered() {
    let evaluator = SearchEvaluator::new("  Warm PAD*\t", true);
    assert_eq!(evaluator.processed_search_expression(), "warm pad*");
    assert!(evaluator.use_wildcards());
    let plain = SearchEvaluator::new("ÄB c", false);
    assert_eq!(plain.processed_search_expression(), "äb c");
    assert!(!plain.use_wildcards());
    let given = SearchEvaluator::from_processed(" Kept ".to_string(), false);
    assert_eq!(given.processed_search_expression(), " Kept ");
}

#[test]
fn search_without_wildcards_looks_for_a_part() {
    let evaluator = SearchEvaluator::new("Pad", false);
    assert!(evaluator.matches("Warm PAD 1"));
    assert!(evaluator.matches("pad"));
    assert!(!evaluator.matches("pd"));
    assert!(!evaluator.matches(""));
    // A wildcard is a character like any other.
    let star = SearchEvaluator::new("a*", false);
    assert!(star.matches("xa*y"));
    assert!(!star.matches("xay"));
    // The text is taken as it is where it is said to be in lower case.
    assert!(!evaluator.matches_lowercase("Warm PAD 1"));
    assert!(evaluator.matches_lowercase("warm pad 1"));
}

#[test]
fn search_with_wildcards_matches_the_whole_text() {
    let evaluator = SearchEvaluator::new("bass*", true);
    assert!(evaluator.matches("BASS guitar"));
    assert!(evaluator.matches("bass"));
    assert!(!evaluator.matches("my bass"));
    let single = SearchEvaluator::new("b?ss", true);
    assert!(single.matches("Bass"));
    assert!(single.matches("boss"));
    assert!(!single.matches("bss"));
    assert!(!single.matches("baass"));
    let any = SearchEvaluator::new("*", true);
    assert!(any.matches(""));
    assert!(any.matches("anything"));
    let several = SearchEvaluator::new("a*b**c?", true);
    assert!(several.matches("aXXbYYcZ"));
    assert!(several.matches("abcz"));
    assert!(!several.matches("abc"));
    assert!(!several.matches("aXbYc"));
    let exact = SearchEvaluator::new("pad", true);
    assert!(exact.matches("PAD"));
    assert!(!exact.matches("pads"));
}

#[test]
fn an_empty_search_expression_matches_everything() {
    for use_wildcards in [false, true] {
        let evaluator = SearchEvaluator::new("   ", use_wildcards);
        assert_eq!(evaluator.processed_search_expression(), "");
        assert!(evaluator.matches(""));
        assert!(evaluator.matches("Anything"));
        assert!(evaluator.matches_lowercase("Anything"));
    }
}

fn preset_id(database: u32, preset: u32) -> PresetId {
    PresetId::new(DatabaseId(database), InnerPresetId(preset))
}

#[test]
fn preset_collection_keeps_the_order_and_each_preset_once() {
    let mut collection = PresetCollection::new();
    assert_eq!(collection.preset_count(), 0);
    assert_eq!(collection.find_preset_id_at_index(0), None);
    assert_eq!(collection.find_index_of_preset(preset_id(1, 1)), None);
    assert!(collection.insert(preset_id(1, 7)));
    assert!(collection.insert(preset_id(0, 7)));
    assert!(collection.insert(preset_id(1, 3)));
    assert!(!collection.insert(preset_id(0, 7)));
    assert_eq!(collection.preset_count(), 3);
    assert_eq!(collection.find_preset_id_at_index(0), Some(preset_id(1, 7)));
    assert_eq!(collection.find_preset_id_at_index(1), Some(preset_id(0, 7)));
    assert_eq!(collection.find_preset_id_at_index(2), Some(preset_id(1, 3)));
    assert_eq!(collection.find_preset_id_at_index(3), None);
    assert_eq!(collection.find_index_of_preset(preset_id(1, 3)), Some(2));
    assert_eq!(collection.find_index_of_preset(preset_id(1, 7)), Some(0));
    assert_eq!(collection.find_index_of_preset(preset_id(7, 1)), None);
    let from_ids = PresetCollection::from_ids(&vec![
        preset_id(2, 2),
        preset_id(1, 1),
        preset_id(2, 2),
        preset_id(3, 3),
    ]);
    assert_eq!(from_ids.preset_count(), 3);
    assert_eq!(from_ids.find_index_of_preset(preset_id(3, 3)), Some(2));
    assert_eq!(from_ids.find_preset_id_at_index(1), Some(preset_id(1, 1)));
}

#[test]
fn pot_unit_moves_through_its_presets() {
    let persistent = PersistentState {
        filter_settings: PersistentFilterSettings {
            nks: PersistentNksFilterSettings {
                bank: None,
                sub_bank: None,
                category: None,
                sub_category: None,
                mode: None,
            },
        },
        preset_id: None,
    };
    let mut unit = RuntimePotUnit::new(RuntimeState::load(&persistent).unwrap());
    assert_eq!(unit.preset_count(), 0);
    assert_eq!(unit.find_next_preset_index(1), None);
    assert_eq!(unit.preset_id(), None);
    assert!(unit.name_track_after_preset);
    assert!(!unit.show_excluded_filter_items());
    assert_eq!(unit.destination_descriptor.track, DestinationTrackDescriptor::SelectedTrack);
    assert_eq!(unit.get_filter(PotFilterKind::Bank), None);
    assert_eq!(*unit.filters(), Filters::empty());
    assert_eq!(unit.state().preset_id, None);
    for i in 0..4 {
        unit.preset_collection.insert(preset_id(0, 10 + i));
    }
    assert_eq!(unit.preset_count(), 4);
    // Nothing is picked: forwards goes to the first, backwards to the last.
    assert_eq!(unit.find_next_preset_index(1), Some(0));
    assert_eq!(unit.find_next_preset_index(-1), Some(3));
    assert_eq!(
        unit.set_preset_id(Some(preset_id(0, 12))),
        PotStateChangedEvent::PresetChanged { id: Some(preset_id(0, 12)) }
    );
    assert_eq!(unit.preset_id(), Some(preset_id(0, 12)));
    assert_eq!(unit.find_index_of_preset(preset_id(0, 12)), Some(2));
    assert_eq!(unit.find_preset_id_at_index(2), Some(preset_id(0, 12)));
    assert_eq!(unit.find_next_preset_index(1), Some(3));
    assert_eq!(unit.find_next_preset_index(2), Some(0));
    assert_eq!(unit.find_next_preset_index(-2), Some(0));
    assert_eq!(unit.find_next_preset_index(-3), Some(3));
    // A preset that is picked but not shown counts as none.
    unit.set_preset_id(Some(preset_id(9, 9)));
    assert_eq!(unit.find_next_preset_index(1), Some(0));
    assert_eq!(unit.find_next_preset_index(-1), Some(3));
}
