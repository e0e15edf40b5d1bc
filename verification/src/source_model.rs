//! The kinds of sources that a mapping can have, and what each kind
//! supports.

use vstd::prelude::*;
use crate::ui_util::{join_spec, lemma_join_with_step, texts_of};

verus! {

/// The two compartments of mappings.
#[derive(Copy, Clone, Debug, PartialEq, Eq, Structural)]
pub enum CompartmentKind {
    Controller,
    Main,
}

/// The category of a source.
#[derive(Copy, Clone, Debug, PartialEq, Eq, Structural)]
pub enum SourceCategory {
    Never,
    Midi,
    Osc,
    Keyboard,
    Reaper,
    Virtual,
}

impl SourceCategory {
    /// The category that a new source has in a compartment.
    pub fn default_for(compartment: CompartmentKind) -> (r: Self)
        ensures
            r == SourceCategory::Midi,
    {
        match compartment {
            CompartmentKind::Controller => SourceCategory::Midi,
            CompartmentKind::Main => SourceCategory::Midi,
        }
    }

    /// Whether sources of this category can be used in a compartment: all
    /// but virtual sources in the controller compartment, and all in the
    /// main compartment.
    pub fn is_allowed_in(self, compartment: CompartmentKind) -> (r: bool)
        ensures
            r == !(compartment == CompartmentKind::Controller && self == SourceCategory::Virtual),
    {
        match compartment {
            CompartmentKind::Controller => match self {
                SourceCategory::Never => true,
                SourceCategory::Midi => true,
                SourceCategory::Osc => true,
                SourceCategory::Reaper => true,
                SourceCategory::Keyboard => true,
                SourceCategory::Virtual => false,
            },
            CompartmentKind::Main => true,
        }
    }

    /// The name that the category is shown by.
    pub fn label(self) -> (r: &'static str)
        ensures
            r@ == (match self {
                SourceCategory::Never => "None"@,
                SourceCategory::Midi => "MIDI"@,
                SourceCategory::Osc => "OSC"@,
                SourceCategory::Keyboard => "Keyboard"@,
                SourceCategory::Reaper => "REAPER"@,
                SourceCategory::Virtual => "Virtual"@,
            }),
    {
        match self {
            SourceCategory::Never => "None",
            SourceCategory::Midi => "MIDI",
            SourceCategory::Osc => "OSC",
            SourceCategory::Keyboard => "Keyboard",
            SourceCategory::Reaper => "REAPER",
            SourceCategory::Virtual => "Virtual",
        }
    }
}

impl Default for SourceCategory {
    fn default() -> (r: Self)
        ensures
            r == SourceCategory::Midi,
    {
        SourceCategory::Midi
    }
}

/// Type of a MIDI source
#[derive(Copy, Clone, Debug, PartialEq, Eq, Structural)]
pub enum MidiSourceType {
    ControlChangeValue,
    NoteVelocity,
    NoteKeyNumber,
    PitchBendChangeValue,
    ChannelPressureAmount,
    ProgramChangeNumber,
    ParameterNumberValue,
    PolyphonicKeyPressureAmount,
    ClockTempo,
    ClockTransport,
    Raw,
    Script,
    Display,
    SpecificProgramChange,
}

impl Default for MidiSourceType {
    fn default() -> (r: Self)
        ensures
            r == MidiSourceType::ControlChangeValue,
    {
        MidiSourceType::ControlChangeValue
    }
}

impl MidiSourceType {
    /// Whether sources of this type listen to one channel or to all.
    pub open spec fn spec_supports_channel(self) -> bool {
        self == MidiSourceType::ChannelPressureAmount || self == MidiSourceType::ControlChangeValue
            || self == MidiSourceType::NoteVelocity || self
            == MidiSourceType::PolyphonicKeyPressureAmount || self == MidiSourceType::NoteKeyNumber
            || self == MidiSourceType::ParameterNumberValue || self
            == MidiSourceType::PitchBendChangeValue || self == MidiSourceType::ProgramChangeNumber
            || self == MidiSourceType::SpecificProgramChange
    }

    /// Whether sources of this type have a number: of a controller, a note
    /// or a program.
    pub open spec fn spec_supports_midi_message_number(self) -> bool {
        self == MidiSourceType::ControlChangeValue || self == MidiSourceType::NoteVelocity || self
            == MidiSourceType::PolyphonicKeyPressureAmount || self
            == MidiSourceType::SpecificProgramChange
    }

    /// The number by which the type is kept.
    pub open spec fn index_spec(self) -> usize {
        match self {
            MidiSourceType::ControlChangeValue => 0,
            MidiSourceType::NoteVelocity => 1,
            MidiSourceType::NoteKeyNumber => 2,
            MidiSourceType::PitchBendChangeValue => 3,
            MidiSourceType::ChannelPressureAmount => 4,
            MidiSourceType::ProgramChangeNumber => 5,
            MidiSourceType::ParameterNumberValue => 6,
            MidiSourceType::PolyphonicKeyPressureAmount => 7,
            MidiSourceType::ClockTempo => 8,
            MidiSourceType::ClockTransport => 9,
            MidiSourceType::Raw => 10,
            MidiSourceType::Script => 11,
            MidiSourceType::Display => 12,
            MidiSourceType::SpecificProgramChange => 13,
        }
    }

    /// The number by which the type is kept.
    pub fn index(self) -> (r: usize)
        ensures
            r == self.index_spec(),
    {
        match self {
            MidiSourceType::ControlChangeValue => 0,
            MidiSourceType::NoteVelocity => 1,
            MidiSourceType::NoteKeyNumber => 2,
            MidiSourceType::PitchBendChangeValue => 3,
            MidiSourceType::ChannelPressureAmount => 4,
            MidiSourceType::ProgramChangeNumber => 5,
            MidiSourceType::ParameterNumberValue => 6,
            MidiSourceType::PolyphonicKeyPressureAmount => 7,
            MidiSourceType::ClockTempo => 8,
            MidiSourceType::ClockTransport => 9,
            MidiSourceType::Raw => 10,
            MidiSourceType::Script => 11,
            MidiSourceType::Display => 12,
            MidiSourceType::SpecificProgramChange => 13,
        }
    }

    /// What the number of a source of this type is called.
    pub fn number_label(self) -> (r: &'static str)
        ensures
            r@ == (match self {
                MidiSourceType::ControlChangeValue => "CC number"@,
                MidiSourceType::NoteVelocity => "Note number"@,
                MidiSourceType::PolyphonicKeyPressureAmount => "Note number"@,
                MidiSourceType::ParameterNumberValue => "Number"@,
                MidiSourceType::SpecificProgramChange => "Program"@,
                _ => ""@,
            }),
    {
        match self {
            MidiSourceType::ControlChangeValue => "CC number",
            MidiSourceType::NoteVelocity | MidiSourceType::PolyphonicKeyPressureAmount => "Note number",
            MidiSourceType::ParameterNumberValue => "Number",
            MidiSourceType::SpecificProgramChange => "Program",
            _ => "",
        }
    }

    pub fn supports_channel(self) -> (r: bool)
        ensures
            r == self.spec_supports_channel(),
    {
        match self {
            MidiSourceType::ChannelPressureAmount
            | MidiSourceType::ControlChangeValue
            | MidiSourceType::NoteVelocity
            | MidiSourceType::PolyphonicKeyPressureAmount
            | MidiSourceType::NoteKeyNumber
            | MidiSourceType::ParameterNumberValue
            | MidiSourceType::PitchBendChangeValue
            | MidiSourceType::ProgramChangeNumber
            | MidiSourceType::SpecificProgramChange => true,
            _ => false,
        }
    }

    pub fn supports_midi_message_number(self) -> (r: bool)
        ensures
            r == self.spec_supports_midi_message_number(),
    {
        match self {
            MidiSourceType::ControlChangeValue
            | MidiSourceType::NoteVelocity
            | MidiSourceType::PolyphonicKeyPressureAmount
            | MidiSourceType::SpecificProgramChange => true,
            _ => false,
        }
    }

    pub fn supports_parameter_number_message_number(self) -> (r: bool)
        ensures
            r == (self == MidiSourceType::ParameterNumberValue),
    {
        self.supports_parameter_number_message_props()
    }

    pub fn supports_14_bit(self) -> (r: bool)
        ensures
            r == (self == MidiSourceType::ControlChangeValue || self
                == MidiSourceType::ParameterNumberValue),
    {
        match self {
            MidiSourceType::ControlChangeValue | MidiSourceType::ParameterNumberValue => true,
            _ => false,
        }
    }

    pub fn supports_is_registered(self) -> (r: bool)
        ensures
            r == (self == MidiSourceType::ParameterNumberValue),
    {
        self.supports_parameter_number_message_props()
    }

    pub fn supports_custom_character(self) -> (r: bool)
        ensures
            r == (self == MidiSourceType::ControlChangeValue || self
                == MidiSourceType::ParameterNumberValue || self == MidiSourceType::Raw),
    {
        match self {
            MidiSourceType::ControlChangeValue
            | MidiSourceType::ParameterNumberValue
            | MidiSourceType::Raw => true,
            _ => false,
        }
    }

    fn supports_parameter_number_message_props(self) -> (r: bool)
        ensures
            r == (self == MidiSourceType::ParameterNumberValue),
    {
        match self {
            MidiSourceType::ParameterNumberValue => true,
            _ => false,
        }
    }

    /// Whether sources of this type can control: all but those that are
    /// for feedback only.
    pub fn supports_control(self) -> (r: bool)
        ensures
            r == !(self == MidiSourceType::Script || self == MidiSourceType::Display),
    {
        match self {
            MidiSourceType::Script | MidiSourceType::Display => false,
            _ => true,
        }
    }

    /// Whether sources of this type can take feedback: all but the MIDI
    /// clock.
    pub fn supports_feedback(self) -> (r: bool)
        ensures
            r == !(self == MidiSourceType::ClockTempo || self == MidiSourceType::ClockTransport),
    {
        match self {
            MidiSourceType::ClockTempo | MidiSourceType::ClockTransport => false,
            _ => true,
        }
    }
}

/// Type of a source of the host
#[derive(Copy, Clone, Debug, PartialEq, Eq, Structural)]
pub enum ReaperSourceType {
    MidiDeviceChanges,
    RealearnUnitStart,
    Timer,
    RealearnParameter,
    Speech,
}

impl Default for ReaperSourceType {
    fn default() -> (r: Self)
        ensures
            r == ReaperSourceType::MidiDeviceChanges,
    {
        ReaperSourceType::MidiDeviceChanges
    }
}

impl ReaperSourceType {
    /// Whether sources of this type can control: all but speech.
    pub fn supports_control(self) -> (r: bool)
        ensures
            r == (self != ReaperSourceType::Speech),
    {
        match self {
            ReaperSourceType::MidiDeviceChanges
            | ReaperSourceType::RealearnUnitStart
            | ReaperSourceType::Timer
            | ReaperSourceType::RealearnParameter => true,
            ReaperSourceType::Speech => false,
        }
    }

    /// Whether sources of this type can take feedback: speech only.
    pub fn supports_feedback(self) -> (r: bool)
        ensures
            r == (self == ReaperSourceType::Speech),
    {
        match self {
            ReaperSourceType::MidiDeviceChanges
            | ReaperSourceType::RealearnUnitStart
            | ReaperSourceType::Timer
            | ReaperSourceType::RealearnParameter => false,
            ReaperSourceType::Speech => true,
        }
    }
}

/// Writes the arguments of an OSC feedback message with a blank between
/// each two.
pub fn format_osc_feedback_args(args: &Vec<String>) -> (r: String)
    ensures
        r@ == join_spec(texts_of(args@), " "@),
{
    let mut result = String::new();
    let mut i: usize = 0;
    while i < args.len()
        invariant
            i <= args.len(),
            result@ == join_spec(texts_of(args@).take(i as int), " "@),
        decreases args.len() - i,
    {
        proof {
            lemma_join_with_step(texts_of(args@), i as int, " "@);
        }
        if i > 0 {
            result.append(" ");
        } else {
            assert(result@ + args[i as int]@ =~= args[i as int]@);
        }
        result.append(args[i].as_str());
        i += 1;
    }
    assert(texts_of(args@).take(args.len() as int) =~= texts_of(args@));
    result
}

} // verus!
