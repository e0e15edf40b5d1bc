//! The sources that a mapping can be controlled by, as they are written
//! down: every setting that is not given is left to its default.

use vstd::prelude::*;

verus! {

/// An element of a virtual controller: numbered or named.
#[derive(Clone, Debug, PartialEq, Eq)]
pub enum VirtualControlElementId {
    Indexed(u32),
    Named(String),
}

/// What kind of element of a virtual controller a source stands for.
#[derive(Copy, Clone, Debug, PartialEq, Eq, Structural)]
pub enum VirtualControlElementCharacter {
    Multi,
    Button,
}

/// The type of an OSC argument.
#[derive(Copy, Clone, Debug, PartialEq, Eq, Structural)]
pub enum OscArgKind {
    Float,
    Double,
    Bool,
    Nil,
    Inf,
    Int,
    String,
    Blob,
    Time,
    Long,
    Char,
    Color,
    Midi,
    Array,
}

/// Which argument of an OSC message a source listens to.
#[derive(Copy, Clone, Debug, PartialEq, Eq, Structural)]
pub struct OscArgument {
    pub index: Option<u32>,
    pub kind: Option<OscArgKind>,
}

#[derive(PartialEq)]
pub enum Source {
    /// No source at all.
    NoSource,
    // Host
    MidiDeviceChanges,
    RealearnInstanceStart,
    Timer(TimerSource),
    RealearnParameter(RealearnParameterSource),
    Speech,
    // MIDI
    MidiNoteVelocity(MidiNoteVelocitySource),
    MidiNoteKeyNumber(MidiNoteKeyNumberSource),
    MidiPolyphonicKeyPressureAmount(MidiPolyphonicKeyPressureAmountSource),
    MidiControlChangeValue(MidiControlChangeValueSource),
    MidiProgramChangeNumber(MidiProgramChangeNumberSource),
    MidiSpecificProgramChange(MidiSpecificProgramChangeSource),
    MidiChannelPressureAmount(MidiChannelPressureAmountSource),
    MidiPitchBendChangeValue(MidiPitchBendChangeValueSource),
    MidiParameterNumberValue(MidiParameterNumberValueSource),
    MidiClockTempo,
    MidiClockTransport(MidiClockTransportSource),
    MidiRaw(MidiRawSource),
    MidiScript(MidiScriptSource),
    MackieLcd(MackieLcdSource),
    XTouchMackieLcd(XTouchMackieLcdSource),
    MackieSevenSegmentDisplay(MackieSevenSegmentDisplaySource),
    SlKeyboardDisplay(SlKeyboardDisplaySource),
    SiniConE24Display(SiniConE24DisplaySource),
    LaunchpadProScrollingTextDisplay,
    // OSC
    Osc(OscSource),
    // Keyboard
    Key(KeySource),
    // Virtual
    Virtual(VirtualSource),
}

impl Source {
    /// The feedback behavior that a source is written down with: only
    /// sources that take both control and feedback have one.
    pub open spec fn feedback_behavior_spec(self) -> Option<FeedbackBehavior> {
        match self {
            Source::MidiNoteVelocity(s) => s.feedback_behavior,
            Source::MidiNoteKeyNumber(s) => s.feedback_behavior,
            Source::MidiPolyphonicKeyPressureAmount(s) => s.feedback_behavior,
            Source::MidiControlChangeValue(s) => s.feedback_behavior,
            Source::MidiProgramChangeNumber(s) => s.feedback_behavior,
            Source::MidiChannelPressureAmount(s) => s.feedback_behavior,
            Source::MidiPitchBendChangeValue(s) => s.feedback_behavior,
            Source::MidiParameterNumberValue(s) => s.feedback_behavior,
            Source::MidiRaw(s) => s.feedback_behavior,
            Source::Osc(s) => s.feedback_behavior,
            _ => None,
        }
    }

    /// The feedback behavior that a source is written down with.
    pub fn feedback_behavior(&self) -> (r: Option<FeedbackBehavior>)
        ensures
            r == self.feedback_behavior_spec(),
    {
        match self {
            Source::MidiNoteVelocity(s) => s.feedback_behavior,
            Source::MidiNoteKeyNumber(s) => s.feedback_behavior,
            Source::MidiPolyphonicKeyPressureAmount(s) => s.feedback_behavior,
            Source::MidiControlChangeValue(s) => s.feedback_behavior,
            Source::MidiProgramChangeNumber(s) => s.feedback_behavior,
            Source::MidiChannelPressureAmount(s) => s.feedback_behavior,
            Source::MidiPitchBendChangeValue(s) => s.feedback_behavior,
            Source::MidiParameterNumberValue(s) => s.feedback_behavior,
            Source::MidiRaw(s) => s.feedback_behavior,
            Source::Osc(s) => s.feedback_behavior,
            _ => None,
        }
    }
}

/// How a mapping treats feedback: whether it keeps feedback from echoing
/// and whether it sends feedback after each control.
#[derive(Copy, Clone, Debug, PartialEq, Eq, Structural)]
pub struct FeedbackFlags {
    pub prevent_echo_feedback: bool,
    pub send_feedback_after_control: bool,
}

/// The flags that a source asks for: those of its feedback behavior, and
/// of the normal behavior where it names none or there is no source.
pub open spec fn feedback_flags_spec(source: Option<Source>) -> FeedbackFlags {
    let behavior = match source {
        Some(s) => match s.feedback_behavior_spec() {
            Some(b) => b,
            None => FeedbackBehavior::Normal,
        },
        None => FeedbackBehavior::Normal,
    };
    FeedbackFlags {
        prevent_echo_feedback: behavior == FeedbackBehavior::PreventEchoFeedback,
        send_feedback_after_control: behavior == FeedbackBehavior::SendFeedbackAfterControl,
    }
}

/// Works out the feedback flags of a mapping from its source.
pub fn feedback_flags(source: Option<&Source>) -> (r: FeedbackFlags)
    ensures
        r == feedback_flags_spec(
            match source {
                Some(s) => Some(*s),
                None => None,
            },
        ),
{
    let behavior = match source {
        Some(s) => match s.feedback_behavior() {
            Some(b) => b,
            None => FeedbackBehavior::Normal,
        },
        None => FeedbackBehavior::Normal,
    };
    match behavior {
        FeedbackBehavior::Normal => FeedbackFlags {
            prevent_echo_feedback: false,
            send_feedback_after_control: false,
        },
        FeedbackBehavior::SendFeedbackAfterControl => FeedbackFlags {
            prevent_echo_feedback: false,
            send_feedback_after_control: true,
        },
        FeedbackBehavior::PreventEchoFeedback => FeedbackFlags {
            prevent_echo_feedback: true,
            send_feedback_after_control: false,
        },
    }
}

// Only makes sense for sources that support both control *and* feedback.
#[derive(Copy, Clone, Debug, PartialEq, Eq, Structural)]
pub enum FeedbackBehavior {
    Normal,
    SendFeedbackAfterControl,
    PreventEchoFeedback,
}

impl Default for FeedbackBehavior {
    fn default() -> (r: Self)
        ensures
            r == FeedbackBehavior::Normal,
    {
        FeedbackBehavior::Normal
    }
}

#[derive(Copy, Clone, Debug, PartialEq, Eq, Structural)]
pub struct MidiNoteVelocitySource {
    pub feedback_behavior: Option<FeedbackBehavior>,
    pub channel: Option<u8>,
    pub key_number: Option<u8>,
}

#[derive(Copy, Clone, Debug, PartialEq, Eq, Structural)]
pub struct MidiNoteKeyNumberSource {
    pub feedback_behavior: Option<FeedbackBehavior>,
    pub channel: Option<u8>,
}

#[derive(Copy, Clone, Debug, PartialEq, Eq, Structural)]
pub struct MidiPolyphonicKeyPressureAmountSource {
    pub feedback_behavior: Option<FeedbackBehavior>,
    pub channel: Option<u8>,
    pub key_number: Option<u8>,
}

#[derive(Copy, Clone, Debug, PartialEq, Eq, Structural)]
pub struct MidiControlChangeValueSource {
    pub feedback_behavior: Option<FeedbackBehavior>,
    pub channel: Option<u8>,
    pub controller_number: Option<u8>,
    pub character: Option<SourceCharacter>,
    pub fourteen_bit: Option<bool>,
}

#[derive(Copy, Clone, Debug, PartialEq, Eq, Structural)]
pub struct MidiProgramChangeNumberSource {
    pub feedback_behavior: Option<FeedbackBehavior>,
    pub channel: Option<u8>,
}

#[derive(Copy, Clone, Debug, PartialEq, Eq, Structural)]
pub struct MidiSpecificProgramChangeSource {
    pub feedback_behavior: Option<FeedbackBehavior>,
    pub channel: Option<u8>,
    pub program_number: Option<u8>,
}

#[derive(Copy, Clone, Debug, PartialEq, Eq, Structural)]
pub struct MidiChannelPressureAmountSource {
    pub feedback_behavior: Option<FeedbackBehavior>,
    pub channel: Option<u8>,
}

#[derive(Copy, Clone, Debug, PartialEq, Eq, Structural)]
pub struct MidiPitchBendChangeValueSource {
    pub feedback_behavior: Option<FeedbackBehavior>,
    pub channel: Option<u8>,
}

#[derive(Copy, Clone, Debug, PartialEq, Eq, Structural)]
pub struct MidiParameterNumberValueSource {
    pub feedback_behavior: Option<FeedbackBehavior>,
    pub channel: Option<u8>,
    pub number: Option<u16>,
    pub fourteen_bit: Option<bool>,
    pub registered: Option<bool>,
    pub character: Option<SourceCharacter>,
}

#[derive(Copy, Clone, Debug, PartialEq, Eq, Structural)]
pub struct MidiClockTransportSource {
    pub message: Option<MidiClockTransportMessage>,
}

#[derive(Clone, Debug, PartialEq, Eq)]
pub struct MidiRawSource {
    pub feedback_behavior: Option<FeedbackBehavior>,
    pub pattern: Option<String>,
    pub character: Option<SourceCharacter>,
}

#[derive(Clone, Debug, PartialEq, Eq)]
pub struct MidiScriptSource {
    pub script_kind: Option<MidiScriptKind>,
    pub script: Option<String>,
}

/// Kind of a MIDI script
#[derive(Copy, Clone, Debug, PartialEq, Eq, Structural)]
pub enum MidiScriptKind {
    Eel,
    Lua,
}

impl MidiScriptKind {
    /// The number of a kind.
    pub open spec fn index_spec(self) -> usize {
        match self {
            MidiScriptKind::Eel => 0,
            MidiScriptKind::Lua => 1,
        }
    }

    /// The number of a kind.
    pub fn index(&self) -> (r: usize)
        ensures
            r == self.index_spec(),
    {
        match self {
            MidiScriptKind::Eel => 0,
            MidiScriptKind::Lua => 1,
        }
    }

    /// The kind with a given number, if there is one.
    pub fn try_from_index(index: usize) -> (r: Option<MidiScriptKind>)
        ensures
            match r {
                Some(kind) => kind.index_spec() == index,
                None => index >= 2,
            },
    {
        if index == 0 {
            Some(MidiScriptKind::Eel)
        } else if index == 1 {
            Some(MidiScriptKind::Lua)
        } else {
            None
        }
    }

    /// The name that a kind is shown by.
    pub fn label(&self) -> (r: &'static str)
        ensures
            r@ == (match *self {
                MidiScriptKind::Eel => "EEL"@,
                MidiScriptKind::Lua => "Lua"@,
            }),
    {
        match self {
            MidiScriptKind::Eel => "EEL",
            MidiScriptKind::Lua => "Lua",
        }
    }
}

impl Default for MidiScriptKind {
    fn default() -> (r: Self)
        ensures
            r == MidiScriptKind::Eel,
    {
        MidiScriptKind::Eel
    }
}

#[derive(Copy, Clone, Debug, PartialEq, Eq, Structural)]
pub enum SourceCharacter {
    Range,
    Button,
    // 127 = decrement;  0 = none;  1 = increment
    Relative1,
    //  63 = decrement; 64 = none; 65 = increment
    Relative2,
    //  65 = decrement;  0 = none;  1 = increment
    Relative3,
    StatefulButton,
}

impl Default for SourceCharacter {
    fn default() -> (r: Self)
        ensures
            r == SourceCharacter::Range,
    {
        SourceCharacter::Range
    }
}

#[derive(Copy, Clone, Debug, PartialEq, Eq, Structural)]
pub enum MidiClockTransportMessage {
    Start,
    Continue,
    Stop,
}

impl Default for MidiClockTransportMessage {
    fn default() -> (r: Self)
        ensures
            r == MidiClockTransportMessage::Start,
    {
        MidiClockTransportMessage::Start
    }
}

#[derive(Copy, Clone, Debug, PartialEq, Eq, Structural)]
pub struct MackieLcdSource {
    pub extender_index: Option<u8>,
    pub channel: Option<u8>,
    pub line: Option<u8>,
}

#[derive(Copy, Clone, Debug, PartialEq, Eq, Structural)]
pub struct XTouchMackieLcdSource {
    pub extender_index: Option<u8>,
    pub channel: Option<u8>,
    pub line: Option<u8>,
}

#[derive(Copy, Clone, Debug, PartialEq, Eq, Structural)]
pub struct SlKeyboardDisplaySource {
    pub section: Option<u8>,
    pub line: Option<u8>,
}

#[derive(Copy, Clone, Debug, PartialEq, Eq, Structural)]
pub struct MackieSevenSegmentDisplaySource {
    pub scope: Option<MackieSevenSegmentDisplayScope>,
}

#[derive(Copy, Clone, Debug, PartialEq, Eq, Structural)]
pub enum MackieSevenSegmentDisplayScope {
    All,
    Assignment,
    Tc,
    TcHoursBars,
    TcMinutesBeats,
    TcSecondsSub,
    TcFramesTicks,
}

impl Default for MackieSevenSegmentDisplayScope {
    fn default() -> (r: Self)
        ensures
            r == MackieSevenSegmentDisplayScope::Assignment,
    {
        MackieSevenSegmentDisplayScope::Assignment
    }
}

#[derive(Copy, Clone, Debug, PartialEq, Eq, Structural)]
pub struct SiniConE24DisplaySource {
    pub cell_index: Option<u8>,
    pub item_index: Option<u8>,
}

#[derive(Clone, Debug, PartialEq)]
pub struct OscSource {
    pub feedback_behavior: Option<FeedbackBehavior>,
    pub address: Option<String>,
    pub argument: Option<OscArgument>,
    pub relative: Option<bool>,
    pub feedback_arguments: Option<Vec<String>>,
}

#[derive(Copy, Clone, Debug, PartialEq, Eq, Structural)]
pub struct RealearnParameterSource {
    pub parameter_index: u32,
}

#[derive(Copy, Clone, Debug, PartialEq, Eq, Structural)]
pub struct TimerSource {
    pub duration: u64,
}

#[derive(Copy, Clone, Debug, PartialEq, Eq, Structural)]
pub struct KeySource {
    pub keystroke: Option<Keystroke>,
}

#[derive(Copy, Clone, Debug, PartialEq, Eq, Structural)]
pub struct Keystroke {
    pub modifiers: u8,
    pub key: u16,
}

#[derive(Clone, Debug, PartialEq, Eq)]
pub struct VirtualSource {
    pub id: VirtualControlElementId,
    pub character: Option<VirtualControlElementCharacter>,
}

} // verus!
