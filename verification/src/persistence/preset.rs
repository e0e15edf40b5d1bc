//! What is known of a preset before its content is loaded.

use vstd::prelude::*;

verus! {

/// The instance feature of owning a clip matrix.
pub open spec fn playtime_feature() -> Seq<char> {
    "playtime"@
}

/// Whether a list of texts names no text twice.
pub open spec fn names_nothing_twice(texts: Seq<String>) -> bool {
    forall|i: int, j: int| 0 <= i < j < texts.len() ==> texts[i]@ != texts[j]@
}

/// Whether a list of texts holds a given text.
pub open spec fn holds_text(texts: Seq<String>, text: Seq<char>) -> bool {
    exists|i: int| 0 <= i < texts.len() && (#[trigger] texts[i])@ == text
}

/// The name of a virtual control scheme.
#[derive(Clone, Debug, PartialEq, Eq, PartialOrd, Ord, Hash)]
pub struct VirtualControlSchemeId(String);

impl View for VirtualControlSchemeId {
    type V = Seq<char>;

    closed spec fn view(&self) -> Seq<char> {
        self.0@
    }
}

impl VirtualControlSchemeId {
    pub fn new(id: String) -> (r: Self)
        ensures
            r@ == id@,
    {
        VirtualControlSchemeId(id)
    }

    pub fn get(&self) -> (r: &str)
        ensures
            r@ == self@,
    {
        self.0.as_str()
    }
}

/// Meta data that is specific to controller presets.
#[derive(Clone, Debug, PartialEq, Eq)]
pub struct ControllerPresetMetaData {
    /// Device manufacturer.
    pub device_manufacturer: Option<String>,
    /// Original name of the device.
    pub device_name: Option<String>,
    /// MIDI identity compatibility pattern.
    pub midi_identity_pattern: Option<String>,
    /// Possible MIDI output port patterns: names often differ between
    /// operating systems, and any in the list matches.
    pub midi_output_port_patterns: Vec<String>,
    /// Provided virtual control schemes, each named once.
    pub provided_schemes: Vec<VirtualControlSchemeId>,
}

impl ControllerPresetMetaData {
    /// Whether no provided scheme is named twice.
    pub open spec fn wf(self) -> bool {
        forall|i: int, j: int|
            0 <= i < j < self.provided_schemes.len() ==> self.provided_schemes[i]@
                != self.provided_schemes[j]@
    }

    /// Meta data that says nothing.
    pub fn new() -> (r: Self)
        ensures
            r.wf(),
            r.device_manufacturer is None,
            r.device_name is None,
            r.midi_identity_pattern is None,
            r.midi_output_port_patterns@.len() == 0,
            r.provided_schemes@.len() == 0,
    {
        ControllerPresetMetaData {
            device_manufacturer: None,
            device_name: None,
            midi_identity_pattern: None,
            midi_output_port_patterns: Vec::new(),
            provided_schemes: Vec::new(),
        }
    }
}

/// Meta data that is specific to main presets.
#[derive(Clone, Debug, PartialEq, Eq)]
pub struct MainPresetMetaData {
    /// Used virtual control schemes, each named once.
    pub used_schemes: Vec<VirtualControlSchemeId>,
    /// The features that an instance needs to provide for the preset to
    /// make sense, each named once.
    pub required_features: Vec<String>,
}

impl MainPresetMetaData {
    /// Whether no scheme and no feature is named twice.
    pub open spec fn wf(self) -> bool {
        &&& names_nothing_twice(self.required_features@)
        &&& forall|i: int, j: int|
            0 <= i < j < self.used_schemes.len() ==> self.used_schemes[i]@ != self.used_schemes[j]@
    }

    /// Meta data that says nothing.
    pub fn new() -> (r: Self)
        ensures
            r.wf(),
            r.used_schemes@.len() == 0,
            r.required_features@.len() == 0,
    {
        MainPresetMetaData { used_schemes: Vec::new(), required_features: Vec::new() }
    }

    /// Whether the preset needs an instance that owns a clip matrix.
    pub fn requires_playtime(&self) -> (r: bool)
        ensures
            r == holds_text(self.required_features@, playtime_feature()),
    {
        let playtime = "playtime".to_owned();
        let mut i: usize = 0;
        while i < self.required_features.len()
            invariant
                i <= self.required_features.len(),
                playtime@ == playtime_feature(),
                forall|k: int| 0 <= k < i ==> self.required_features[k]@ != playtime_feature(),
            decreases self.required_features.len() - i,
        {
            if self.required_features[i] == playtime {
                return true;
            }
            i += 1;
        }
        false
    }
}

} // verus!
