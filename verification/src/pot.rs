//! A browser of presets: what can be filtered by, what a preset is, where
//! it is loaded to, and which windows are shown when it is.

use vstd::prelude::*;
use wildmatch::WildMatch;

pub mod collection;
pub mod constant_filters;
pub mod filter_items;
pub mod unit;

verus! {

/// The number of a preset database.
#[derive(Copy, Clone, Debug, PartialEq, Eq, Structural)]
pub struct DatabaseId(pub u32);

/// The number of a preset within its database.
#[derive(Copy, Clone, Debug, PartialEq, Eq, Structural)]
pub struct InnerPresetId(pub u32);

/// A preset: its database and its number within it.
#[derive(Copy, Clone, Debug, PartialEq, Eq, Structural)]
pub struct PresetId {
    pub database_id: DatabaseId,
    pub preset_id: InnerPresetId,
}

impl PresetId {
    pub fn new(database_id: DatabaseId, preset_id: InnerPresetId) -> (r: PresetId)
        ensures
            r == (PresetId { database_id, preset_id }),
    {
        PresetId { database_id, preset_id }
    }
}

/// The number of a product.
#[derive(Copy, Clone, Debug, PartialEq, Eq, Structural)]
pub struct ProductId(pub u32);

/// What kind of thing a product is.
#[derive(Copy, Clone, Debug, PartialEq, Eq, Structural)]
pub enum ProductKind {
    Instrument,
    Effect,
    Loop,
    OneShot,
}

/// A plug-in, known by the identifier of its format.
#[derive(Copy, Clone, Debug, PartialEq, Eq, Structural)]
pub enum PluginId {
    Vst2 { vst_magic_number: u32 },
    Vst3 { vst_uid: u128 },
}

/// A hash that stays the same between sessions.
#[derive(Copy, Clone, Debug, PartialEq, Eq, Structural)]
pub struct PersistentHash(pub u128);

/// A value that presets can be filtered by.
#[derive(Copy, Clone, Debug, PartialEq, Eq, Structural)]
pub enum Fil {
    Boolean(bool),
    Database(DatabaseId),
    ProductKind(ProductKind),
    Product(ProductId),
    Normal(u32),
}

/// A filter item: a value to filter by, or, with none, the item that
/// matches presets to which no value is assigned.
#[derive(Copy, Clone, Debug, PartialEq, Eq, Structural)]
pub struct FilterItemId(pub Option<Fil>);

/// What presets can be filtered by.
#[derive(Copy, Clone, Debug, PartialEq, Eq, Structural)]
pub enum PotFilterKind {
    Database,
    IsAvailable,
    IsSupported,
    IsUser,
    IsFavorite,
    ProductKind,
    Bank,
    SubBank,
    Category,
    SubCategory,
    Mode,
}

/// The filter that is set for each kind: none means that anything matches.
#[derive(Copy, Clone, Debug, PartialEq, Eq, Structural)]
pub struct Filters {
    pub database: Option<FilterItemId>,
    pub is_available: Option<FilterItemId>,
    pub is_supported: Option<FilterItemId>,
    pub is_user: Option<FilterItemId>,
    pub is_favorite: Option<FilterItemId>,
    pub product_kind: Option<FilterItemId>,
    pub bank: Option<FilterItemId>,
    pub sub_bank: Option<FilterItemId>,
    pub category: Option<FilterItemId>,
    pub sub_category: Option<FilterItemId>,
    pub mode: Option<FilterItemId>,
}

impl Filters {
    /// No filter set.
    pub open spec fn spec_empty() -> Filters {
        Filters {
            database: None,
            is_available: None,
            is_supported: None,
            is_user: None,
            is_favorite: None,
            product_kind: None,
            bank: None,
            sub_bank: None,
            category: None,
            sub_category: None,
            mode: None,
        }
    }

    /// The filter that is set for a kind.
    pub open spec fn spec_get(self, kind: PotFilterKind) -> Option<FilterItemId> {
        match kind {
            PotFilterKind::Database => self.database,
            PotFilterKind::IsAvailable => self.is_available,
            PotFilterKind::IsSupported => self.is_supported,
            PotFilterKind::IsUser => self.is_user,
            PotFilterKind::IsFavorite => self.is_favorite,
            PotFilterKind::ProductKind => self.product_kind,
            PotFilterKind::Bank => self.bank,
            PotFilterKind::SubBank => self.sub_bank,
            PotFilterKind::Category => self.category,
            PotFilterKind::SubCategory => self.sub_category,
            PotFilterKind::Mode => self.mode,
        }
    }

    /// Whether a value gets through the filter of a kind: it does where no
    /// filter is set, and where the filter is set to that value.
    pub open spec fn spec_matches(self, kind: PotFilterKind, fil: Fil) -> bool {
        match self.spec_get(kind) {
            None => true,
            Some(id) => id == FilterItemId(Some(fil)),
        }
    }

    pub fn empty() -> (r: Filters)
        ensures
            r == Self::spec_empty(),
    {
        Filters {
            database: None,
            is_available: None,
            is_supported: None,
            is_user: None,
            is_favorite: None,
            product_kind: None,
            bank: None,
            sub_bank: None,
            category: None,
            sub_category: None,
            mode: None,
        }
    }

    pub fn get(&self, kind: PotFilterKind) -> (r: Option<FilterItemId>)
        ensures
            r == self.spec_get(kind),
    {
        match kind {
            PotFilterKind::Database => self.database,
            PotFilterKind::IsAvailable => self.is_available,
            PotFilterKind::IsSupported => self.is_supported,
            PotFilterKind::IsUser => self.is_user,
            PotFilterKind::IsFavorite => self.is_favorite,
            PotFilterKind::ProductKind => self.product_kind,
            PotFilterKind::Bank => self.bank,
            PotFilterKind::SubBank => self.sub_bank,
            PotFilterKind::Category => self.category,
            PotFilterKind::SubCategory => self.sub_category,
            PotFilterKind::Mode => self.mode,
        }
    }

    /// Sets the filter of one kind and leaves the others.
    pub fn set(&mut self, kind: PotFilterKind, id: Option<FilterItemId>)
        ensures
            final(self).spec_get(kind) == id,
            forall|other: PotFilterKind|
                other != kind ==> final(self).spec_get(other) == old(self).spec_get(other),
    {
        match kind {
            PotFilterKind::Database => self.database = id,
            PotFilterKind::IsAvailable => self.is_available = id,
            PotFilterKind::IsSupported => self.is_supported = id,
            PotFilterKind::IsUser => self.is_user = id,
            PotFilterKind::IsFavorite => self.is_favorite = id,
            PotFilterKind::ProductKind => self.product_kind = id,
            PotFilterKind::Bank => self.bank = id,
            PotFilterKind::SubBank => self.sub_bank = id,
            PotFilterKind::Category => self.category = id,
            PotFilterKind::SubCategory => self.sub_category = id,
            PotFilterKind::Mode => self.mode = id,
        }
    }

    /// Whether a value gets through the filter of a kind.
    pub fn matches(&self, kind: PotFilterKind, fil: Fil) -> (r: bool)
        ensures
            r == self.spec_matches(kind, fil),
    {
        match self.get(kind) {
            None => true,
            Some(id) => id == FilterItemId(Some(fil)),
        }
    }

    /// Whether presets of a database get through the database filter.
    pub fn database_matches(&self, db_id: DatabaseId) -> (r: bool)
        ensures
            r == self.spec_matches(PotFilterKind::Database, Fil::Database(db_id)),
    {
        self.matches(PotFilterKind::Database, Fil::Database(db_id))
    }
}

/// The filter items that are kept out of sight.
#[derive(Clone, Debug)]
pub struct PotFilterExcludes {
    pub excluded: Vec<(PotFilterKind, FilterItemId)>,
}

/// What presets are filtered by within one database.
#[derive(Copy, Clone)]
pub struct FilterInput<'a> {
    pub filters: &'a Filters,
    pub excludes: &'a PotFilterExcludes,
    pub db_favorites: &'a Vec<InnerPresetId>,
}

impl<'a> FilterInput<'a> {
    /// The same input with other filters.
    pub fn with_filters(&self, filters: &'a Filters) -> (r: Self)
        ensures
            r.filters == filters,
            r.excludes == self.excludes,
            r.db_favorites == self.db_favorites,
    {
        FilterInput { filters, excludes: self.excludes, db_favorites: self.db_favorites }
    }
}

/// Where a preset is loaded to.
#[derive(Copy, Clone, Debug, PartialEq, Eq, Structural)]
pub struct DestinationDescriptor {
    pub track: DestinationTrackDescriptor,
    pub fx_index: u32,
}

/// The track that a preset is loaded to.
#[derive(Copy, Clone, Debug, PartialEq, Eq, Structural)]
pub enum DestinationTrackDescriptor {
    SelectedTrack,
    MasterTrack,
    Track(u32),
}

impl DestinationTrackDescriptor {
    /// Whether the track depends on what is selected at the time.
    pub fn is_dynamic(&self) -> (r: bool)
        ensures
            r == (*self == DestinationTrackDescriptor::SelectedTrack),
    {
        match self {
            DestinationTrackDescriptor::SelectedTrack => true,
            _ => false,
        }
    }
}

impl Default for DestinationTrackDescriptor {
    fn default() -> (r: Self)
        ensures
            r == DestinationTrackDescriptor::SelectedTrack,
    {
        DestinationTrackDescriptor::SelectedTrack
    }
}

/// How long the parts of building the collections took, in nanoseconds.
#[derive(Copy, Clone, Debug, PartialEq, Eq, Structural)]
pub struct Stats {
    pub filter_query_duration: u64,
    pub preset_query_duration: u64,
    pub sort_duration: u64,
    pub index_duration: u64,
}

impl Stats {
    /// How long all parts took together.
    pub fn total_query_duration(&self) -> (r: u128)
        ensures
            r == self.filter_query_duration + self.preset_query_duration + self.sort_duration
                + self.index_duration,
    {
        self.filter_query_duration as u128 + self.preset_query_duration as u128
            + self.sort_duration as u128 + self.index_duration as u128
    }
}

/// The filter settings of one kind of database as they are kept between
/// sessions.
#[derive(Clone, Debug, PartialEq, Eq)]
pub struct PersistentNksFilterSettings {
    pub bank: Option<String>,
    pub sub_bank: Option<String>,
    pub category: Option<String>,
    pub sub_category: Option<String>,
    pub mode: Option<String>,
}

#[derive(Clone, Debug, PartialEq, Eq)]
pub struct PersistentFilterSettings {
    pub nks: PersistentNksFilterSettings,
}

/// The state of the browser as it is kept between sessions.
#[derive(Clone, Debug, PartialEq, Eq)]
pub struct PersistentState {
    pub filter_settings: PersistentFilterSettings,
    pub preset_id: Option<String>,
}

/// The state of the browser while it runs.
#[derive(Clone, Debug)]
pub struct RuntimeState {
    pub filters: Filters,
    pub search_expression: String,
    pub use_wildcard_search: bool,
    pub preset_id: Option<PresetId>,
}

impl RuntimeState {
    /// The state that a browser starts with: no filter, no search
    /// expression, no preset. What was kept of an earlier session is not
    /// taken up.
    pub fn load(_persistent_state: &PersistentState) -> (r: Result<Self, &'static str>)
        ensures
            r is Ok,
            r->Ok_0.filters == Filters::spec_empty(),
            r->Ok_0.search_expression@ == Seq::<char>::empty(),
            !r->Ok_0.use_wildcard_search,
            r->Ok_0.preset_id is None,
    {
        let state = RuntimeState {
            filters: Filters::empty(),
            search_expression: String::new(),
            use_wildcard_search: false,
            preset_id: None,
        };
        Ok(state)
    }
}

/// The text of an optional string.
pub open spec fn opt_text(text: Option<String>) -> Option<Seq<char>> {
    match text {
        Some(t) => Some(t@),
        None => None,
    }
}

/// An item that presets can be filtered by, as it is shown.
#[derive(Clone, Debug)]
pub struct FilterItem {
    pub persistent_id: String,
    /// `None` is also a valid filter item! It would match filter `<None>`
    /// (e.g. no category assigned at all)
    pub id: FilterItemId,
    /// Only set for sub filters. If not set, we know it's a top-level filter.
    pub parent_name: Option<String>,
    /// If not set, parent name should be set. It's the most unspecific sub
    /// filter of a top-level filter, so to say.
    pub name: Option<String>,
    pub icon: Option<char>,
    pub more_info: Option<String>,
}

impl FilterItem {
    /// The name that the item is sorted by: its own, else that of its
    /// parent, else nothing.
    pub open spec fn sort_name_spec(self) -> Seq<char> {
        match (self.name, self.parent_name) {
            (Some(n), _) => n@,
            (None, Some(p)) => p@,
            (None, None) => Seq::<char>::empty(),
        }
    }

    /// The name that the item is shown by: its own, else that of its
    /// parent with a star, else nothing.
    pub open spec fn effective_leaf_name_spec(self) -> Seq<char> {
        match (self.name, self.parent_name) {
            (Some(n), _) => n@,
            (None, Some(p)) => p@ + "*"@,
            (None, None) => Seq::<char>::empty(),
        }
    }

    /// The item that matches presets to which no value is assigned.
    pub fn none() -> (r: Self)
        ensures
            r.persistent_id@ == Seq::<char>::empty(),
            r.id == FilterItemId(None),
            r.parent_name is None,
            opt_text(r.name) == Some("<None>"@),
            r.icon is None,
            r.more_info is None,
    {
        FilterItem {
            persistent_id: String::new(),
            id: FilterItemId(None),
            parent_name: None,
            name: Some("<None>".to_owned()),
            icon: None,
            more_info: None,
        }
    }

    /// A top-level item for a value, with a name and an icon. An empty
    /// `more` means that there is no more to say.
    pub fn simple(fil: Fil, name: &str, icon: char, more: &str) -> (r: Self)
        ensures
            r.persistent_id@ == Seq::<char>::empty(),
            r.id == FilterItemId(Some(fil)),
            r.parent_name is None,
            opt_text(r.name) == Some(name@),
            r.icon == Some(icon),
            opt_text(r.more_info) == (if more@.len() == 0 {
                None
            } else {
                Some(more@)
            }),
    {
        FilterItem {
            persistent_id: String::new(),
            id: FilterItemId(Some(fil)),
            parent_name: None,
            name: Some(name.to_owned()),
            icon: Some(icon),
            more_info: if more.is_empty() {
                None
            } else {
                Some(more.to_owned())
            },
        }
    }

    /// The name that the item is shown by.
    pub fn effective_leaf_name(&self) -> (r: String)
        ensures
            r@ == self.effective_leaf_name_spec(),
    {
        match &self.name {
            None => match &self.parent_name {
                None => String::new(),
                Some(n) => n.clone().concat("*"),
            },
            Some(n) => n.clone(),
        }
    }

    /// The name that the item is sorted by.
    pub fn sort_name(&self) -> (r: &str)
        ensures
            r@ == self.sort_name_spec(),
    {
        match &self.name {
            None => match &self.parent_name {
                None => {
                    proof {
                        reveal_strlit("");
                    }
                    ""
                },
                Some(n) => n.as_str(),
            },
            Some(n) => n.as_str(),
        }
    }
}

#[derive(Clone, Debug)]
pub struct Preset {
    pub common: PresetCommon,
    pub kind: PresetKind,
}

impl Preset {
    pub fn new(common: PresetCommon, kind: PresetKind) -> (r: Self)
        ensures
            r.common == common,
            r.kind == kind,
    {
        Preset { common, kind }
    }

    pub fn name(&self) -> (r: &str)
        ensures
            r@ == self.common.name@,
    {
        self.common.name.as_str()
    }
}

#[derive(Clone, Debug)]
pub struct PresetCommon {
    pub persistent_id: String,
    pub name: String,
    pub product_ids: Vec<ProductId>,
    /// Meaning depends on the database.
    pub product_name: Option<String>,
    /// A hash of the contents of the preset, where the database gives one.
    pub content_hash: Option<PersistentHash>,
    /// If the database provides its own preview file, where that would
    /// be. Whether the file is there is not known.
    pub db_specific_preview_file: Option<String>,
}

#[derive(Clone, Debug)]
pub enum PresetKind {
    FileBased(FiledBasedPresetKind),
    Internal(InternalPresetKind),
    DefaultFactory(PluginId),
}

/// The kind of preset that's saved in a separate file.
#[derive(Clone, Debug)]
pub struct FiledBasedPresetKind {
    pub path: String,
    pub file_ext: String,
}

/// The kind of preset that's saved together with the plug-in, not
/// exported to a separate file.
#[derive(Copy, Clone, Debug, PartialEq, Eq, Structural)]
pub struct InternalPresetKind {
    pub plugin_id: Option<PluginId>,
}

/// What was done to make sure that the right plug-in is in place.
#[derive(Copy, Clone, Debug, PartialEq, Eq, Structural)]
pub enum FxEnsureOp {
    Same,
    Added,
    Replaced,
}

#[derive(Copy, Clone, Debug, PartialEq, Eq, Structural)]
pub struct LoadPresetOptions {
    pub window_behavior: LoadPresetWindowBehavior,
}

/// When the window of a plug-in is shown after a preset was loaded.
#[derive(Copy, Clone, Debug, PartialEq, Eq, Structural)]
pub enum LoadPresetWindowBehavior {
    NeverShow,
    ShowOnlyIfPreviouslyShown,
    ShowOnlyIfPreviouslyShownOrNewlyAdded,
    AlwaysShow,
}

impl Default for LoadPresetWindowBehavior {
    fn default() -> (r: Self)
        ensures
            r == LoadPresetWindowBehavior::ShowOnlyIfPreviouslyShown,
    {
        LoadPresetWindowBehavior::ShowOnlyIfPreviouslyShown
    }
}

/// What is to be done with the window of a plug-in.
#[derive(Copy, Clone, Debug, PartialEq, Eq, Structural)]
pub enum WindowAction {
    Leave,
    Show,
    Hide,
}

impl LoadPresetWindowBehavior {
    /// Whether the window is to be open in the end.
    pub open spec fn wants_open(self, was_open_before: bool, now_is_open: bool, op: FxEnsureOp) -> bool {
        match self {
            LoadPresetWindowBehavior::NeverShow => false,
            LoadPresetWindowBehavior::ShowOnlyIfPreviouslyShown => was_open_before,
            LoadPresetWindowBehavior::AlwaysShow => true,
            LoadPresetWindowBehavior::ShowOnlyIfPreviouslyShownOrNewlyAdded => op
                == FxEnsureOp::Added || was_open_before,
        }
    }

    /// What is to be done with a window so that it ends up as wanted:
    /// nothing where it is so already.
    pub open spec fn window_action_spec(
        self,
        now_is_open: bool,
        was_open_before: bool,
        op: FxEnsureOp,
    ) -> WindowAction {
        let wanted = self.wants_open(was_open_before, now_is_open, op);
        if wanted == now_is_open {
            WindowAction::Leave
        } else if wanted {
            WindowAction::Show
        } else {
            WindowAction::Hide
        }
    }

    /// Decides whether the window of a plug-in is to be shown or hidden
    /// after a preset was loaded, given whether it is open now and whether it
    /// was open before.
    pub fn open_or_close(&self, now_is_open: bool, was_open_before: bool, op: FxEnsureOp) -> (r:
        WindowAction)
        ensures
            r == self.window_action_spec(now_is_open, was_open_before, op),
    {
        match self {
            LoadPresetWindowBehavior::NeverShow => {
                if now_is_open {
                    WindowAction::Hide
                } else {
                    WindowAction::Leave
                }
            },
            LoadPresetWindowBehavior::ShowOnlyIfPreviouslyShown => {
                if !was_open_before && now_is_open {
                    WindowAction::Hide
                } else if was_open_before && !now_is_open {
                    WindowAction::Show
                } else {
                    WindowAction::Leave
                }
            },
            LoadPresetWindowBehavior::AlwaysShow => {
                if !now_is_open {
                    WindowAction::Show
                } else {
                    WindowAction::Leave
                }
            },
            LoadPresetWindowBehavior::ShowOnlyIfPreviouslyShownOrNewlyAdded => {
                let added = match op {
                    FxEnsureOp::Added => true,
                    _ => false,
                };
                if added {
                    if !now_is_open {
                        WindowAction::Show
                    } else {
                        WindowAction::Leave
                    }
                } else if !was_open_before && now_is_open {
                    WindowAction::Hide
                } else if was_open_before && !now_is_open {
                    WindowAction::Show
                } else {
                    WindowAction::Leave
                }
            },
        }
    }
}

/// Why a preset could not be loaded.
#[derive(Clone, Debug)]
pub enum LoadPresetError {
    UnsupportedPresetFormat {
        file_extension: String,
        /// `true` if a shim preset file was found but even its format is
        /// not supported.
        is_shim_preset: bool,
    },
    Other(String),
}

impl LoadPresetError {
    /// An error that says `value`.
    pub fn from_text(value: &str) -> (r: Self)
        ensures
            r is Other,
            r->Other_0@ == value@,
    {
        LoadPresetError::Other(value.to_owned())
    }

    /// The error in words.
    pub fn message(&self) -> (r: String)
        ensures
            r@ == (match *self {
                LoadPresetError::UnsupportedPresetFormat { .. } => "Unsupported preset format"@,
                LoadPresetError::Other(text) => text@,
            }),
    {
        match self {
            LoadPresetError::UnsupportedPresetFormat { .. } => "Unsupported preset format".to_owned(),
            LoadPresetError::Other(text) => text.clone(),
        }
    }
}

/// Whether a rebuild waits a moment for more changes.
#[derive(Copy, Clone, Debug, PartialEq, Eq, Structural)]
pub enum Debounce {
    No,
    Yes,
}

/// Whether a file extension is one of an audio file.
pub open spec fn is_audio_file_extension_spec(ext: Seq<char>) -> bool {
    ext == "wav"@ || ext == "aif"@ || ext == "ogg"@ || ext == "mp3"@
}

/// Whether a file extension is one of an audio file.
pub fn is_audio_file_extension(ext: &str) -> (r: bool)
    ensures
        r == is_audio_file_extension_spec(ext@),
{
    let ext = ext.to_owned();
    ext == "wav".to_owned() || ext == "aif".to_owned() || ext == "ogg".to_owned() || ext
        == "mp3".to_owned()
}

/// Which of the files that could serve as the preview of a preset are
/// there.
#[derive(Copy, Clone, Debug, PartialEq, Eq, Structural)]
pub struct PreviewFiles {
    /// Whether the file of a file-based preset is there.
    pub preset_file_exists: bool,
    /// Whether the preview that was recorded for the preset is there.
    pub custom_preview_exists: bool,
    /// Whether the preview that the database names is there.
    pub db_specific_preview_exists: bool,
}

/// The file that serves as the preview of a preset.
#[derive(Copy, Clone, Debug, PartialEq, Eq, Structural)]
pub enum PreviewFile {
    /// The preset itself, which is an audio file.
    PresetFile,
    /// The preview that was recorded for the preset.
    CustomPreview,
    /// The preview that the database names.
    DbSpecificPreview,
}

/// The preview of a preset.
///
/// A preset that is an audio file is its own preview, if the file is
/// there, and has no other. For any other preset a recorded preview goes
/// before the one that the database names.
pub open spec fn preview_file_spec(preset: Preset, files: PreviewFiles) -> Option<PreviewFile> {
    if preset.kind is FileBased && is_audio_file_extension_spec(preset.kind->FileBased_0.file_ext@) {
        if files.preset_file_exists {
            Some(PreviewFile::PresetFile)
        } else {
            None
        }
    } else if files.custom_preview_exists {
        Some(PreviewFile::CustomPreview)
    } else if preset.common.db_specific_preview_file is Some && files.db_specific_preview_exists {
        Some(PreviewFile::DbSpecificPreview)
    } else {
        None
    }
}

/// This looks up the preview file for the given preset, given which of the
/// files in question exist.
///
/// It also exposes audio file presets as preview files, and prefers custom
/// previews over database-specific previews.
pub fn find_preview_file(preset: &Preset, files: &PreviewFiles) -> (r: Option<PreviewFile>)
    ensures
        r == preview_file_spec(*preset, *files),
{
    // If the preset is an audio file and it exists, return that
    match &preset.kind {
        PresetKind::FileBased(kind) => {
            if is_audio_file_extension(kind.file_ext.as_str()) {
                return if files.preset_file_exists {
                    Some(PreviewFile::PresetFile)
                } else {
                    None
                };
            }
        },
        _ => {},
    }
    // If a custom preview file exists, return that
    if files.custom_preview_exists {
        return Some(PreviewFile::CustomPreview);
    }
    // If a database-specific preview file exists, return that
    if preset.common.db_specific_preview_file.is_some() && files.db_specific_preview_exists {
        Some(PreviewFile::DbSpecificPreview)
    } else {
        None
    }
}

/// The preset that comes `amount` places after the current one, among
/// `preset_count` presets.
///
/// Without presets there is none. Without a current preset it is the first,
/// or the last when going backwards. Past either end the count starts over
/// at the other.
pub open spec fn next_preset_index_spec(
    preset_count: u32,
    current_index: Option<u32>,
    amount: i32,
) -> Option<u32> {
    if preset_count == 0 {
        None
    } else {
        match current_index {
            None => if amount < 0 {
                Some((preset_count - 1) as u32)
            } else {
                Some(0)
            },
            Some(current) => {
                let next = current + amount;
                if next < 0 {
                    Some((preset_count - 1) as u32)
                } else if next >= preset_count {
                    Some(0)
                } else {
                    Some(next as u32)
                }
            },
        }
    }
}

/// Finds the preset that comes `amount` places after the current one.
pub fn find_next_preset_index(preset_count: u32, current_index: Option<u32>, amount: i32) -> (r:
    Option<u32>)
    ensures
        r == next_preset_index_spec(preset_count, current_index, amount),
        r is Some ==> r->Some_0 < preset_count,
{
    if preset_count == 0 {
        return None;
    }
    match current_index {
        None => {
            if amount < 0 {
                Some(preset_count - 1)
            } else {
                Some(0)
            }
        },
        Some(current_index) => {
            let next_index: i64 = current_index as i64 + amount as i64;
            if next_index < 0 {
                Some(preset_count - 1)
            } else if next_index >= preset_count as i64 {
                Some(0)
            } else {
                Some(next_index as u32)
            }
        },
    }
}

/// Whether a wildcard pattern matches the whole of a text: `?` stands for
/// exactly one character, `*` for any number of characters, and any other
/// character for itself.
pub open spec fn wild_matches(pattern: Seq<char>, text: Seq<char>) -> bool
    decreases pattern.len(), text.len(),
{
    if pattern.len() == 0 {
        text.len() == 0
    } else if pattern[0] == '*' {
        wild_matches(pattern.drop_first(), text) || (text.len() > 0 && wild_matches(
            pattern,
            text.drop_first(),
        ))
    } else {
        text.len() > 0 && (pattern[0] == '?' || pattern[0] == text[0]) && wild_matches(
            pattern.drop_first(),
            text.drop_first(),
        )
    }
}

/// Whether a text holds another as a part.
pub open spec fn contains_text(text: Seq<char>, part: Seq<char>) -> bool {
    exists|i: int|
        0 <= i && i + part.len() <= text.len() && #[trigger] text.subrange(i, i + part.len())
            == part
}

/// The text that `str::to_lowercase` makes of a text.
pub uninterp spec fn lowercase_of(text: Seq<char>) -> Seq<char>;

/// The text that `str::trim` leaves of a text.
pub uninterp spec fn trimmed(text: Seq<char>) -> Seq<char>;

/// Matches a text against a pattern with `WildMatch::new(..).matches(..)`
/// of the crate wildmatch. Trusted: that the result is as the crate
/// describes it, `?` matching exactly one character and `*` any number of
/// characters, the pattern matching the entire text.
#[verifier::external_body]
fn wild_match(pattern: &str, text: &str) -> (r: bool)
    ensures
        r == wild_matches(pattern@, text@),
{
    WildMatch::new(pattern).matches(text)
}

/// Calls `str::contains` with a string as the pattern. Trusted: that the
/// result says whether the pattern matches a part of the text.
#[verifier::external_body]
fn text_contains(text: &str, part: &str) -> (r: bool)
    ensures
        r == contains_text(text@, part@),
{
    text.contains(part)
}

/// Calls `str::to_lowercase`. Trusted: that the result depends on the text
/// alone.
#[verifier::external_body]
pub(crate) fn to_lowercase(text: &str) -> (r: String)
    ensures
        r@ == lowercase_of(text@),
{
    text.to_lowercase()
}

/// Calls `str::trim`. Trusted: that the result depends on the text alone.
#[verifier::external_body]
fn trim(text: &str) -> (r: String)
    ensures
        r@ == trimmed(text@),
{
    text.trim().to_string()
}

/// Decides whether a text answers to a search expression.
#[derive(Clone, Debug)]
pub struct SearchEvaluator {
    processed_search_expression: String,
    use_wildcards: bool,
}

impl SearchEvaluator {
    /// The search expression as it is matched: trimmed and in lower case.
    pub closed spec fn spec_expression(self) -> Seq<char> {
        self.processed_search_expression@
    }

    /// Whether the expression is taken as a wildcard pattern.
    pub closed spec fn spec_use_wildcards(self) -> bool {
        self.use_wildcards
    }

    /// Whether a text in lower case answers to the expression: every text
    /// answers to an empty expression, a text answers to a wildcard
    /// pattern that matches the whole of it, and to any other expression
    /// that is a part of it.
    pub open spec fn matches_lowercase_spec(self, lowercase_text: Seq<char>) -> bool {
        if self.spec_expression().len() == 0 {
            true
        } else if self.spec_use_wildcards() {
            wild_matches(self.spec_expression(), lowercase_text)
        } else {
            contains_text(lowercase_text, self.spec_expression())
        }
    }

    /// An evaluator for an expression that is trimmed and in lower case
    /// already.
    pub fn from_processed(processed_search_expression: String, use_wildcards: bool) -> (r: Self)
        ensures
            r.spec_expression() == processed_search_expression@,
            r.spec_use_wildcards() == use_wildcards,
    {
        SearchEvaluator { processed_search_expression, use_wildcards }
    }

    /// An evaluator for an expression as it was typed: it is trimmed and
    /// brought to lower case first.
    pub fn new(raw_search_expression: &str, use_wildcards: bool) -> (r: Self)
        ensures
            r.spec_expression() == lowercase_of(trimmed(raw_search_expression@)),
            r.spec_use_wildcards() == use_wildcards,
    {
        let trimmed = trim(raw_search_expression);
        let processed_search_expression = to_lowercase(trimmed.as_str());
        Self::from_processed(processed_search_expression, use_wildcards)
    }

    pub fn processed_search_expression(&self) -> (r: &str)
        ensures
            r@ == self.spec_expression(),
    {
        self.processed_search_expression.as_str()
    }

    pub fn use_wildcards(&self) -> (r: bool)
        ensures
            r == self.spec_use_wildcards(),
    {
        self.use_wildcards
    }

    /// Whether a text that is in lower case already answers to the
    /// expression.
    pub fn matches_lowercase(&self, lowercase_text: &str) -> (r: bool)
        ensures
            r == self.matches_lowercase_spec(lowercase_text@),
    {
        if self.processed_search_expression.as_str().is_empty() {
            return true;
        }
        if self.use_wildcards {
            wild_match(self.processed_search_expression.as_str(), lowercase_text)
        } else {
            text_contains(lowercase_text, self.processed_search_expression.as_str())
        }
    }

    /// Whether a text answers to the expression, whatever its case.
    pub fn matches(&self, text: &str) -> (r: bool)
        ensures
            r == self.matches_lowercase_spec(lowercase_of(text@)),
    {
        if self.processed_search_expression.as_str().is_empty() {
            return true;
        }
        let lowercase_text = to_lowercase(text);
        self.matches_lowercase(lowercase_text.as_str())
    }
}

/// A pattern without wildcards matches itself and nothing else.
pub proof fn law_pattern_without_wildcards_matches_only_itself(pattern: Seq<char>, text: Seq<char>)
    requires
        forall|i: int| 0 <= i < pattern.len() ==> pattern[i] != '*' && pattern[i] != '?',
    ensures
        wild_matches(pattern, text) <==> pattern == text,
    decreases pattern.len(),
{
    if pattern.len() == 0 {
        assert(wild_matches(pattern, text) <==> text.len() == 0);
        if text.len() == 0 {
            assert(pattern =~= text);
        }
    } else {
        if text.len() > 0 {
            law_pattern_without_wildcards_matches_only_itself(
                pattern.drop_first(),
                text.drop_first(),
            );
            if pattern[0] == text[0] && pattern.drop_first() == text.drop_first() {
                assert(pattern =~= seq![pattern[0]] + pattern.drop_first());
                assert(text =~= seq![text[0]] + text.drop_first());
            }
        }
    }
}

} // verus!
