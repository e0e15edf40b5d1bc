//! The filter items that are the same whatever the databases hold, and
//! what a preset file is by its extension.

use vstd::prelude::*;
use crate::pot::{
    is_audio_file_extension, is_audio_file_extension_spec, lowercase_of, opt_text, to_lowercase,
    Fil, FilterItem, FilterItemId, FxEnsureOp, ProductKind,
};

verus! {

/// Whether an item is a top-level item for a value, with a name and an
/// icon.
pub open spec fn is_simple_item(item: FilterItem, fil: Fil, name: Seq<char>, icon: char) -> bool {
    &&& item.id == FilterItemId(Some(fil))
    &&& opt_text(item.name) == Some(name)
    &&& item.icon == Some(icon)
    &&& item.parent_name is None
    &&& item.persistent_id@.len() == 0
}

/// Whether these are the items of the filter by availability, in their order.
pub open spec fn are_availability_items(items: Seq<FilterItem>) -> bool {
    &&& items.len() == 2
    &&& is_simple_item(items[0], Fil::Boolean(false), "Not available"@, '❌')
    &&& items[0].more_info is None
    &&& is_simple_item(items[1], Fil::Boolean(true), "Available"@, '✔')
    &&& opt_text(items[1].more_info) == Some(
        "Usually means that the corresponding plug-in has been scanned before by REAPER.\nFor Komplete, it means that the preset file itself is available."@,
    )
}

/// The two items of the filter by availability: first the one for presets
/// that are not available.
pub fn create_filter_items_is_available() -> (r: Vec<FilterItem>)
    ensures
        are_availability_items(r@),
{
    proof {
        reveal_strlit("");
        reveal_strlit(
            "Usually means that the corresponding plug-in has been scanned before by REAPER.\nFor Komplete, it means that the preset file itself is available.",
        );
    }
    vec![
        FilterItem::simple(Fil::Boolean(false), "Not available", '❌', ""),
        FilterItem::simple(
            Fil::Boolean(true),
            "Available",
            '✔',
            "Usually means that the corresponding plug-in has been scanned before by REAPER.\nFor Komplete, it means that the preset file itself is available.",
        ),
    ]
}

/// Whether these are the items of the filter by support, in their order.
pub open spec fn are_support_items(items: Seq<FilterItem>) -> bool {
    &&& items.len() == 2
    &&& is_simple_item(items[0], Fil::Boolean(false), "Not supported"@, '☹')
    &&& items[0].more_info is None
    &&& is_simple_item(items[1], Fil::Boolean(true), "Supported"@, '☺')
    &&& opt_text(items[1].more_info) == Some(
        "Means that Pot Browser can automatically load the preset into the corresponding plug-in."@,
    )
}

/// The two items of the filter by support: first the one for presets that
/// cannot be loaded.
pub fn create_filter_items_is_supported() -> (r: Vec<FilterItem>)
    ensures
        are_support_items(r@),
{
    proof {
        reveal_strlit("");
        reveal_strlit(
            "Means that Pot Browser can automatically load the preset into the corresponding plug-in.",
        );
    }
    vec![
        FilterItem::simple(Fil::Boolean(false), "Not supported", '☹', ""),
        FilterItem::simple(
            Fil::Boolean(true),
            "Supported",
            '☺',
            "Means that Pot Browser can automatically load the preset into the corresponding plug-in.",
        ),
    ]
}

/// Whether these are the items of the filter by favorites, in their order.
pub open spec fn are_favorite_items(items: Seq<FilterItem>) -> bool {
    &&& items.len() == 2
    &&& is_simple_item(items[0], Fil::Boolean(false), "Not favorite"@, '☆')
    &&& items[0].more_info is None
    &&& is_simple_item(items[1], Fil::Boolean(true), "Favorite"@, '★')
    &&& items[1].more_info is None
}

/// The two items of the filter by favorites: first the one for presets
/// that are no favorites.
pub fn create_filter_items_is_favorite() -> (r: Vec<FilterItem>)
    ensures
        are_favorite_items(r@),
{
    proof {
        reveal_strlit("");
    }
    vec![
        FilterItem::simple(Fil::Boolean(false), "Not favorite", '☆', ""),
        FilterItem::simple(Fil::Boolean(true), "Favorite", '★', ""),
    ]
}

/// Whether these are the items of the filter by product kind, in their order.
pub open spec fn are_product_kind_items(items: Seq<FilterItem>) -> bool {
    &&& items.len() == 5
    &&& items[0].id == FilterItemId(None)
    &&& opt_text(items[0].name) == Some("<None>"@)
    &&& items[0].icon is None
    &&& items[0].parent_name is None
    &&& items[0].more_info is None
    &&& is_simple_item(items[1], Fil::ProductKind(ProductKind::Instrument), "Instrument"@, '🎹')
    &&& is_simple_item(items[2], Fil::ProductKind(ProductKind::Effect), "Effect"@, '✨')
    &&& is_simple_item(items[3], Fil::ProductKind(ProductKind::Loop), "Loop"@, '➿')
    &&& is_simple_item(items[4], Fil::ProductKind(ProductKind::OneShot), "One shot"@, '💥')
}

/// The items of the filter by product kind: first the one for presets
/// without a kind, then instruments, effects, loops and one shots.
pub fn create_filter_items_product_kind() -> (r: Vec<FilterItem>)
    ensures
        are_product_kind_items(r@),
{
    vec![
        FilterItem::none(),
        FilterItem::simple(Fil::ProductKind(ProductKind::Instrument), "Instrument", '🎹', ""),
        FilterItem::simple(Fil::ProductKind(ProductKind::Effect), "Effect", '✨', ""),
        FilterItem::simple(Fil::ProductKind(ProductKind::Loop), "Loop", '➿', ""),
        FilterItem::simple(Fil::ProductKind(ProductKind::OneShot), "One shot", '💥', ""),
    ]
}

/// Whether these are the items of the filter by origin, in their order.
pub open spec fn are_origin_items(items: Seq<FilterItem>) -> bool {
    &&& items.len() == 2
    &&& is_simple_item(items[0], Fil::Boolean(false), "Factory preset"@, '🏭')
    &&& items[0].more_info is None
    &&& is_simple_item(items[1], Fil::Boolean(true), "User preset"@, '🕵')
    &&& items[1].more_info is None
}

/// The two items of the filter by origin: first the one for factory
/// presets.
pub fn create_filter_items_is_user() -> (r: Vec<FilterItem>)
    ensures
        are_origin_items(r@),
{
    proof {
        reveal_strlit("");
    }
    vec![
        FilterItem::simple(Fil::Boolean(false), "Factory preset", '🏭', ""),
        FilterItem::simple(Fil::Boolean(true), "User preset", '🕵', ""),
    ]
}

/// What a preset file holds, as far as it can be loaded.
#[derive(Copy, Clone, Debug, PartialEq, Eq, Structural)]
pub enum PresetFileFormat {
    Audio,
    Nks,
    RfxChain,
    TrackTemplate,
}

/// What a file with the given extension holds, given the extension in
/// lower case as well: an audio file is known by its extension as it is
/// written, any other file by its extension in lower case.
pub open spec fn preset_file_format_spec(ext: Seq<char>, lowercase_ext: Seq<char>) -> Option<
    PresetFileFormat,
> {
    if is_audio_file_extension_spec(ext) {
        Some(PresetFileFormat::Audio)
    } else if lowercase_ext == "nksf"@ || lowercase_ext == "nksfx"@ {
        Some(PresetFileFormat::Nks)
    } else if lowercase_ext == "rfxchain"@ {
        Some(PresetFileFormat::RfxChain)
    } else if lowercase_ext == "rtracktemplate"@ {
        Some(PresetFileFormat::TrackTemplate)
    } else {
        None
    }
}

/// Tells what a file holds by its extension, which is given as it is
/// written and in lower case.
pub fn preset_file_format_of(ext: &str, lowercase_ext: &str) -> (r: Option<PresetFileFormat>)
    ensures
        r == preset_file_format_spec(ext@, lowercase_ext@),
{
    if is_audio_file_extension(ext) {
        return Some(PresetFileFormat::Audio);
    }
    let lowercase_ext = lowercase_ext.to_owned();
    if lowercase_ext == "nksf".to_owned() || lowercase_ext == "nksfx".to_owned() {
        Some(PresetFileFormat::Nks)
    } else if lowercase_ext == "rfxchain".to_owned() {
        Some(PresetFileFormat::RfxChain)
    } else if lowercase_ext == "rtracktemplate".to_owned() {
        Some(PresetFileFormat::TrackTemplate)
    } else {
        None
    }
}

/// Tells what a file holds by its extension.
pub fn preset_file_format(ext: &str) -> (r: Option<PresetFileFormat>)
    ensures
        r == preset_file_format_spec(ext@, lowercase_of(ext@)),
{
    let lowercase_ext = to_lowercase(ext);
    preset_file_format_of(ext, lowercase_ext.as_str())
}

/// What has to be done so that the plug-in with the wanted identifier is
/// in place, where the plug-in that is there, if any, has the identifier
/// `existing_id`: nothing if it is the same, else it is put in or takes the
/// place of the other.
pub fn fx_ensure_op(existing_id: Option<&str>, wanted_id: &str) -> (r: FxEnsureOp)
    ensures
        r == (match existing_id {
            None => FxEnsureOp::Added,
            Some(id) => if id@ == wanted_id@ {
                FxEnsureOp::Same
            } else {
                FxEnsureOp::Replaced
            },
        }),
{
    match existing_id {
        None => FxEnsureOp::Added,
        Some(id) => {
            if id.to_owned() == wanted_id.to_owned() {
                FxEnsureOp::Same
            } else {
                FxEnsureOp::Replaced
            }
        },
    }
}

} // verus!
