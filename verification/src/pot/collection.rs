//! The presets that the browser shows, in the order in which it shows them,
//! and the unit that moves through them.

use indexmap::IndexSet;
use std::collections::hash_map::RandomState;
use vstd::prelude::*;
use crate::pot::filter_items::{is_first_with_id, FilterItemCollections};
use crate::pot::{
    find_next_preset_index, next_preset_index_spec, DatabaseId, DestinationDescriptor,
    DestinationTrackDescriptor, FilterItem, FilterItemId, Filters, InnerPresetId, PotFilterKind, PresetId,
    RuntimeState,
};

verus! {

/// The set of the crate indexmap that keeps its items in the order in
/// which they were put in.
#[verifier::external_type_specification]
#[verifier::external_body]
#[verifier::reject_recursive_types(T)]
#[verifier::reject_recursive_types(S)]
pub struct ExIndexSet<T, S>(IndexSet<T, S>);

/// The items of a set in their order: for each preset its database and
/// its number within it.
pub uninterp spec fn set_items(set: IndexSet<(u32, u32), RandomState>) -> Seq<(u32, u32)>;

/// Calls `IndexSet::new`. Trusted: that the new set holds nothing.
#[verifier::external_body]
fn set_new() -> (set: IndexSet<(u32, u32), RandomState>)
    ensures
        set_items(set) == Seq::<(u32, u32)>::empty(),
{
    IndexSet::new()
}

/// Calls `IndexSet::len`. Trusted: that the result is the number of items.
#[verifier::external_body]
fn set_len(set: &IndexSet<(u32, u32), RandomState>) -> (len: usize)
    ensures
        len == set_items(*set).len(),
{
    set.len()
}

/// Calls `IndexSet::insert`. Trusted: that an item which the set holds
/// already leaves the set as it is, with the result `false`, and that any
/// other item is put after the last one, with the result `true`.
#[verifier::external_body]
fn set_insert(set: &mut IndexSet<(u32, u32), RandomState>, item: (u32, u32)) -> (inserted: bool)
    ensures
        inserted == !set_items(*old(set)).contains(item),
        set_items(*final(set)) == (if inserted {
            set_items(*old(set)).push(item)
        } else {
            set_items(*old(set))
        }),
{
    set.insert(item)
}

/// Calls `IndexSet::get_index_of`. Trusted: that the result is the one
/// place at which the set holds the item, or none if it does not hold it.
#[verifier::external_body]
fn set_get_index_of(set: &IndexSet<(u32, u32), RandomState>, item: (u32, u32)) -> (index: Option<
    usize,
>)
    ensures
        match index {
            Some(i) => i < set_items(*set).len() && set_items(*set)[i as int] == item && forall|
                j: int,
            |
                0 <= j < set_items(*set).len() && set_items(*set)[j] == item ==> j == i,
            None => !set_items(*set).contains(item),
        },
{
    set.get_index_of(&item)
}

/// Calls `IndexSet::get_index`. Trusted: that the result is the item at
/// the given place, or none if the set has no such place.
#[verifier::external_body]
fn set_get_index(set: &IndexSet<(u32, u32), RandomState>, index: usize) -> (item: Option<(u32, u32)>)
    ensures
        item == (if index < set_items(*set).len() {
            Some(set_items(*set)[index as int])
        } else {
            None
        }),
{
    set.get_index(index).copied()
}

/// The preset that a pair of numbers stands for.
pub open spec fn preset_of(item: (u32, u32)) -> PresetId {
    PresetId { database_id: DatabaseId(item.0), preset_id: InnerPresetId(item.1) }
}

/// The pair of numbers that stands for a preset.
pub open spec fn item_of(id: PresetId) -> (u32, u32) {
    (id.database_id.0, id.preset_id.0)
}

/// A place in the collection as it is told: the largest number there is
/// for a place beyond it.
pub open spec fn place_number(index: int) -> u32 {
    if index > u32::MAX {
        u32::MAX
    } else {
        index as u32
    }
}

fn place_number_of(index: usize) -> (r: u32)
    ensures
        r == place_number(index as int),
{
    if index > u32::MAX as usize {
        u32::MAX
    } else {
        index as u32
    }
}

/// The presets of a list in their order, each taken the first time it is
/// named.
pub open spec fn first_occurrences(ids: Seq<PresetId>) -> Seq<PresetId>
    decreases ids.len(),
{
    if ids.len() == 0 {
        Seq::<PresetId>::empty()
    } else {
        let before = first_occurrences(ids.drop_last());
        if before.contains(ids.last()) {
            before
        } else {
            before.push(ids.last())
        }
    }
}

/// The presets that are shown, each once, in the order in which they are
/// shown.
pub struct PresetCollection {
    ids: IndexSet<(u32, u32), RandomState>,
}

impl View for PresetCollection {
    type V = Seq<PresetId>;

    closed spec fn view(&self) -> Seq<PresetId> {
        Seq::new(set_items(self.ids).len(), |i: int| preset_of(set_items(self.ids)[i]))
    }
}

impl PresetCollection {
    /// A collection without presets.
    pub fn new() -> (r: Self)
        ensures
            r@ == Seq::<PresetId>::empty(),
    {
        let collection = PresetCollection { ids: set_new() };
        assert(collection@ =~= Seq::<PresetId>::empty());
        collection
    }

    /// Puts a preset after the last one, unless the collection holds it
    /// already. Says whether it was put in.
    pub fn insert(&mut self, id: PresetId) -> (inserted: bool)
        ensures
            inserted == !old(self)@.contains(id),
            final(self)@ == (if inserted {
                old(self)@.push(id)
            } else {
                old(self)@
            }),
    {
        let ghost before = set_items(self.ids);
        let inserted = set_insert(&mut self.ids, (id.database_id.0, id.preset_id.0));
        proof {
            if before.contains(item_of(id)) {
                let k = choose|k: int| 0 <= k < before.len() && before[k] == item_of(id);
                assert(old(self)@[k] == id);
            }
            if old(self)@.contains(id) {
                let k = choose|k: int| 0 <= k < old(self)@.len() && old(self)@[k] == id;
                assert(before[k] == item_of(id));
            }
            if inserted {
                assert(self@ =~= old(self)@.push(id));
            } else {
                assert(self@ =~= old(self)@);
            }
        }
        inserted
    }

    /// The collection of the given presets in their order, each taken the
    /// first time it is named.
    pub fn from_ids(ids: &Vec<PresetId>) -> (r: Self)
        ensures
            r@ == first_occurrences(ids@),
    {
        let mut collection = Self::new();
        let mut i: usize = 0;
        assert(ids@.take(0) =~= Seq::<PresetId>::empty());
        while i < ids.len()
            invariant
                i <= ids.len(),
                collection@ == first_occurrences(ids@.take(i as int)),
            decreases ids.len() - i,
        {
            proof {
                assert(ids@.take(i + 1).drop_last() =~= ids@.take(i as int));
                assert(ids@.take(i + 1).last() == ids@[i as int]);
            }
            collection.insert(ids[i]);
            i += 1;
        }
        assert(ids@.take(ids.len() as int) =~= ids@);
        collection
    }

    /// The number of presets.
    pub fn preset_count(&self) -> (r: u32)
        ensures
            r == place_number(self@.len() as int),
    {
        place_number_of(set_len(&self.ids))
    }

    /// Whether `place` is the one place at which the collection holds a
    /// preset.
    pub open spec fn is_place_of(self, place: int, id: PresetId) -> bool {
        &&& 0 <= place < self@.len()
        &&& self@[place] == id
        &&& forall|j: int| 0 <= j < self@.len() && self@[j] == id ==> j == place
    }

    /// The place of a preset, if the collection holds it.
    pub fn find_index_of_preset(&self, id: PresetId) -> (r: Option<u32>)
        ensures
            match r {
                Some(index) => exists|i: int|
                    #[trigger] self.is_place_of(i, id) && index == place_number(i),
                None => !self@.contains(id),
            },
    {
        match set_get_index_of(&self.ids, (id.database_id.0, id.preset_id.0)) {
            Some(index) => {
                proof {
                    assert(self@[index as int] == id);
                    assert forall|j: int| 0 <= j < self@.len() && self@[j] == id implies j
                        == index by {
                        assert(set_items(self.ids)[j] == item_of(id));
                    }
                    assert(self.is_place_of(index as int, id));
                }
                Some(place_number_of(index))
            },
            None => {
                proof {
                    if self@.contains(id) {
                        let k = choose|k: int| 0 <= k < self@.len() && self@[k] == id;
                        assert(set_items(self.ids)[k] == item_of(id));
                    }
                }
                None
            },
        }
    }

    /// The preset at a place, if the collection has that place.
    pub fn find_preset_id_at_index(&self, index: u32) -> (r: Option<PresetId>)
        ensures
            r == (if index < self@.len() {
                Some(self@[index as int])
            } else {
                None
            }),
    {
        match set_get_index(&self.ids, index as usize) {
            Some(item) => Some(
                PresetId { database_id: DatabaseId(item.0), preset_id: InnerPresetId(item.1) },
            ),
            None => None,
        }
    }
}

/// What the browser tells when something about it has changed.
#[derive(Copy, Clone, Debug, PartialEq, Eq, Structural)]
pub enum PotStateChangedEvent {
    FilterItemChanged { kind: PotFilterKind, filter: Option<FilterItemId> },
    PresetChanged { id: Option<PresetId> },
    IndexesRebuilt,
}

/// The unit that browses the presets: what is filtered by, which presets
/// there are, which one is picked, and where it is loaded to.
pub struct RuntimePotUnit {
    pub runtime_state: RuntimeState,
    pub filter_item_collections: FilterItemCollections,
    pub preset_collection: PresetCollection,
    pub wasted_runs: u32,
    pub destination_descriptor: DestinationDescriptor,
    pub name_track_after_preset: bool,
    pub show_excluded_filter_items: bool,
}

impl RuntimePotUnit {
    /// Whether the unit is as one that has just been made: nothing
    /// filtered or searched by, no filter item, no preset, none picked, and
    /// it loads to the selected track and names the track after the preset.
    pub open spec fn is_fresh(self) -> bool {
        &&& self.runtime_state.filters == Filters::spec_empty()
        &&& self.runtime_state.search_expression@ == Seq::<char>::empty()
        &&& !self.runtime_state.use_wildcard_search
        &&& self.runtime_state.preset_id is None
        &&& forall|kind: PotFilterKind| self.filter_item_collections.items(kind).len() == 0
        &&& self.preset_collection@ == Seq::<PresetId>::empty()
        &&& self.wasted_runs == 0
        &&& self.destination_descriptor == (DestinationDescriptor {
            track: DestinationTrackDescriptor::SelectedTrack,
            fx_index: 0,
        })
        &&& self.name_track_after_preset
        &&& !self.show_excluded_filter_items
    }

    /// A unit with the given state and no presets: it loads to the
    /// selected track and names the track after the preset.
    pub fn new(runtime_state: RuntimeState) -> (r: Self)
        ensures
            r.runtime_state == runtime_state,
            forall|kind: PotFilterKind| r.filter_item_collections.items(kind).len() == 0,
            r.preset_collection@ == Seq::<PresetId>::empty(),
            r.wasted_runs == 0,
            r.destination_descriptor == (DestinationDescriptor {
                track: DestinationTrackDescriptor::SelectedTrack,
                fx_index: 0,
            }),
            r.name_track_after_preset,
            !r.show_excluded_filter_items,
    {
        RuntimePotUnit {
            runtime_state,
            filter_item_collections: FilterItemCollections::empty(),
            preset_collection: PresetCollection::new(),
            wasted_runs: 0,
            destination_descriptor: DestinationDescriptor {
                track: DestinationTrackDescriptor::SelectedTrack,
                fx_index: 0,
            },
            name_track_after_preset: true,
            show_excluded_filter_items: false,
        }
    }

    pub fn state(&self) -> (r: &RuntimeState)
        ensures
            *r == self.runtime_state,
    {
        &self.runtime_state
    }

    pub fn preset_id(&self) -> (r: Option<PresetId>)
        ensures
            r == self.runtime_state.preset_id,
    {
        self.runtime_state.preset_id
    }

    /// Picks a preset, or none, and says what is to be told of it.
    pub fn set_preset_id(&mut self, id: Option<PresetId>) -> (r: PotStateChangedEvent)
        ensures
            r == (PotStateChangedEvent::PresetChanged { id }),
            final(self).runtime_state.preset_id == id,
            final(self).runtime_state.filters == old(self).runtime_state.filters,
            final(self).runtime_state.search_expression == old(self).runtime_state.search_expression,
            final(self).runtime_state.use_wildcard_search == old(
                self,
            ).runtime_state.use_wildcard_search,
            final(self).preset_collection@ == old(self).preset_collection@,
    {
        self.runtime_state.preset_id = id;
        PotStateChangedEvent::PresetChanged { id }
    }

    pub fn filters(&self) -> (r: &Filters)
        ensures
            *r == self.runtime_state.filters,
    {
        &self.runtime_state.filters
    }

    pub fn get_filter(&self, kind: PotFilterKind) -> (r: Option<FilterItemId>)
        ensures
            r == self.runtime_state.filters.spec_get(kind),
    {
        self.runtime_state.filters.get(kind)
    }

    pub fn show_excluded_filter_items(&self) -> (r: bool)
        ensures
            r == self.show_excluded_filter_items,
    {
        self.show_excluded_filter_items
    }

    pub fn preset_count(&self) -> (r: u32)
        ensures
            r == place_number(self.preset_collection@.len() as int),
    {
        self.preset_collection.preset_count()
    }

    pub fn find_index_of_preset(&self, id: PresetId) -> (r: Option<u32>)
        ensures
            match r {
                Some(index) => exists|i: int|
                    #[trigger] self.preset_collection.is_place_of(i, id) && index == place_number(
                        i,
                    ),
                None => !self.preset_collection@.contains(id),
            },
    {
        self.preset_collection.find_index_of_preset(id)
    }

    pub fn find_preset_id_at_index(&self, index: u32) -> (r: Option<PresetId>)
        ensures
            r == (if index < self.preset_collection@.len() {
                Some(self.preset_collection@[index as int])
            } else {
                None
            }),
    {
        self.preset_collection.find_preset_id_at_index(index)
    }

    /// The place of the preset that comes `amount` places after the one
    /// that is picked. Where none is picked, or the one that is picked is
    /// not among the presets, it is the first place, or the last when going
    /// backwards.
    pub fn find_next_preset_index(&self, amount: i32) -> (r: Option<u32>)
        ensures
            r is Some ==> r->Some_0 < place_number(self.preset_collection@.len() as int),
            r is None <==> self.preset_collection@.len() == 0,
            (self.runtime_state.preset_id is None || !self.preset_collection@.contains(
                self.runtime_state.preset_id->Some_0,
            )) ==> r == next_preset_index_spec(
                place_number(self.preset_collection@.len() as int),
                None,
                amount,
            ),
            forall|i: int|
                0 <= i < self.preset_collection@.len() && self.runtime_state.preset_id == Some(
                    self.preset_collection@[i],
                ) && self.preset_collection@.len() <= u32::MAX ==> r == next_preset_index_spec(
                    self.preset_collection@.len() as u32,
                    Some(i as u32),
                    amount,
                ),
    {
        let preset_count = self.preset_count();
        let current = match self.runtime_state.preset_id {
            Some(id) => self.find_index_of_preset(id),
            None => None,
        };
        find_next_preset_index(preset_count, current, amount)
    }

    /// The number of filter items of a kind.
    pub fn count_filter_items(&self, kind: PotFilterKind) -> (r: u32)
        ensures
            r == place_number(self.filter_item_collections.items(kind).len() as int),
    {
        place_number_of(self.filter_item_collections.count_filter_items(kind))
    }

    pub fn find_filter_item_id_at_index(&self, kind: PotFilterKind, index: u32) -> (r: Option<
        FilterItemId,
    >)
        ensures
            r == (if index < self.filter_item_collections.items(kind).len() {
                Some(self.filter_item_collections.items(kind)[index as int].id)
            } else {
                None
            }),
    {
        self.filter_item_collections.find_filter_item_id_at_index(kind, index)
    }

    pub fn find_filter_item_at_index(&self, kind: PotFilterKind, index: u32) -> (r: Option<
        &FilterItem,
    >)
        ensures
            r is Some <==> index < self.filter_item_collections.items(kind).len(),
            r is Some ==> *r->Some_0 == self.filter_item_collections.items(kind)[index as int],
    {
        self.filter_item_collections.find_filter_item_at_index(kind, index)
    }

    pub fn find_index_of_filter_item(&self, kind: PotFilterKind, id: FilterItemId) -> (r: Option<
        u32,
    >)
        ensures
            match r {
                Some(index) => is_first_with_id(
                    self.filter_item_collections.items(kind),
                    index as int,
                    id,
                ),
                None => forall|j: int|
                    0 <= j < self.filter_item_collections.items(kind).len() && j <= u32::MAX
                        ==> self.filter_item_collections.items(kind)[j].id != id,
            },
    {
        self.filter_item_collections.find_index_of_filter_item(kind, id)
    }

    pub fn find_filter_item_by_id(&self, kind: PotFilterKind, id: FilterItemId) -> (r: Option<
        &FilterItem,
    >)
        ensures
            match r {
                Some(item) => exists|index: int|
                    #[trigger] is_first_with_id(self.filter_item_collections.items(kind), index, id)
                        && *item == self.filter_item_collections.items(kind)[index],
                None => forall|j: int|
                    0 <= j < self.filter_item_collections.items(kind).len() && j <= u32::MAX
                        ==> self.filter_item_collections.items(kind)[j].id != id,
            },
    {
        self.filter_item_collections.find_filter_item_by_id(kind, id)
    }
}

} // verus!
