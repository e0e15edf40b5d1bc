//! The filter items of each kind that the browser shows.

use vstd::prelude::*;
use crate::pot::constant_filters::{
    are_availability_items, are_favorite_items, are_origin_items, are_product_kind_items,
    are_support_items, create_filter_items_is_available, create_filter_items_is_favorite,
    create_filter_items_is_supported, create_filter_items_is_user,
    create_filter_items_product_kind,
};
use crate::pot::{FilterItem, FilterItemId, PotFilterKind};

verus! {

/// A set of filter kinds.
#[derive(Copy, Clone, Debug, PartialEq, Eq, Structural)]
pub struct PotFilterKindSet {
    pub database: bool,
    pub is_available: bool,
    pub is_supported: bool,
    pub is_user: bool,
    pub is_favorite: bool,
    pub product_kind: bool,
    pub bank: bool,
    pub sub_bank: bool,
    pub category: bool,
    pub sub_category: bool,
    pub mode: bool,
}

impl PotFilterKindSet {
    /// Whether the set holds a kind.
    pub open spec fn holds(self, kind: PotFilterKind) -> bool {
        match kind {
            PotFilterKind::Database => self.database,
            PotFilterKind::IsAvailable => self.is_available,
            PotFilterKind::IsSupported => self.is_supported,
            PotFilterKind::IsUser => self.is_user,
            PotFilterKind::IsFavorite => self.is_favorite,
            PotFilterKind::ProductKind => self.product_kind,
            PotFilterKind::Bank => self.bank,
            PotFilterKind::SubBank => self.sub_bank,
            PotFilterKind::Category => self.category,
            PotFilterKind::SubCategory => self.sub_category,
            PotFilterKind::Mode => self.mode,
        }
    }

    /// The set of all kinds.
    pub fn all() -> (r: Self)
        ensures
            forall|kind: PotFilterKind| r.holds(kind),
    {
        PotFilterKindSet {
            database: true,
            is_available: true,
            is_supported: true,
            is_user: true,
            is_favorite: true,
            product_kind: true,
            bank: true,
            sub_bank: true,
            category: true,
            sub_category: true,
            mode: true,
        }
    }

    /// The set without a kind.
    pub fn empty() -> (r: Self)
        ensures
            forall|kind: PotFilterKind| !r.holds(kind),
    {
        PotFilterKindSet {
            database: false,
            is_available: false,
            is_supported: false,
            is_user: false,
            is_favorite: false,
            product_kind: false,
            bank: false,
            sub_bank: false,
            category: false,
            sub_category: false,
            mode: false,
        }
    }

    pub fn contains(&self, kind: PotFilterKind) -> (r: bool)
        ensures
            r == self.holds(kind),
    {
        match kind {
            PotFilterKind::Database => self.database,
            PotFilterKind::IsAvailable => self.is_available,
            PotFilterKind::IsSupported => self.is_supported,
            PotFilterKind::IsUser => self.is_user,
            PotFilterKind::IsFavorite => self.is_favorite,
            PotFilterKind::ProductKind => self.product_kind,
            PotFilterKind::Bank => self.bank,
            PotFilterKind::SubBank => self.sub_bank,
            PotFilterKind::Category => self.category,
            PotFilterKind::SubCategory => self.sub_category,
            PotFilterKind::Mode => self.mode,
        }
    }

    /// Puts a kind into the set.
    pub fn insert(&mut self, kind: PotFilterKind)
        ensures
            final(self).holds(kind),
            forall|other: PotFilterKind|
                other != kind ==> final(self).holds(other) == old(self).holds(other),
    {
        match kind {
            PotFilterKind::Database => {
                self.database = true;
            },
            PotFilterKind::IsAvailable => {
                self.is_available = true;
            },
            PotFilterKind::IsSupported => {
                self.is_supported = true;
            },
            PotFilterKind::IsUser => {
                self.is_user = true;
            },
            PotFilterKind::IsFavorite => {
                self.is_favorite = true;
            },
            PotFilterKind::ProductKind => {
                self.product_kind = true;
            },
            PotFilterKind::Bank => {
                self.bank = true;
            },
            PotFilterKind::SubBank => {
                self.sub_bank = true;
            },
            PotFilterKind::Category => {
                self.category = true;
            },
            PotFilterKind::SubCategory => {
                self.sub_category = true;
            },
            PotFilterKind::Mode => {
                self.mode = true;
            },
        }
    }
}

/// The filter items of each kind, in the order in which they are shown.
pub struct FilterItemCollections {
    pub database: Vec<FilterItem>,
    pub is_available: Vec<FilterItem>,
    pub is_supported: Vec<FilterItem>,
    pub is_user: Vec<FilterItem>,
    pub is_favorite: Vec<FilterItem>,
    pub product_kind: Vec<FilterItem>,
    pub bank: Vec<FilterItem>,
    pub sub_bank: Vec<FilterItem>,
    pub category: Vec<FilterItem>,
    pub sub_category: Vec<FilterItem>,
    pub mode: Vec<FilterItem>,
}

/// Whether `place` is the first place in a list of items at which the item
/// has the given id.
pub open spec fn is_first_with_id(items: Seq<FilterItem>, place: int, id: FilterItemId) -> bool {
    &&& 0 <= place < items.len()
    &&& items[place].id == id
    &&& forall|j: int| 0 <= j < place ==> items[j].id != id
}

impl FilterItemCollections {
    /// The items of a kind.
    pub open spec fn items(self, kind: PotFilterKind) -> Seq<FilterItem> {
        match kind {
            PotFilterKind::Database => self.database@,
            PotFilterKind::IsAvailable => self.is_available@,
            PotFilterKind::IsSupported => self.is_supported@,
            PotFilterKind::IsUser => self.is_user@,
            PotFilterKind::IsFavorite => self.is_favorite@,
            PotFilterKind::ProductKind => self.product_kind@,
            PotFilterKind::Bank => self.bank@,
            PotFilterKind::SubBank => self.sub_bank@,
            PotFilterKind::Category => self.category@,
            PotFilterKind::SubCategory => self.sub_category@,
            PotFilterKind::Mode => self.mode@,
        }
    }

    /// Collections without items.
    pub fn empty() -> (r: Self)
        ensures
            forall|kind: PotFilterKind| r.items(kind).len() == 0,
    {
        FilterItemCollections {
            database: Vec::new(),
            is_available: Vec::new(),
            is_supported: Vec::new(),
            is_user: Vec::new(),
            is_favorite: Vec::new(),
            product_kind: Vec::new(),
            bank: Vec::new(),
            sub_bank: Vec::new(),
            category: Vec::new(),
            sub_category: Vec::new(),
            mode: Vec::new(),
        }
    }

    pub fn get(&self, kind: PotFilterKind) -> (r: &Vec<FilterItem>)
        ensures
            r@ == self.items(kind),
    {
        match kind {
            PotFilterKind::Database => &self.database,
            PotFilterKind::IsAvailable => &self.is_available,
            PotFilterKind::IsSupported => &self.is_supported,
            PotFilterKind::IsUser => &self.is_user,
            PotFilterKind::IsFavorite => &self.is_favorite,
            PotFilterKind::ProductKind => &self.product_kind,
            PotFilterKind::Bank => &self.bank,
            PotFilterKind::SubBank => &self.sub_bank,
            PotFilterKind::Category => &self.category,
            PotFilterKind::SubCategory => &self.sub_category,
            PotFilterKind::Mode => &self.mode,
        }
    }

    /// Puts the given items in place of those of a kind, and leaves the
    /// other kinds as they are.
    pub fn set(&mut self, kind: PotFilterKind, items: Vec<FilterItem>)
        ensures
            final(self).items(kind) == items@,
            forall|other: PotFilterKind|
                other != kind ==> final(self).items(other) == old(self).items(other),
    {
        match kind {
            PotFilterKind::Database => {
                self.database = items;
            },
            PotFilterKind::IsAvailable => {
                self.is_available = items;
            },
            PotFilterKind::IsSupported => {
                self.is_supported = items;
            },
            PotFilterKind::IsUser => {
                self.is_user = items;
            },
            PotFilterKind::IsFavorite => {
                self.is_favorite = items;
            },
            PotFilterKind::ProductKind => {
                self.product_kind = items;
            },
            PotFilterKind::Bank => {
                self.bank = items;
            },
            PotFilterKind::SubBank => {
                self.sub_bank = items;
            },
            PotFilterKind::Category => {
                self.category = items;
            },
            PotFilterKind::SubCategory => {
                self.sub_category = items;
            },
            PotFilterKind::Mode => {
                self.mode = items;
            },
        }
    }

    /// The number of items of a kind.
    pub fn count_filter_items(&self, kind: PotFilterKind) -> (r: usize)
        ensures
            r == self.items(kind).len(),
    {
        self.get(kind).len()
    }

    /// The item of a kind at a place, if there is that place.
    pub fn find_filter_item_at_index(&self, kind: PotFilterKind, index: u32) -> (r: Option<
        &FilterItem,
    >)
        ensures
            r is Some <==> index < self.items(kind).len(),
            r is Some ==> *r->Some_0 == self.items(kind)[index as int],
    {
        let items = self.get(kind);
        if (index as usize) < items.len() {
            Some(&items[index as usize])
        } else {
            None
        }
    }

    /// The id of the item of a kind at a place, if there is that place.
    pub fn find_filter_item_id_at_index(&self, kind: PotFilterKind, index: u32) -> (r: Option<
        FilterItemId,
    >)
        ensures
            r == (if index < self.items(kind).len() {
                Some(self.items(kind)[index as int].id)
            } else {
                None
            }),
    {
        match self.find_filter_item_at_index(kind, index) {
            Some(item) => Some(item.id),
            None => None,
        }
    }

    /// The first item of a kind with the given id, and its place, if there
    /// is one.
    pub fn find_filter_item_and_index_by_id(&self, kind: PotFilterKind, id: FilterItemId) -> (r:
        Option<(u32, &FilterItem)>)
        ensures
            match r {
                Some((index, item)) => is_first_with_id(self.items(kind), index as int, id)
                    && *item == self.items(kind)[index as int],
                None => forall|j: int|
                    0 <= j < self.items(kind).len() && j <= u32::MAX ==> self.items(kind)[j].id
                        != id,
            },
    {
        let items = self.get(kind);
        let mut i: usize = 0;
        while i < items.len() && i <= u32::MAX as usize
            invariant
                i <= items.len(),
                items@ == self.items(kind),
                forall|j: int| 0 <= j < i ==> items@[j].id != id,
            decreases items.len() - i,
        {
            if items[i].id == id {
                return Some((i as u32, &items[i]));
            }
            i += 1;
        }
        None
    }

    /// The place of the first item of a kind with the given id.
    pub fn find_index_of_filter_item(&self, kind: PotFilterKind, id: FilterItemId) -> (r: Option<
        u32,
    >)
        ensures
            match r {
                Some(index) => is_first_with_id(self.items(kind), index as int, id),
                None => forall|j: int|
                    0 <= j < self.items(kind).len() && j <= u32::MAX ==> self.items(kind)[j].id
                        != id,
            },
    {
        match self.find_filter_item_and_index_by_id(kind, id) {
            Some((index, _)) => Some(index),
            None => None,
        }
    }

    /// The first item of a kind with the given id.
    pub fn find_filter_item_by_id(&self, kind: PotFilterKind, id: FilterItemId) -> (r: Option<
        &FilterItem,
    >)
        ensures
            match r {
                Some(item) => exists|index: int|
                    #[trigger] is_first_with_id(self.items(kind), index, id) && *item
                        == self.items(kind)[index],
                None => forall|j: int|
                    0 <= j < self.items(kind).len() && j <= u32::MAX ==> self.items(kind)[j].id
                        != id,
            },
    {
        match self.find_filter_item_and_index_by_id(kind, id) {
            Some((index, item)) => {
                assert(is_first_with_id(self.items(kind), index as int, id));
                Some(item)
            },
            None => None,
        }
    }
}

/// The kinds whose items are the same whatever the databases hold.
pub open spec fn is_constant_kind(kind: PotFilterKind) -> bool {
    kind == PotFilterKind::IsAvailable || kind == PotFilterKind::IsSupported || kind
        == PotFilterKind::IsFavorite || kind == PotFilterKind::IsUser || kind
        == PotFilterKind::ProductKind
}

/// Whether these are the constant items of a kind.
pub open spec fn are_constant_items(kind: PotFilterKind, items: Seq<FilterItem>) -> bool {
    match kind {
        PotFilterKind::IsAvailable => are_availability_items(items),
        PotFilterKind::IsSupported => are_support_items(items),
        PotFilterKind::IsFavorite => are_favorite_items(items),
        PotFilterKind::IsUser => are_origin_items(items),
        PotFilterKind::ProductKind => are_product_kind_items(items),
        _ => false,
    }
}

/// Puts the constant filter items in place for each kind that is affected,
/// and leaves every other kind as it is.
pub fn add_constant_filter_items(
    affected_kinds: &PotFilterKindSet,
    collections: &mut FilterItemCollections,
)
    ensures
        forall|kind: PotFilterKind|
            is_constant_kind(kind) && affected_kinds.holds(kind) ==> are_constant_items(
                kind,
                #[trigger] final(collections).items(kind),
            ),
        forall|kind: PotFilterKind|
            !(is_constant_kind(kind) && affected_kinds.holds(kind)) ==> #[trigger] final(collections)
                .items(kind) == old(collections).items(kind),
{
    if affected_kinds.contains(PotFilterKind::IsAvailable) {
        collections.set(PotFilterKind::IsAvailable, create_filter_items_is_available());
    }
    if affected_kinds.contains(PotFilterKind::IsSupported) {
        collections.set(PotFilterKind::IsSupported, create_filter_items_is_supported());
    }
    if affected_kinds.contains(PotFilterKind::IsFavorite) {
        collections.set(PotFilterKind::IsFavorite, create_filter_items_is_favorite());
    }
    if affected_kinds.contains(PotFilterKind::IsUser) {
        collections.set(PotFilterKind::IsUser, create_filter_items_is_user());
    }
    if affected_kinds.contains(PotFilterKind::ProductKind) {
        collections.set(PotFilterKind::ProductKind, create_filter_items_product_kind());
    }
}

} // verus!
