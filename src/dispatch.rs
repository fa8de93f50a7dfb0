use vstd::prelude::*;
use crate::display::{
    ListingItem, PropertySection, item_shows, listing_items, listing_sections, section_is,
    size_text,
};
use crate::listing::ListedFile;

verus! {

/// The first wave of one navigation: the new listing and its name sections.
pub struct ListingBatch {
    pub generation: u64,
    pub items: Vec<ListingItem>,
    pub sections: Vec<Vec<PropertySection>>,
}

/// The second wave of one navigation: the detail sections of each row.
pub struct DetailBatch {
    pub generation: u64,
    pub sections: Vec<Vec<PropertySection>>,
}

/// What the display shows, and the newest navigation generation it has seen.
pub struct DisplayState {
    pub generation: u64,
    pub items: Vec<ListingItem>,
    pub sections: Vec<Vec<PropertySection>>,
}

/// The first wave of navigation `generation`: a row and a name section per
/// listed file.
pub fn listing_batch(generation: u64, listed: &Vec<ListedFile>) -> (r: ListingBatch)
    ensures
        r.generation == generation,
        r.items.len() == listed.len(),
        forall|i: int| 0 <= i < r.items.len() ==> item_shows(#[trigger] r.items@[i], i, listed@[i]),
        r.sections.len() == listed.len(),
        forall|i: int|
            0 <= i < r.sections.len() ==> (#[trigger] r.sections@[i]).len() == 1 && section_is(
                r.sections@[i]@[0],
                "General"@,
                seq![("Filename"@, listed@[i].name.name@), ("Size"@, size_text(listed@[i].record.data_size))],
            ),
{
    ListingBatch { generation, items: listing_items(listed), sections: listing_sections(listed) }
}

/// The display after a listing batch arrives: a batch no older than the
/// newest seen replaces everything; an older one is dropped.
pub open spec fn after_listing(s: DisplayState, b: ListingBatch) -> DisplayState {
    if b.generation >= s.generation {
        DisplayState { generation: b.generation, items: b.items, sections: b.sections }
    } else {
        s
    }
}

/// The display after a detail batch arrives: it replaces the sections only
/// when it belongs to the newest generation seen.
pub open spec fn after_details(s: DisplayState, b: DetailBatch) -> DisplayState {
    if b.generation == s.generation {
        DisplayState { sections: b.sections, ..s }
    } else {
        s
    }
}

impl DisplayState {
    /// An empty display that has seen no navigation.
    pub fn new() -> (r: DisplayState)
        ensures
            r.generation == 0,
            r.items@.len() == 0,
            r.sections@.len() == 0,
    {
        DisplayState { generation: 0, items: Vec::new(), sections: Vec::new() }
    }

    /// Takes a listing batch in; returns whether it was shown (the caller
    /// then resets the scroll position).
    pub fn apply_listing(&mut self, b: ListingBatch) -> (shown: bool)
        ensures
            *final(self) == after_listing(*old(self), b),
            shown == (b.generation >= old(self).generation),
    {
        if b.generation >= self.generation {
            self.generation = b.generation;
            self.items = b.items;
            self.sections = b.sections;
            true
        } else {
            false
        }
    }

    /// Takes a detail batch in; returns whether it was shown.
    pub fn apply_details(&mut self, b: DetailBatch) -> (shown: bool)
        ensures
            *final(self) == after_details(*old(self), b),
            shown == (b.generation == old(self).generation),
    {
        if b.generation == self.generation {
            self.sections = b.sections;
            true
        } else {
            false
        }
    }
}

/// The generation the display has seen never goes back, whichever batch
/// arrives.
pub proof fn law_generation_never_decreases(s: DisplayState, l: ListingBatch, d: DetailBatch)
    ensures
        after_listing(s, l).generation >= s.generation,
        after_details(s, d).generation == s.generation,
{
}

/// A detail batch of any generation but the newest the display has seen
/// leaves the display as it is.
pub proof fn law_other_generation_details_ignored(s: DisplayState, d: DetailBatch)
    requires
        d.generation != s.generation,
    ensures
        after_details(s, d) == s,
{
}

/// A detail batch of an older navigation, arriving after the listing of a
/// newer one, is dropped: the newer listing and its sections stay as they are.
pub proof fn law_stale_details_dropped(s: DisplayState, newer: ListingBatch, stale: DetailBatch)
    requires
        newer.generation >= s.generation,
        stale.generation < newer.generation,
    ensures
        after_details(after_listing(s, newer), stale) == after_listing(s, newer),
        after_listing(s, newer).items == newer.items,
        after_listing(s, newer).sections == newer.sections,
{
}

} // verus!
