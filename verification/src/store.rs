//! The geometry store: one record in one slot.
//!
//! The slot is the content of the geometry file, held in memory. The host
//! program fills it from the file when it starts and writes it back whenever
//! `save` reports a change. A missing file is an empty slot.

use crate::geometry::WindowGeometry;
use crate::json::{document_record, read_document};
use crate::record::{
    canonical_record, encode, is_canonical, lemma_canonical_record, read_canonical, record_text,
};
use vstd::prelude::*;

verus! {

/// The record that a text holds. A canonical text stands for its record; any
/// other text is read as a JSON document.
pub open spec fn decoded(text: Seq<u8>) -> Option<WindowGeometry> {
    if is_canonical(text) {
        Some(canonical_record(text))
    } else {
        document_record(text)
    }
}

/// What `load` finds in a slot.
pub open spec fn loaded(slot: Option<Seq<u8>>) -> Option<WindowGeometry> {
    match slot {
        Some(text) => decoded(text),
        None => None,
    }
}

/// The slot after `save`: the canonical text of the record, or the slot as
/// it was where the record has no area.
pub open spec fn saved(slot: Option<Seq<u8>>, g: WindowGeometry) -> Option<Seq<u8>> {
    if g.persistable() {
        Some(record_text(g))
    } else {
        slot
    }
}

/// A record that was saved is the record that is loaded.
pub proof fn lemma_saved_record_loads_back(slot: Option<Seq<u8>>, g: WindowGeometry)
    requires
        g.persistable(),
    ensures
        loaded(saved(slot, g)) == Some(g),
{
    lemma_canonical_record(g);
}

/// An empty slot holds no record, and neither does a text that is neither
/// canonical nor a JSON document with the four members in range.
pub proof fn lemma_missing_or_corrupted_loads_nothing(slot: Option<Seq<u8>>)
    requires
        slot matches Some(text) ==> !is_canonical(text) && document_record(text).is_none(),
    ensures
        loaded(slot).is_none(),
{
}

/// Saving the geometry of a collapsed window changes nothing: the slot, and
/// with it the record that a later `load` finds, stay as they were.
pub proof fn lemma_collapsed_window_keeps_the_record(slot: Option<Seq<u8>>, g: WindowGeometry)
    requires
        g.width == 0 || g.height == 0,
    ensures
        saved(slot, g) == slot,
        loaded(saved(slot, g)) == loaded(slot),
{
}

/// Saving twice leaves what the second save alone would leave, whenever the
/// second record has an area.
pub proof fn lemma_last_save_wins(slot: Option<Seq<u8>>, first: WindowGeometry, last: WindowGeometry)
    requires
        last.persistable(),
    ensures
        saved(saved(slot, first), last) == saved(slot, last),
        loaded(saved(saved(slot, first), last)) == Some(last),
{
    lemma_canonical_record(last);
}

/// Reads the record that a text holds.
pub fn decode(text: &[u8]) -> (r: Option<WindowGeometry>)
    ensures
        r == decoded(text@),
{
    match read_canonical(text) {
        Some(g) => Some(g),
        None => read_document(text),
    }
}

/// The slot that holds the stored record.
pub struct GeometryStore {
    contents: Option<Vec<u8>>,
}

impl View for GeometryStore {
    type V = Option<Seq<u8>>;

    closed spec fn view(&self) -> Option<Seq<u8>> {
        match self.contents {
            Some(bytes) => Some(bytes@),
            None => None,
        }
    }
}

impl GeometryStore {
    /// A store over what the geometry file held; `None` where there was no
    /// file or it could not be read.
    pub fn open(contents: Option<Vec<u8>>) -> (store: GeometryStore)
        ensures
            store@ == match contents {
                Some(bytes) => Some(bytes@),
                None => None,
            },
    {
        GeometryStore { contents }
    }

    /// The stored record. An empty slot, or one whose content is no record,
    /// gives nothing.
    pub fn load(&self) -> (r: Option<WindowGeometry>)
        ensures
            r == loaded(self@),
            self@.is_none() ==> r.is_none(),
    {
        match &self.contents {
            Some(bytes) => decode(bytes.as_slice()),
            None => None,
        }
    }

    /// Stores a record, and tells whether the slot was written. The geometry
    /// of a window without area is not stored: the slot keeps what it held.
    pub fn save(&mut self, geometry: &WindowGeometry) -> (written: bool)
        ensures
            written == geometry.persistable(),
            final(self)@ == saved(old(self)@, *geometry),
            geometry.persistable() ==> loaded(final(self)@) == Some(*geometry),
            !geometry.persistable() ==> final(self)@ == old(self)@,
    {
        if geometry.is_persistable() {
            self.contents = Some(encode(geometry));
            proof {
                lemma_saved_record_loads_back(old(self)@, *geometry);
            }
            true
        } else {
            false
        }
    }

    /// The bytes that the geometry file is to hold, if any.
    pub fn contents(&self) -> (bytes: Option<&[u8]>)
        ensures
            match bytes {
                Some(b) => self@ == Some(b@),
                None => self@.is_none(),
            },
    {
        match &self.contents {
            Some(bytes) => Some(bytes.as_slice()),
            None => None,
        }
    }
}

} // verus!
