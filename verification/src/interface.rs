//! Host-facing table descriptions that structured references resolve against.

use vstd::prelude::*;

verus! {

#[derive(Debug, Clone, PartialEq, Eq, Hash)]
pub struct TableColumnDescriptor {
    pub column_id: String,
    pub column_name: String,
    pub ordinal: u32,
    pub column_range_ref: String,
}

#[derive(Debug, Clone, PartialEq, Eq, Hash)]
pub struct TableDescriptor {
    pub table_id: String,
    pub table_name: String,
    pub workbook_scope_ref: String,
    pub sheet_scope_ref: String,
    pub table_range_ref: String,
    pub header_row_present: bool,
    pub totals_row_present: bool,
    pub columns: Vec<TableColumnDescriptor>,
}

#[derive(Debug, Clone, PartialEq, Eq, Hash)]
pub struct TableRef {
    pub table_id: String,
}

#[derive(Debug, Clone, Copy, PartialEq, Eq, Structural, Hash)]
pub enum TableRegionKind {
    Headers,
    Data,
    Totals,
}

#[derive(Debug, Clone, PartialEq, Eq, Hash)]
pub struct TableCallerRegion {
    pub table_id: String,
    pub region_kind: TableRegionKind,
    pub data_row_offset: Option<u32>,
}


/// Reference to a pinned library context snapshot.
#[derive(Debug, Clone, PartialEq, Eq, Hash)]
pub struct LibraryContextSnapshotRef {
    pub snapshot_id: String,
    pub snapshot_version: String,
}

impl LibraryContextSnapshotRef {
    /// A copy with the same identity and version.
    pub fn duplicate(&self) -> (r: LibraryContextSnapshotRef)
        ensures
            r.snapshot_id@ == self.snapshot_id@,
            r.snapshot_version@ == self.snapshot_version@,
    {
        LibraryContextSnapshotRef { snapshot_id: self.snapshot_id.clone(), snapshot_version: self.snapshot_version.clone() }
    }
}

/// One function surface of a library context snapshot.
#[derive(Debug, Clone, PartialEq, Eq, Hash)]
pub struct LibraryContextSnapshotEntry {
    pub surface_name: String,
    pub canonical_id: Option<String>,
}

/// A library context snapshot: its identity, version and function surfaces.
#[derive(Debug, Clone, PartialEq, Eq, Hash)]
pub struct LibraryContextSnapshot {
    pub snapshot_id: String,
    pub snapshot_version: String,
    pub entries: Vec<LibraryContextSnapshotEntry>,
}

pub struct LibraryContextSnapshotModel {
    pub snapshot_id: Seq<char>,
    pub snapshot_version: Seq<char>,
    pub entries: Seq<(Seq<char>, Option<Seq<char>>)>,
}

pub open spec fn opt_text(o: Option<String>) -> Option<Seq<char>> {
    match o {
        Some(s) => Some(s@),
        None => None,
    }
}

pub open spec fn entry_models(s: Seq<LibraryContextSnapshotEntry>) -> Seq<(Seq<char>, Option<Seq<char>>)> {
    s.map_values(|e: LibraryContextSnapshotEntry| (e.surface_name@, opt_text(e.canonical_id)))
}

impl LibraryContextSnapshot {
    pub open spec fn model(&self) -> LibraryContextSnapshotModel {
        LibraryContextSnapshotModel {
            snapshot_id: self.snapshot_id@,
            snapshot_version: self.snapshot_version@,
            entries: entry_models(self.entries@),
        }
    }

    /// A copy with the same model.
    pub fn duplicate(&self) -> (r: LibraryContextSnapshot)
        ensures
            r.model() == self.model(),
    {
        let mut entries: Vec<LibraryContextSnapshotEntry> = Vec::new();
        let mut i: usize = 0;
        while i < self.entries.len()
            invariant
                i <= self.entries@.len(),
                entry_models(entries@) == entry_models(self.entries@.take(i as int)),
            decreases self.entries.len() - i,
        {
            let e = &self.entries[i];
            let canonical_id = match &e.canonical_id {
                Some(c) => Some(c.clone()),
                None => None,
            };
            let ghost prev = entries@;
            entries.push(LibraryContextSnapshotEntry { surface_name: e.surface_name.clone(), canonical_id });
            let ghost m = (e.surface_name@, opt_text(e.canonical_id));
            assert(entry_models(entries@) =~= entry_models(prev).push(m));
            assert(entry_models(self.entries@.take(i + 1)) =~= entry_models(self.entries@.take(i as int)).push(m));
            i = i + 1;
        }
        assert(self.entries@.take(self.entries@.len() as int) =~= self.entries@);
        LibraryContextSnapshot {
            snapshot_id: self.snapshot_id.clone(),
            snapshot_version: self.snapshot_version.clone(),
            entries,
        }
    }
}

/// The library context a consumer pinned: the provider that resolves
/// snapshots (`P`, a handle on it), a snapshot reference, an inline
/// snapshot, each optional.
#[derive(Debug, Clone, PartialEq, Eq, Hash)]
pub struct PinnedLibraryContextView<P> {
    pub provider: Option<P>,
    pub snapshot_ref: Option<LibraryContextSnapshotRef>,
    pub snapshot: Option<LibraryContextSnapshot>,
}

pub open spec fn ref_model(r: Option<LibraryContextSnapshotRef>) -> Option<(Seq<char>, Seq<char>)> {
    match r {
        Some(x) => Some((x.snapshot_id@, x.snapshot_version@)),
        None => None,
    }
}

pub open spec fn snapshot_model(s: Option<LibraryContextSnapshot>) -> Option<LibraryContextSnapshotModel> {
    match s {
        Some(x) => Some(x.model()),
        None => None,
    }
}

impl<P> PinnedLibraryContextView<P> {
    /// A view holding the provider and copies of the given reference and
    /// snapshot.
    pub fn new(provider: Option<P>, snapshot_ref: Option<&LibraryContextSnapshotRef>, snapshot: Option<&LibraryContextSnapshot>) -> (r: PinnedLibraryContextView<P>)
        ensures
            r.provider == provider,
            ref_model(r.snapshot_ref) == match snapshot_ref { Some(x) => ref_model(Some(*x)), None => None },
            snapshot_model(r.snapshot) == match snapshot { Some(x) => snapshot_model(Some(*x)), None => None },
    {
        PinnedLibraryContextView {
            provider,
            snapshot_ref: match snapshot_ref {
                Some(x) => Some(x.duplicate()),
                None => None,
            },
            snapshot: match snapshot {
                Some(x) => Some(x.duplicate()),
                None => None,
            },
        }
    }
}
} // verus!
