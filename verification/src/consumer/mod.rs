//! Consumer-facing entry surfaces: editor types, runtime host integration,
//! and the library context a consumer pins.

pub mod editor;
pub mod replay;
pub mod runtime;

use vstd::prelude::*;

use crate::interface::{
    ref_model, snapshot_model, LibraryContextSnapshot, LibraryContextSnapshotRef, PinnedLibraryContextView,
};

verus! {

/// The library context a consumer carries: the provider that resolves
/// snapshots (`P`, a handle on it), a snapshot reference and an inline
/// snapshot, each optional.
#[derive(Debug, Clone, PartialEq, Eq, Hash)]
pub struct ConsumerLibraryContextState<P> {
    pub provider: Option<P>,
    pub snapshot_ref: Option<LibraryContextSnapshotRef>,
    pub snapshot: Option<LibraryContextSnapshot>,
}

impl<P> ConsumerLibraryContextState<P> {
    /// A state with no provider, reference or snapshot.
    pub fn new() -> (r: ConsumerLibraryContextState<P>)
        ensures
            r.provider is None,
            r.snapshot_ref is None,
            r.snapshot is None,
    {
        ConsumerLibraryContextState { provider: None, snapshot_ref: None, snapshot: None }
    }

    /// A state holding the given parts.
    pub fn from_parts(
        provider: Option<P>,
        snapshot_ref: Option<LibraryContextSnapshotRef>,
        snapshot: Option<LibraryContextSnapshot>,
    ) -> (r: ConsumerLibraryContextState<P>)
        ensures
            r.provider == provider,
            r.snapshot_ref == snapshot_ref,
            r.snapshot == snapshot,
    {
        ConsumerLibraryContextState { provider, snapshot_ref, snapshot }
    }
}

impl<P: Copy> ConsumerLibraryContextState<P> {
    /// The pinned view of this state: the same provider, copies of the
    /// reference and the snapshot.
    pub fn pinned_view(&self) -> (r: PinnedLibraryContextView<P>)
        ensures
            r.provider == self.provider,
            ref_model(r.snapshot_ref) == ref_model(self.snapshot_ref),
            snapshot_model(r.snapshot) == snapshot_model(self.snapshot),
    {
        let provider: Option<P> = match &self.provider {
            Some(p) => Some(*p),
            None => None,
        };
        PinnedLibraryContextView::new(
            provider,
            match &self.snapshot_ref {
                Some(x) => Some(x),
                None => None,
            },
            match &self.snapshot {
                Some(x) => Some(x),
                None => None,
            },
        )
    }
}

impl<P> Default for ConsumerLibraryContextState<P> {
    fn default() -> (r: ConsumerLibraryContextState<P>)
        ensures
            r.provider is None,
            r.snapshot_ref is None,
            r.snapshot is None,
    {
        ConsumerLibraryContextState::new()
    }
}

} // verus!
