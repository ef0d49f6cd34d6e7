use oxfml_core::consumer::ConsumerLibraryContextState;
use oxfml_core::interface::LibraryContextSnapshotRef;

#[test]
fn library_context_state_keeps_its_provider() {
    let empty: ConsumerLibraryContextState<&str> = ConsumerLibraryContextState::new();
    assert!(empty.provider.is_none() && empty.snapshot_ref.is_none() && empty.snapshot.is_none());
    let parts: ConsumerLibraryContextState<&str> = ConsumerLibraryContextState::from_parts(None, None, None);
    assert_eq!(parts, empty);
    let snapshot_ref = LibraryContextSnapshotRef { snapshot_id: "lib:1".to_string(), snapshot_version: "v1".to_string() };
    let state = ConsumerLibraryContextState::from_parts(Some("provider:host"), Some(snapshot_ref.clone()), None);
    let view = state.pinned_view();
    assert_eq!(view.provider, Some("provider:host"));
    assert_eq!(view.snapshot_ref, Some(snapshot_ref));
    assert!(view.snapshot.is_none());
}
