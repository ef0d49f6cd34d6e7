use oxfml_core::binding::reference::{CellCoord, CellRef, AddressMode, NormalizedReference};
use oxfml_core::binding::{BoundExpr, BoundFormula, UnresolvedReferenceRecord};
use oxfml_core::consumer::runtime::prepare::{
    runtime_oxfunc_bridge_metadata_for_plan, runtime_prepared_formula_identity, RuntimeLocus, RuntimePlanSummary,
};
use oxfml_core::consumer::runtime::RuntimeOxFuncBridgeMetadata;
use oxfml_core::source::{FormulaChannelKind, FormulaSourceRecord, FormulaStableId, FormulaTextVersion};

fn plan(versions: Vec<&str>) -> RuntimePlanSummary {
    RuntimePlanSummary {
        semantic_plan_key: "plan:1".to_string(),
        library_context_snapshot_ref: None,
        dispatch_digest: "dispatch:abc".to_string(),
        helper_digest: "helpers:none".to_string(),
        semantic_kernel_metadata_versions: versions.iter().map(|v| v.to_string()).collect(),
        arg_admission_metadata_versions: Vec::new(),
    }
}

fn no_override() -> RuntimeOxFuncBridgeMetadata {
    RuntimeOxFuncBridgeMetadata { semantic_kernel_metadata_version: None, arg_admission_metadata_version: None }
}

fn source() -> FormulaSourceRecord {
    FormulaSourceRecord {
        formula_stable_id: FormulaStableId("formula:1".to_string()),
        formula_text_version: FormulaTextVersion(2),
        entered_formula_text: "=A1+x".to_string(),
        stored_formula_text: None,
        formula_channel_kind: FormulaChannelKind::WorksheetA1,
    }
}

fn bound() -> BoundFormula {
    BoundFormula {
        formula_stable_id: "formula:1".to_string(),
        green_tree_key: "tree:1".to_string(),
        structure_context_version: "struct:v1".to_string(),
        bind_context_fingerprint: "ctx".to_string(),
        bind_hash: "bind:1".to_string(),
        root: BoundExpr::OmittedArgument,
        root_expression_is_grouped: false,
        normalized_references: vec![NormalizedReference::Cell(CellRef {
            workbook_id: "book:1".to_string(),
            sheet_id: "sheet:1".to_string(),
            coord: CellCoord { row: 1, col: 1 },
            address_mode: AddressMode { row_absolute: false, col_absolute: false },
            caller_anchor_used: true,
        })],
        dependency_seeds: Vec::new(),
        unresolved_references: vec![UnresolvedReferenceRecord {
            source_text: "x".to_string(),
            reason: "unknown identifier or name".to_string(),
        }],
        capability_requirements: Vec::new(),
        diagnostics: Vec::new(),
    }
}

fn locus(row: u32) -> RuntimeLocus {
    RuntimeLocus { sheet_id: "sheet:1".to_string(), row, col: 4 }
}

#[test]
fn bridge_metadata_is_overridden_or_summarized_from_the_plan() {
    let summarized = runtime_oxfunc_bridge_metadata_for_plan(&plan(vec!["k2", "k1", "k2"]), &no_override());
    assert_eq!(summarized.semantic_kernel_metadata_version.as_deref(), Some("semantic_kernel_metadata.set.v1;k1|k2"));
    assert_eq!(summarized.arg_admission_metadata_version, None);
    let single = runtime_oxfunc_bridge_metadata_for_plan(&plan(vec!["k1", "k1"]), &no_override());
    assert_eq!(single.semantic_kernel_metadata_version.as_deref(), Some("k1"));
    let overridden = runtime_oxfunc_bridge_metadata_for_plan(
        &plan(vec!["k1"]),
        &RuntimeOxFuncBridgeMetadata { semantic_kernel_metadata_version: Some("pinned".to_string()), arg_admission_metadata_version: None },
    );
    assert_eq!(overridden.semantic_kernel_metadata_version.as_deref(), Some("pinned"));
}

fn identity(row: u32) -> oxfml_core::consumer::runtime::RuntimePreparedFormulaIdentity {
    runtime_prepared_formula_identity(
        &source(),
        &bound(),
        Vec::new(),
        &"token:1".to_string(),
        &plan(vec!["k1"]),
        &locus(row),
        &no_override(),
        None,
        Vec::new(),
        Vec::new(),
        None,
        Vec::new(),
        None,
    )
}

#[test]
fn prepared_identity_carries_its_inputs_and_keys() {
    let id = identity(3);
    assert_eq!(id.formula_stable_id, "formula:1");
    assert_eq!(id.formula_text_version, 2);
    assert_eq!(id.formula_token, "token:1");
    assert_eq!(id.caller_context_key.as_deref(), Some("locus:sheet:1:3:4"));
    assert_eq!(id.semantic_kernel_metadata_version.as_deref(), Some("k1"));
    assert_eq!(id.plan_template.plan_template_key, "plan:1");
    assert_eq!(id.plan_template.dispatch_skeleton_key, "dispatch:abc");
    assert_eq!(id.plan_template.template_holes.len(), 2);
    assert_eq!(id.hole_binding.binding_count, 2);
    assert_eq!(id.formal_references.len(), 2);
    assert_eq!(id.prepared_formula_key.len(), 16);
    assert_eq!(id.hole_binding.hole_binding_fingerprint.len(), 16);
    assert_eq!(id.prepared_formula_key, identity(3).prepared_formula_key);
    assert_ne!(id.prepared_formula_key, identity(5).prepared_formula_key);
    assert_eq!(id.hole_binding.hole_binding_fingerprint, identity(5).hole_binding.hole_binding_fingerprint);
    assert_eq!(id.projection_status, "current_floor:derived_from_public_runtime_prepare");
}
