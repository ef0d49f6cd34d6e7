use oxfml_core::consumer::runtime::{
    RuntimeFormalReference, RuntimeHoleBindingIdentity, RuntimePlanTemplateIdentity, RuntimePreparedFormulaIdentity,
    RuntimeTemplateHole,
};
use oxfml_core::interface::LibraryContextSnapshotRef;

fn identity() -> RuntimePreparedFormulaIdentity {
    RuntimePreparedFormulaIdentity {
        prepared_formula_key: "prepared:abc".to_string(),
        formula_stable_id: "formula:1".to_string(),
        formula_text_version: 3,
        formula_token: "token:1".to_string(),
        library_context_snapshot_ref: Some(LibraryContextSnapshotRef {
            snapshot_id: "lib:1".to_string(),
            snapshot_version: "v1".to_string(),
        }),
        structure_context_version: "struct:v1".to_string(),
        caller_context_key: Some("locus:sheet:1:1".to_string()),
        semantic_kernel_metadata_version: None,
        arg_admission_metadata_version: None,
        host_formula_context: None,
        host_name_bind_results: Vec::new(),
        host_reference_bind_results: Vec::new(),
        registry_snapshot_identity: None,
        capability_overlay_identity: None,
        registry_capability_denials: Vec::new(),
        table_context_fingerprint: None,
        structured_reference_bind_records: Vec::new(),
        plan_template: RuntimePlanTemplateIdentity {
            shape_key: None,
            dispatch_skeleton_key: "dispatch".to_string(),
            plan_template_key: "plan".to_string(),
            folded_plan_key: None,
            template_holes: vec![RuntimeTemplateHole {
                hole_id: "hole:reference:0".to_string(),
                ordinal: 0,
                path: Some("sheet!R1C1".to_string()),
                hole_kind: "RefOrValueHole".to_string(),
                hole_kind_key: "RefOrValueHole:cell".to_string(),
            }],
            projection_status: "current_floor:template_key_and_reference_holes".to_string(),
        },
        hole_binding: RuntimeHoleBindingIdentity {
            hole_binding_fingerprint: "fp".to_string(),
            binding_count: 1,
            projection_status: "status".to_string(),
        },
        formal_references: vec![RuntimeFormalReference {
            reference_handle: "ref:0".to_string(),
            reference_descriptor: "sheet!R1C1".to_string(),
            reference_family: "cell".to_string(),
            caller_context_dependent: false,
            host_mappable_identity: Some("sheet!R1C1".to_string()),
            linked_hole_id: Some("hole:reference:0".to_string()),
            structured_reference_bind_record_handle: None,
        }],
        projection_status: "current_floor:runtime_identity".to_string(),
    }
}

#[test]
fn package_carries_the_identity_and_its_parts() {
    let id = identity();
    let package = id.prepared_formula_package();
    assert_eq!(package.package_key, "prepared:abc");
    assert_eq!(package.identity, id);
    assert_eq!(package.plan_template, id.plan_template);
    assert_eq!(package.hole_binding, id.hole_binding);
    assert_eq!(package.formal_references, id.formal_references);
    assert!(package.structured_reference_bind_records.is_empty());
    assert_eq!(package.projection_status, "current_floor:runtime_identity_package");
}
