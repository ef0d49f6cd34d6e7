use oxfml_core::binding::reference::{
    AddressMode, CellCoord, CellRef, ExternalRef, NormalizedReference, ReferenceExpr,
};
use oxfml_core::binding::{BoundExpr, BoundFormula};
use oxfml_core::carrier::{
    validate_conditional_formatting_formula, validate_data_validation_formula, CarrierRestrictionCode,
    CarrierValidationDisposition, ConditionalFormattingCarrierSpec, DataValidationCarrierSpec,
};
use oxfml_core::source::FormulaChannelKind;

fn cell(row: u32, col: u32) -> NormalizedReference {
    NormalizedReference::Cell(CellRef {
        workbook_id: "book:1".to_string(),
        sheet_id: "sheet:default".to_string(),
        coord: CellCoord { row, col },
        address_mode: AddressMode { row_absolute: false, col_absolute: false },
        caller_anchor_used: false,
    })
}

fn atom(r: NormalizedReference) -> ReferenceExpr {
    ReferenceExpr::Atom(r)
}

fn formula(root: BoundExpr, refs: Vec<NormalizedReference>) -> BoundFormula {
    BoundFormula {
        formula_stable_id: "formula:1".to_string(),
        green_tree_key: "tree:1".to_string(),
        structure_context_version: "structure:1".to_string(),
        bind_context_fingerprint: "fp".to_string(),
        bind_hash: "hash".to_string(),
        root,
        root_expression_is_grouped: false,
        normalized_references: refs,
        dependency_seeds: Vec::new(),
        unresolved_references: Vec::new(),
        capability_requirements: Vec::new(),
        diagnostics: Vec::new(),
    }
}

fn cf_spec() -> ConditionalFormattingCarrierSpec {
    ConditionalFormattingCarrierSpec {
        target_ranges: vec!["A1:A10".to_string(), "C1".to_string()],
        rule_kind: "expression".to_string(),
        operator: None,
        threshold_fields: Vec::new(),
    }
}

fn dv_spec() -> DataValidationCarrierSpec {
    DataValidationCarrierSpec {
        target_ranges: vec!["B2".to_string()],
        validation_kind: "custom".to_string(),
        operator: Some("between".to_string()),
        formula_slot: "formula1".to_string(),
    }
}

#[test]
fn plain_formula_is_admitted() {
    let f = formula(BoundExpr::Reference(atom(cell(1, 1))), vec![cell(1, 1)]);
    let cf = validate_conditional_formatting_formula(&f, &cf_spec());
    assert_eq!(cf.formula_channel_kind, FormulaChannelKind::ConditionalFormatting);
    assert_eq!(cf.restriction_profile_id, "cf_restricted_not_equal_to_dv");
    assert_eq!(cf.disposition, CarrierValidationDisposition::Admitted);
    assert!(cf.restriction_codes.is_empty());
    assert_eq!(cf.host_field_facts, vec!["target_ranges=A1:A10,C1".to_string(), "rule_kind=expression".to_string()]);
}

#[test]
fn union_and_spill_are_restricted_once_each() {
    let union = ReferenceExpr::Union {
        left: Box::new(atom(cell(1, 1))),
        right: Box::new(ReferenceExpr::Union { left: Box::new(atom(cell(2, 1))), right: Box::new(atom(cell(3, 1))) }),
    };
    let spill = ReferenceExpr::Spill { anchor: Box::new(atom(cell(4, 1))) };
    let root = BoundExpr::FunctionCall {
        function_name: "SUM".to_string(),
        args: vec![BoundExpr::Reference(union), BoundExpr::Reference(spill)],
    };
    let f = formula(root, vec![cell(1, 1)]);
    let cf = validate_conditional_formatting_formula(&f, &cf_spec());
    assert_eq!(cf.disposition, CarrierValidationDisposition::Rejected);
    assert_eq!(
        cf.restriction_codes,
        vec![CarrierRestrictionCode::UnionReferenceOperatorNotAdmitted, CarrierRestrictionCode::SpillReferenceOperatorNotAdmitted]
    );
    let dv = validate_data_validation_formula(&f, &dv_spec());
    assert_eq!(dv.restriction_codes, cf.restriction_codes);
}

#[test]
fn external_reference_is_restricted() {
    let external = NormalizedReference::External(ExternalRef {
        external_target_id: "[Book2.xlsx]".to_string(),
        sheet_selector_summary: "Sheet1".to_string(),
        capability_requirement: "external_reference".to_string(),
        external_reference_class: "workbook_sheet_qualified".to_string(),
        target_summary: "[Book2.xlsx]Sheet1!A1".to_string(),
    });
    let intersection = ReferenceExpr::Intersection { left: Box::new(atom(cell(1, 1))), right: Box::new(atom(cell(1, 2))) };
    let f = formula(BoundExpr::Reference(intersection), vec![cell(1, 1), external]);
    let dv = validate_data_validation_formula(&f, &dv_spec());
    assert_eq!(dv.formula_channel_kind, FormulaChannelKind::DataValidation);
    assert_eq!(dv.restriction_profile_id, "dv_restricted_not_equal_to_cf");
    assert_eq!(dv.disposition, CarrierValidationDisposition::Rejected);
    assert_eq!(
        dv.restriction_codes,
        vec![CarrierRestrictionCode::IntersectionReferenceOperatorNotAdmitted, CarrierRestrictionCode::ExternalReferenceNotAdmitted]
    );
    assert_eq!(
        dv.host_field_facts,
        vec![
            "target_ranges=B2".to_string(),
            "validation_kind=custom".to_string(),
            "formula_slot=formula1".to_string(),
            "operator=between".to_string(),
        ]
    );
}

#[test]
fn threshold_fields_become_a_fact() {
    let mut spec = cf_spec();
    spec.operator = Some("greaterThan".to_string());
    spec.threshold_fields = vec!["10".to_string(), "20".to_string()];
    let f = formula(BoundExpr::NumberLiteral("1".to_string()), Vec::new());
    let cf = validate_conditional_formatting_formula(&f, &spec);
    assert_eq!(cf.host_field_facts[2], "operator=greaterThan");
    assert_eq!(cf.host_field_facts[3], "threshold_fields=10,20");
}
