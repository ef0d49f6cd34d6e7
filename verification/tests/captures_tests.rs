use oxfml_core::binding::reference::{
    AddressMode, CellCoord, CellRef, NameKind, NameRef, NormalizedReference, ReferenceExpr,
};
use oxfml_core::binding::{BinaryOp, BoundExpr};
use oxfml_core::captures::collect_free_bound_references;

fn cell(row: u32, col: u32) -> NormalizedReference {
    NormalizedReference::Cell(CellRef {
        workbook_id: "book:1".to_string(),
        sheet_id: "sheet:1".to_string(),
        coord: CellCoord { row, col },
        address_mode: AddressMode { row_absolute: false, col_absolute: false },
        caller_anchor_used: true,
    })
}

fn name(text: &str, kind: NameKind) -> NormalizedReference {
    NormalizedReference::Name(NameRef {
        name: text.to_string(),
        workbook_id: "book:1".to_string(),
        sheet_id: "sheet:1".to_string(),
        kind,
        caller_context_dependent: false,
    })
}

fn atom(r: NormalizedReference) -> BoundExpr {
    BoundExpr::Reference(ReferenceExpr::Atom(r))
}

fn add(l: BoundExpr, r: BoundExpr) -> BoundExpr {
    BoundExpr::Binary { op: BinaryOp::Add, left: Box::new(l), right: Box::new(r) }
}

fn call(name: &str, args: Vec<BoundExpr>) -> BoundExpr {
    BoundExpr::FunctionCall { function_name: name.to_string(), args }
}

fn free(expr: &BoundExpr, bound: Vec<&str>) -> Vec<NormalizedReference> {
    let bound: Vec<String> = bound.iter().map(|b| b.to_string()).collect();
    let mut out = Vec::new();
    collect_free_bound_references(expr, &bound, &mut out);
    out
}

#[test]
fn lambda_parameters_are_not_free_and_repeats_count_once() {
    let body = add(add(atom(name("x", NameKind::HelperLocal)), atom(cell(1, 1))), add(atom(name("Rate", NameKind::ValueLike)), atom(cell(1, 1))));
    let lambda = call("lambda", vec![BoundExpr::HelperParameterName("x".to_string()), body]);
    assert_eq!(free(&lambda, vec![]), vec![cell(1, 1), name("Rate", NameKind::ValueLike)]);
}

#[test]
fn let_values_are_read_before_their_names_are_bound() {
    let expr = call(
        "LET",
        vec![
            BoundExpr::HelperParameterName("a".to_string()),
            add(atom(name("a", NameKind::HelperLocal)), atom(cell(1, 1))),
            add(atom(name("a", NameKind::HelperLocal)), atom(cell(2, 2))),
        ],
    );
    assert_eq!(free(&expr, vec![]), vec![name("a", NameKind::HelperLocal), cell(1, 1), cell(2, 2)]);
}

#[test]
fn supplied_bound_names_shadow_helper_locals_only() {
    let expr = add(atom(name("x", NameKind::HelperLocal)), atom(name("X", NameKind::ValueLike)));
    assert_eq!(free(&expr, vec!["X"]), vec![name("X", NameKind::ValueLike)]);
    assert_eq!(free(&expr, vec![]).len(), 2);
    let literal = BoundExpr::NumberLiteral("1".to_string());
    assert!(free(&literal, vec![]).is_empty());
}
