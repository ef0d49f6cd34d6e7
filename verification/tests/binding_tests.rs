use oxfml_core::binding::reference::{NameKind, NormalizedReference, ReferenceExpr};
use oxfml_core::binding::{
    bind_formula, bind_formula_incremental, BindContext, BindRequest, BinaryOp, BoundExpr, BuiltinFunctionMeta,
    DefinedName,
};
use oxfml_core::source::{FormulaChannelKind, FormulaSourceRecord, FormulaStableId, FormulaTextVersion, TextSpan};
use oxfml_core::syntax::{GreenChild, GreenNode, GreenToken, GreenTreeRoot, SyntaxKind, TokenKind};

fn token(kind: TokenKind, text: &str) -> GreenChild {
    GreenChild::Token(GreenToken { kind, text: text.to_string(), span: TextSpan { start: 0, len: text.len() } })
}

fn node(kind: SyntaxKind, children: Vec<GreenChild>) -> GreenChild {
    GreenChild::Node(Box::new(GreenNode { kind, span: TextSpan { start: 0, len: 0 }, children }))
}

fn ident(text: &str) -> GreenChild {
    node(SyntaxKind::IdentifierExpr, vec![token(TokenKind::Identifier, text)])
}

fn number(text: &str) -> GreenChild {
    node(SyntaxKind::NumberLiteralExpr, vec![token(TokenKind::Number, text)])
}

fn tree(expr: GreenChild) -> GreenTreeRoot {
    GreenTreeRoot {
        green_tree_key: "tree:1".to_string(),
        root: GreenNode { kind: SyntaxKind::FormulaRoot, span: TextSpan { start: 0, len: 0 }, children: vec![expr] },
    }
}

fn source(channel: FormulaChannelKind) -> FormulaSourceRecord {
    FormulaSourceRecord {
        formula_stable_id: FormulaStableId("formula:1".to_string()),
        formula_text_version: FormulaTextVersion(1),
        entered_formula_text: "=x".to_string(),
        stored_formula_text: None,
        formula_channel_kind: channel,
    }
}

fn request(expr: GreenChild, context: BindContext) -> BindRequest {
    BindRequest {
        source: source(FormulaChannelKind::WorksheetA1),
        green_tree: tree(expr),
        context,
        builtin_functions: vec![BuiltinFunctionMeta {
            surface_name: "SUM".to_string(),
            min_arity: 1,
            max_arity: 255,
            caller_context_dependency: false,
            refs_visible_in_adapter: false,
        }],
    }
}

#[test]
fn binds_cell_plus_number() {
    let expr = node(SyntaxKind::BinaryExpr, vec![ident("A1"), token(TokenKind::Operator, "+"), number("1")]);
    let result = bind_formula(request(expr, BindContext::default()));
    let bound = result.bound_formula;
    match &bound.root {
        BoundExpr::Binary { op, left, right } => {
            assert_eq!(*op, BinaryOp::Add);
            match left.as_ref() {
                BoundExpr::Reference(ReferenceExpr::Atom(NormalizedReference::Cell(c))) => {
                    assert_eq!(c.coord.row, 1);
                    assert_eq!(c.coord.col, 1);
                    assert_eq!(c.sheet_id, "sheet:default");
                    assert!(c.caller_anchor_used);
                }
                other => panic!("unexpected left operand {other:?}"),
            }
            assert_eq!(right.as_ref(), &BoundExpr::NumberLiteral("1".to_string()));
        }
        other => panic!("unexpected root {other:?}"),
    }
    assert_eq!(bound.dependency_seeds.len(), 1);
    assert_eq!(bound.dependency_seeds[0].summary, "sheet:default!R1C1");
    assert!(bound.diagnostics.is_empty());
    assert!(!bound.root_expression_is_grouped);
    assert_eq!(bound.bind_context_fingerprint.len(), 16);
    assert_eq!(bound.bind_hash.len(), 16);
}

#[test]
fn unknown_identifier_is_unresolved() {
    let result = bind_formula(request(ident("Nope"), BindContext::default()));
    let bound = result.bound_formula;
    assert_eq!(bound.unresolved_references.len(), 1);
    assert_eq!(bound.unresolved_references[0].source_text, "Nope");
    assert_eq!(bound.unresolved_references[0].reason, "unknown identifier or name");
    assert_eq!(bound.diagnostics.len(), 1);
    assert_eq!(bound.diagnostics[0].message, "unresolved identifier 'Nope'");
    match &bound.root {
        BoundExpr::Reference(ReferenceExpr::Atom(NormalizedReference::Error(e))) => {
            assert_eq!(e.error_class, "#NAME?");
            assert_eq!(e.source_text, "Nope");
        }
        other => panic!("unexpected root {other:?}"),
    }
}

#[test]
fn defined_name_binds_with_its_kind() {
    let mut context = BindContext::default();
    context.names.push(DefinedName { name: "Rate".to_string(), kind: NameKind::ValueLike });
    let result = bind_formula(request(ident("Rate"), context));
    match &result.bound_formula.root {
        BoundExpr::Reference(ReferenceExpr::Atom(NormalizedReference::Name(n))) => {
            assert_eq!(n.name, "Rate");
            assert_eq!(n.kind, NameKind::ValueLike);
        }
        other => panic!("unexpected root {other:?}"),
    }
    assert_eq!(result.bound_formula.dependency_seeds[0].summary, "name:Rate");
}

#[test]
fn incremental_bind_reuses_same_request() {
    let expr = || node(SyntaxKind::BinaryExpr, vec![ident("A1"), token(TokenKind::Operator, "*"), number("2")]);
    let first = bind_formula(request(expr(), BindContext::default())).bound_formula;
    let again = bind_formula_incremental(request(expr(), BindContext::default()), Some(&first));
    assert!(again.reused_bound_formula);
    assert_eq!(again.bound_formula, first);
    let mut moved = BindContext::default();
    moved.caller_row = 7;
    let other = bind_formula_incremental(request(expr(), moved), Some(&first));
    assert!(!other.reused_bound_formula);
}

#[test]
fn simple_range_reads_the_same_either_way_round() {
    let range = |a: GreenChild, b: GreenChild| node(SyntaxKind::RangeExpr, vec![a, token(TokenKind::Colon, ":"), b]);
    let forward = bind_formula(request(range(ident("A1"), ident("C4")), BindContext::default())).bound_formula;
    let backward = bind_formula(request(range(ident("C4"), ident("A1")), BindContext::default())).bound_formula;
    assert_eq!(forward.normalized_references, backward.normalized_references);
    match &forward.normalized_references[0] {
        NormalizedReference::Area(area) => {
            assert_eq!((area.top_left.row, area.top_left.col), (1, 1));
            assert_eq!((area.height, area.width), (4, 3));
        }
        other => panic!("expected an area, got {other:?}"),
    }
    let rows_forward = bind_formula(request(range(number("3"), number("1")), BindContext::default())).bound_formula;
    match &rows_forward.normalized_references[0] {
        NormalizedReference::WholeRow(rows) => assert_eq!((rows.row_start, rows.row_count), (1, 3)),
        other => panic!("expected whole rows, got {other:?}"),
    }
}
