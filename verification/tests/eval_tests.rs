use oxfml_core::binding::reference::{AddressMode, AreaRef, CellCoord, CellRef, ErrorRef, NameKind, NameRef, NormalizedReference};
use oxfml_core::binding::{BinaryOp, BoundExpr};
use oxfml_core::binding::parse::column_to_index;
use oxfml_core::eval::{
    helper_name_key, CompileHelperScope,
    callable_token, captured_ref_name_and_identity, is_identifier_like, lambda_literal_params_and_body, CallableOriginKind,
    normalize_excel_numeric_literal_for_parse, numeric_literal_underflows_excel_admission_floor,
    callable_profile_detail_from_summary, prepared_result_capability_dependencies, CompiledFunctionSpecialForm,
    a1_for_area, a1_for_cell, column_label, column_letters, decode_string_literal, looks_like_single_cell_reference,
    parse_a1_cell, parse_local_area_target, qualified_reference_target, should_emit_sheet_prefix, split_profile_list,
    EvaluationTraceMode,
};

fn cell(sheet: &str, row: u32, col: u32) -> CellRef {
    CellRef {
        workbook_id: "book:1".to_string(),
        sheet_id: sheet.to_string(),
        coord: CellCoord { row, col },
        address_mode: AddressMode { row_absolute: false, col_absolute: false },
        caller_anchor_used: false,
    }
}

#[test]
fn column_letters_are_bijective_base_26() {
    assert_eq!(column_letters(0), "");
    assert_eq!(column_letters(1), "A");
    assert_eq!(column_letters(26), "Z");
    assert_eq!(column_letters(27), "AA");
    assert_eq!(column_letters(52), "AZ");
    assert_eq!(column_letters(702), "ZZ");
    assert_eq!(column_letters(703), "AAA");
    assert_eq!(column_letters(16384), "XFD");
    assert_eq!(column_label(28), "AB");
}

#[test]
fn column_letters_read_back_as_their_column() {
    for n in [1u32, 2, 25, 26, 27, 701, 702, 703, 16384, 100_000] {
        let label: Vec<char> = column_letters(n).chars().collect();
        assert_eq!(column_to_index(&label), Some(n));
        let text = format!("{}{}", column_label(n as usize), 9);
        assert_eq!(parse_a1_cell(&text), Some((n as usize, 9)));
    }
}

#[test]
fn sheet_prefix_is_written_for_named_sheets_only() {
    assert!(should_emit_sheet_prefix("Sheet1"));
    assert!(!should_emit_sheet_prefix(""));
    assert!(!should_emit_sheet_prefix("sheet:default"));
    assert!(should_emit_sheet_prefix("sheet"));
    assert_eq!(qualified_reference_target("Data", "A1".to_string()), "Data!A1");
    assert_eq!(qualified_reference_target("sheet:x", "A1".to_string()), "A1");
}

#[test]
fn a1_labels_of_cells_and_areas() {
    assert_eq!(a1_for_cell(&cell("Sheet1", 3, 2)), "Sheet1!B3");
    assert_eq!(a1_for_cell(&cell("sheet:default", 10, 27)), "AA10");
    let area = AreaRef {
        workbook_id: "book:1".to_string(),
        sheet_id: "Sheet1".to_string(),
        top_left: CellCoord { row: 2, col: 1 },
        height: 3,
        width: 2,
        address_mode: AddressMode { row_absolute: false, col_absolute: false },
        caller_anchor_used: false,
    };
    assert_eq!(a1_for_area(&area), "Sheet1!A2:B4");
}

#[test]
fn local_a1_cells_parse_letters_then_row() {
    assert_eq!(parse_a1_cell("B7"), Some((2, 7)));
    assert_eq!(parse_a1_cell("b7"), Some((2, 7)));
    assert_eq!(parse_a1_cell("AA100"), Some((27, 100)));
    assert_eq!(parse_a1_cell("7"), None);
    assert_eq!(parse_a1_cell("B"), None);
    assert_eq!(parse_a1_cell("B$7"), None);
    assert_eq!(parse_a1_cell("B7x"), None);
    assert_eq!(parse_a1_cell("B+7"), None);
}

#[test]
fn local_area_targets_order_their_bounds() {
    let area = parse_local_area_target("Sheet1!C5:A1").unwrap();
    assert_eq!(area.sheet_prefix.as_deref(), Some("Sheet1"));
    assert_eq!((area.start_row, area.end_row, area.start_col, area.end_col), (1, 5, 1, 3));
    assert_eq!(area.row_count(), 5);
    assert_eq!(area.col_count(), 3);
    assert_eq!(area.cell_key(2, 3), "Sheet1!C2");
    let local = parse_local_area_target("A1:B2").unwrap();
    assert_eq!(local.sheet_prefix, None);
    assert_eq!(local.cell_key(1, 28), "AB1");
    assert!(parse_local_area_target("A1").is_none());
    assert!(parse_local_area_target("A1:B").is_none());
}

#[test]
fn single_cell_targets() {
    assert!(looks_like_single_cell_reference("Sheet1!B2"));
    assert!(looks_like_single_cell_reference("B2"));
    assert!(!looks_like_single_cell_reference("B2:C3"));
    assert!(!looks_like_single_cell_reference("Sheet:1!Total"));
    assert!(!looks_like_single_cell_reference("42"));
}

#[test]
fn profile_lists_split_on_bar_before_comma() {
    assert!(split_profile_list("-").is_empty());
    assert!(split_profile_list("").is_empty());
    assert_eq!(split_profile_list("x|y,z"), vec!["x".to_string(), "y,z".to_string()]);
    assert_eq!(split_profile_list("x,y"), vec!["x".to_string(), "y".to_string()]);
    assert_eq!(split_profile_list("x,,y"), vec!["x".to_string(), String::new(), "y".to_string()]);
    assert_eq!(split_profile_list("solo"), vec!["solo".to_string()]);
}

#[test]
fn string_literals_lose_quotes_and_collapse_doubled_ones() {
    assert_eq!(decode_string_literal("\"say \"\"hi\"\"\""), "say \"hi");
    assert_eq!(decode_string_literal("\"plain\""), "plain");
    assert_eq!(decode_string_literal("\"\""), "");
    assert_eq!(decode_string_literal("a\"\"\"\"b"), "a\"\"b");
    assert_eq!(decode_string_literal("unquoted"), "unquoted");
}

#[test]
fn trace_mode_defaults_to_values_only() {
    assert_eq!(EvaluationTraceMode::default(), EvaluationTraceMode::ValueOnly);
}

#[test]
fn callable_profiles_read_their_summary_parts() {
    let p = callable_profile_detail_from_summary("arity=2;required_arity=1;params=x|y;optional_params=-;captures=-;body=expr")
        .unwrap();
    assert_eq!(p.arity, 2);
    assert_eq!(p.required_arity, 1);
    assert_eq!(p.parameter_names, vec!["x".to_string(), "y".to_string()]);
    assert!(p.optional_parameter_names.is_empty());
    assert!(p.capture_names.is_empty());
    assert_eq!(p.body_kind, "expr");
    let defaults = callable_profile_detail_from_summary("arity=3;body=lambda").unwrap();
    assert_eq!(defaults.required_arity, 3);
    assert!(defaults.parameter_names.is_empty());
    let later_wins = callable_profile_detail_from_summary("arity=1;captures=a,b;arity=4;body=e").unwrap();
    assert_eq!(later_wins.arity, 4);
    assert_eq!(later_wins.capture_names, vec!["a".to_string(), "b".to_string()]);
}

#[test]
fn incomplete_callable_profiles_are_refused() {
    assert!(callable_profile_detail_from_summary("arity=2;params=x").is_none());
    assert!(callable_profile_detail_from_summary("arity=2;oops;body=e").is_none());
    assert!(callable_profile_detail_from_summary("arity=x;body=e").is_none());
    assert!(callable_profile_detail_from_summary("").is_none());
}

#[test]
fn capability_dependencies_are_reported_distinct_and_sorted() {
    let reqs: Vec<String> = ["spill_reference", "caller_context", "unknown", "caller_context", "host_query"]
        .iter()
        .map(|s| s.to_string())
        .collect();
    assert_eq!(
        prepared_result_capability_dependencies(&reqs),
        vec!["caller_context".to_string(), "host_query".to_string(), "spill_reference".to_string()]
    );
    assert!(prepared_result_capability_dependencies(&vec!["other".to_string()]).is_empty());
}

#[test]
fn special_forms_match_exact_names() {
    assert_eq!(CompiledFunctionSpecialForm::from_surface_name("LET"), CompiledFunctionSpecialForm::Let);
    assert_eq!(CompiledFunctionSpecialForm::from_surface_name("_XLFN.SINGLE"), CompiledFunctionSpecialForm::LegacySingle);
    assert_eq!(CompiledFunctionSpecialForm::from_surface_name("SINGLE"), CompiledFunctionSpecialForm::LegacySingle);
    assert_eq!(CompiledFunctionSpecialForm::from_surface_name("let"), CompiledFunctionSpecialForm::Ordinary);
    assert_eq!(CompiledFunctionSpecialForm::from_surface_name("SUM"), CompiledFunctionSpecialForm::Ordinary);
}

#[test]
fn leading_points_get_a_zero() {
    assert_eq!(normalize_excel_numeric_literal_for_parse("  .5 "), "0.5");
    assert_eq!(normalize_excel_numeric_literal_for_parse("+.25"), "+0.25");
    assert_eq!(normalize_excel_numeric_literal_for_parse("-.1"), "-0.1");
    assert_eq!(normalize_excel_numeric_literal_for_parse("12.5"), "12.5");
    assert_eq!(normalize_excel_numeric_literal_for_parse("."), "0.");
    assert_eq!(normalize_excel_numeric_literal_for_parse(""), "");
}

#[test]
fn literals_below_the_smallest_normal_double_underflow() {
    assert!(numeric_literal_underflows_excel_admission_floor("1e-309"));
    assert!(numeric_literal_underflows_excel_admission_floor("1e-308"));
    assert!(numeric_literal_underflows_excel_admission_floor("-1e-400"));
    assert!(numeric_literal_underflows_excel_admission_floor(" 0.0001e-305 "));
    assert!(!numeric_literal_underflows_excel_admission_floor("2.3e-308"));
    assert!(!numeric_literal_underflows_excel_admission_floor("1e400"));
    assert!(!numeric_literal_underflows_excel_admission_floor("0"));
    assert!(!numeric_literal_underflows_excel_admission_floor("0.000"));
    assert!(!numeric_literal_underflows_excel_admission_floor("abc"));
    assert!(!numeric_literal_underflows_excel_admission_floor("1e"));
    assert!(!numeric_literal_underflows_excel_admission_floor("1.2.3e-400"));
}

#[test]
fn callable_tokens_name_id_origin_and_summary() {
    assert_eq!(callable_token(7, CallableOriginKind::HelperLambda, "arity=1"), "oxfml.callable.7.helper::arity=1");
    assert_eq!(callable_token(0, CallableOriginKind::DefinedNameCallable, ""), "oxfml.callable.0.defined::");
}

#[test]
fn identifier_like_texts() {
    assert!(is_identifier_like("Rate"));
    assert!(is_identifier_like("_x.y2"));
    assert!(is_identifier_like("Über"));
    assert!(!is_identifier_like(""));
    assert!(!is_identifier_like("1abc"));
    assert!(!is_identifier_like("a b"));
    assert!(!is_identifier_like(".x"));
    assert!(!is_identifier_like("range"));
    assert!(!is_identifier_like("union"));
    assert!(!is_identifier_like("intersection"));
    assert!(is_identifier_like("Range"));
}

#[test]
fn captured_references_name_their_dependency() {
    let name = NormalizedReference::Name(NameRef {
        name: "Rate".to_string(),
        workbook_id: "book:1".to_string(),
        sheet_id: "Sheet1".to_string(),
        kind: NameKind::ValueLike,
        caller_context_dependent: false,
    });
    assert_eq!(captured_ref_name_and_identity(&name), ("Rate".to_string(), "name:Rate".to_string()));
    let pending = NormalizedReference::Error(ErrorRef { error_class: "#NAME?".to_string(), source_text: "Tax".to_string() });
    assert_eq!(captured_ref_name_and_identity(&pending), ("Tax".to_string(), "name:Tax".to_string()));
    let other = NormalizedReference::Error(ErrorRef { error_class: "#NAME?".to_string(), source_text: String::new() });
    assert_eq!(captured_ref_name_and_identity(&other), ("error:#NAME?".to_string(), "error:#NAME?".to_string()));
    let c = NormalizedReference::Cell(cell("Sheet1", 1, 1));
    assert_eq!(captured_ref_name_and_identity(&c), ("Sheet1!R1C1".to_string(), "Sheet1!R1C1".to_string()));
}

#[test]
fn lambda_literals_give_parameters_and_body() {
    let body = BoundExpr::Binary {
        op: BinaryOp::Add,
        left: Box::new(BoundExpr::HelperParameterName("x".to_string())),
        right: Box::new(BoundExpr::NumberLiteral("1".to_string())),
    };
    let lambda = BoundExpr::FunctionCall {
        function_name: "lambda".to_string(),
        args: vec![
            BoundExpr::HelperParameterName("x".to_string()),
            BoundExpr::HelperOptionalParameterName("y".to_string()),
            body,
        ],
    };
    let (params, optional, b) = lambda_literal_params_and_body(&lambda).unwrap();
    assert_eq!(params, vec!["x".to_string()]);
    assert_eq!(optional, vec!["y".to_string()]);
    assert!(matches!(b, BoundExpr::Binary { op: BinaryOp::Add, .. }));
    let not_params = BoundExpr::FunctionCall {
        function_name: "LAMBDA".to_string(),
        args: vec![BoundExpr::NumberLiteral("1".to_string()), BoundExpr::NumberLiteral("2".to_string())],
    };
    assert!(lambda_literal_params_and_body(&not_params).is_none());
    let empty = BoundExpr::FunctionCall { function_name: "LAMBDA".to_string(), args: Vec::new() };
    assert!(lambda_literal_params_and_body(&empty).is_none());
    let sum = BoundExpr::FunctionCall { function_name: "SUM".to_string(), args: vec![BoundExpr::NumberLiteral("1".to_string())] };
    assert!(lambda_literal_params_and_body(&sum).is_none());
}

#[test]
fn helper_slots_match_names_without_case() {
    assert_eq!(helper_name_key("rate_1"), "RATE_1");
    let mut scope = CompileHelperScope::new();
    assert_eq!(scope.define_helper("x"), 0);
    assert_eq!(scope.define_helper("Y"), 1);
    assert_eq!(scope.helper_slot("X"), Some(0));
    assert_eq!(scope.helper_slot("y"), Some(1));
    assert_eq!(scope.helper_slot("z"), None);
    let mut child = scope.child();
    assert_eq!(child.define_helper("x"), 2);
    assert_eq!(child.helper_slot("x"), Some(2));
    assert_eq!(child.helper_slot("y"), Some(1));
    assert_eq!(scope.helper_slot("x"), Some(0));
    assert_eq!(scope.next_slot, 2);
    assert_eq!(child.next_slot, 3);
}
