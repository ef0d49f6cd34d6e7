use oxfml_core::consumer::runtime::drill::{
    argument_role_for_name, drill_literal_truth, find_top_level_operator, function_open_paren_index,
    is_float_literal, matching_trailing_paren_index, parse_drill_expression_source, repeated_argument_name,
    split_drill_arguments, DrillParsedExpr, DrillParsedExprKind, DrillParsedOperator, FormulaArgumentRole,
};

fn chars(s: &str) -> Vec<char> {
    s.chars().collect()
}

fn span_of(e: &DrillParsedExpr) -> (usize, usize) {
    (e.span.start, e.span.len)
}

#[test]
fn reads_closed_call_with_argument_spans() {
    let e = parse_drill_expression_source("=SUM(1, 2)").unwrap();
    assert_eq!(span_of(&e), (1, 9));
    assert_eq!(e.text, "SUM(1, 2)");
    match &e.kind {
        DrillParsedExprKind::Function { name, args, closed } => {
            assert_eq!(name, "SUM");
            assert!(*closed);
            assert_eq!(args.len(), 2);
            assert_eq!((args[0].span.start, args[0].span.len), (5, 1));
            assert_eq!(args[0].text, "1");
            assert_eq!(args[0].expr_or_missing().kind, DrillParsedExprKind::Number);
            assert_eq!((args[1].span.start, args[1].span.len), (8, 1));
            assert_eq!(args[1].text, "2");
            assert_eq!(span_of(args[1].expr_or_missing()), (8, 1));
        }
        other => panic!("unexpected kind {other:?}"),
    }
}

#[test]
fn reads_top_level_division() {
    let e = parse_drill_expression_source("=A1/B1").unwrap();
    assert_eq!(span_of(&e), (1, 5));
    match &e.kind {
        DrillParsedExprKind::Binary { op, left, right } => {
            assert_eq!(*op, DrillParsedOperator::Divide);
            assert_eq!(op.label(), "divide");
            assert_eq!(left.text, "A1");
            assert_eq!(span_of(left), (1, 2));
            assert_eq!(left.kind, DrillParsedExprKind::Name);
            assert_eq!(right.text, "B1");
            assert_eq!(span_of(right), (4, 2));
        }
        other => panic!("unexpected kind {other:?}"),
    }
}

#[test]
fn division_inside_call_is_not_top_level() {
    let e = parse_drill_expression_source("=ROUND(1/3, 2)").unwrap();
    match &e.kind {
        DrillParsedExprKind::Function { name, args, closed } => {
            assert_eq!(name, "ROUND");
            assert!(*closed);
            assert_eq!(args.len(), 2);
            match &args[0].expr_or_missing().kind {
                DrillParsedExprKind::Binary { left, right, .. } => {
                    assert_eq!(left.text, "1");
                    assert_eq!(right.text, "3");
                    assert_eq!(span_of(right), (9, 1));
                }
                other => panic!("unexpected argument {other:?}"),
            }
        }
        other => panic!("unexpected kind {other:?}"),
    }
}

#[test]
fn reads_open_call_with_literals() {
    let e = parse_drill_expression_source("=IF(TRUE, \"x\", y").unwrap();
    match &e.kind {
        DrillParsedExprKind::Function { name, args, closed } => {
            assert_eq!(name, "IF");
            assert!(!*closed);
            assert_eq!(args.len(), 3);
            assert_eq!((args[0].span.start, args[0].span.len), (4, 4));
            assert_eq!(args[0].expr_or_missing().kind, DrillParsedExprKind::Logical(true));
            assert_eq!(drill_literal_truth(args[0].expr_or_missing()), Some(true));
            assert_eq!((args[1].span.start, args[1].span.len), (10, 3));
            assert_eq!(args[1].expr_or_missing().kind, DrillParsedExprKind::String);
            assert_eq!(drill_literal_truth(args[1].expr_or_missing()), None);
            assert_eq!((args[2].span.start, args[2].span.len), (15, 1));
            assert_eq!(args[2].expr_or_missing().kind, DrillParsedExprKind::Name);
        }
        other => panic!("unexpected kind {other:?}"),
    }
}

#[test]
fn open_call_with_nothing_inside_has_a_missing_argument() {
    let e = parse_drill_expression_source("=SUM(").unwrap();
    match &e.kind {
        DrillParsedExprKind::Function { args, closed, .. } => {
            assert!(!*closed);
            assert_eq!(args.len(), 1);
            assert_eq!((args[0].span.start, args[0].span.len), (5, 0));
            assert_eq!(args[0].text, "");
            assert_eq!(args[0].expr_or_missing().kind, DrillParsedExprKind::Missing);
        }
        other => panic!("unexpected kind {other:?}"),
    }
}

#[test]
fn closed_empty_call_has_no_arguments() {
    let e = parse_drill_expression_source("=NOW()").unwrap();
    match &e.kind {
        DrillParsedExprKind::Function { name, args, closed } => {
            assert_eq!(name, "NOW");
            assert!(*closed);
            assert!(args.is_empty());
        }
        other => panic!("unexpected kind {other:?}"),
    }
}

#[test]
fn spans_count_utf8_bytes() {
    let e = parse_drill_expression_source("=é/2").unwrap();
    assert_eq!(span_of(&e), (1, 4));
    match &e.kind {
        DrillParsedExprKind::Binary { left, right, .. } => {
            assert_eq!(span_of(left), (1, 2));
            assert_eq!(span_of(right), (4, 1));
            assert_eq!(right.kind, DrillParsedExprKind::Number);
        }
        other => panic!("unexpected kind {other:?}"),
    }
}

#[test]
fn surrounding_whitespace_is_trimmed_from_spans() {
    let e = parse_drill_expression_source("  42  ").unwrap();
    assert_eq!(span_of(&e), (2, 2));
    assert_eq!(e.text, "42");
    assert_eq!(e.kind, DrillParsedExprKind::Number);
    let empty = parse_drill_expression_source("=").unwrap();
    assert_eq!(empty.kind, DrillParsedExprKind::Missing);
    assert_eq!(span_of(&empty), (1, 0));
}

#[test]
fn logical_literals_ignore_case() {
    assert_eq!(parse_drill_expression_source("=false").unwrap().kind, DrillParsedExprKind::Logical(false));
    assert_eq!(parse_drill_expression_source("=True").unwrap().kind, DrillParsedExprKind::Logical(true));
}

#[test]
fn float_literals_follow_the_documented_grammar() {
    for accepted in ["1", "1e5", ".5", "1.", "inf", "-Infinity", "NaN", "+3.25E-2", "007"] {
        assert!(is_float_literal(&chars(accepted)), "{accepted} should read as a number");
        assert_eq!(accepted.parse::<f64>().is_ok(), true);
    }
    for refused in ["", ".", "1e", "e5", "1_000", " 1", "1.2.3", "--1", "infinite", "0x10"] {
        assert!(!is_float_literal(&chars(refused)), "{refused} should not read as a number");
        assert_eq!(refused.parse::<f64>().is_ok(), false);
    }
}

#[test]
fn scanners_find_operator_paren_and_close() {
    assert_eq!(find_top_level_operator(&chars("(a/b)/c")), Some((5, DrillParsedOperator::Divide)));
    assert_eq!(find_top_level_operator(&chars("{1/2}")), None);
    assert_eq!(function_open_paren_index(&chars("SUM (1)")), Some(4));
    assert_eq!(function_open_paren_index(&chars("(1)")), None);
    assert_eq!(function_open_paren_index(&chars("A B(1)")), None);
    assert_eq!(matching_trailing_paren_index(&chars("F(a(b))  "), 1), Some(6));
    assert_eq!(matching_trailing_paren_index(&chars("F(a) + 1"), 1), None);
    let args = split_drill_arguments(&chars("  "), 0);
    assert!(args.is_empty());
    let args = split_drill_arguments(&chars("a,,b"), 10);
    assert_eq!(args.len(), 3);
    assert_eq!((args[1].span.start, args[1].span.len), (12, 0));
    assert_eq!(args[1].expr_or_missing().kind, DrillParsedExprKind::Missing);
    assert_eq!(args[2].span.start, 13);
}

#[test]
fn argument_roles_come_from_parameter_names() {
    assert_eq!(argument_role_for_name("Logical_Test"), Some(FormulaArgumentRole::LogicalTest));
    assert_eq!(argument_role_for_name("value_if_false"), Some(FormulaArgumentRole::ValueIfFalse));
    assert_eq!(argument_role_for_name("number2"), Some(FormulaArgumentRole::Number));
    assert_eq!(argument_role_for_name("ROWS"), Some(FormulaArgumentRole::Rows));
    assert_eq!(argument_role_for_name("Criteria"), Some(FormulaArgumentRole::Other("Criteria".to_string())));
}

#[test]
fn repeated_argument_names_count_from_one() {
    assert_eq!(repeated_argument_name("number1", 0), "number1");
    assert_eq!(repeated_argument_name("number1", 4), "number5");
    assert_eq!(repeated_argument_name("value", 1), "value2");
    assert_eq!(repeated_argument_name("12", 0), "121");
}
