use oxfml_core::consumer::runtime::host_syntax::declared_host_reference_syntax_matches;
use oxfml_core::consumer::runtime::{RuntimeHostFormulaContext, RuntimeHostReferenceSyntaxRule};
use oxfml_core::source::{FormulaChannelKind, FormulaSourceRecord, FormulaStableId, FormulaTextVersion};

fn source(text: &str) -> FormulaSourceRecord {
    FormulaSourceRecord {
        formula_stable_id: FormulaStableId("formula:1".to_string()),
        formula_text_version: FormulaTextVersion(1),
        entered_formula_text: text.to_string(),
        stored_formula_text: None,
        formula_channel_kind: FormulaChannelKind::WorksheetA1,
    }
}

fn context(rules: Vec<RuntimeHostReferenceSyntaxRule>) -> RuntimeHostFormulaContext {
    RuntimeHostFormulaContext {
        dialect_id: "dialect:grid".to_string(),
        capability_profile_id: "caps:1".to_string(),
        resolution_rule_version: "rules:1".to_string(),
        host_namespace_version: None,
        registry_snapshot_identity: None,
        structure_context_version: None,
        caller_context_identity: None,
        table_context_identity: None,
        host_reference_syntax_rules: rules,
    }
}

fn rows_rule() -> RuntimeHostReferenceSyntaxRule {
    RuntimeHostReferenceSyntaxRule::literal("rows", "table_selector", "@Rows")
}

#[test]
fn literal_rule_matches_with_byte_span_and_handle() {
    let ctx = context(vec![rows_rule()]);
    let matches = declared_host_reference_syntax_matches(&source("=SUM(@Rows)+1"), &ctx, &rows_rule());
    assert_eq!(matches.len(), 1);
    let m = &matches[0];
    assert_eq!((m.source_span.start, m.source_span.len), (5, 5));
    assert_eq!(m.source_token_text, "@Rows");
    assert_eq!(m.syntax_match_handle, "host-reference-syntax:dialect:grid:rows:5:5");
    assert_eq!(m.rule_family, "table_selector");
    assert_eq!(m.token_kind, "literal");
    assert_eq!(m.resolution_layer, "explicit_host_ref");
    assert_eq!(m.formal_token_text(), "HOST_REF_5_5");
}

#[test]
fn string_literals_are_skipped() {
    let ctx = context(vec![rows_rule()]);
    let matches = declared_host_reference_syntax_matches(&source("=\"@Rows\"&@Rows"), &ctx, &rows_rule());
    assert_eq!(matches.len(), 1);
    assert_eq!(matches[0].source_span.start, 9);
    let quoted = declared_host_reference_syntax_matches(&source("=\"a\"\"@Rows\""), &ctx, &rows_rule());
    assert!(quoted.is_empty());
}

#[test]
fn identifier_glued_to_pattern_is_not_a_match() {
    let ctx = context(vec![rows_rule()]);
    assert!(declared_host_reference_syntax_matches(&source("=x@Rows"), &ctx, &rows_rule()).is_empty());
    assert!(declared_host_reference_syntax_matches(&source("=@Rowsy"), &ctx, &rows_rule()).is_empty());
}

#[test]
fn spans_after_multibyte_text_count_bytes() {
    let ctx = context(vec![rows_rule()]);
    let matches = declared_host_reference_syntax_matches(&source("=\"é\"&@Rows"), &ctx, &rows_rule());
    assert_eq!(matches.len(), 1);
    assert_eq!((matches[0].source_span.start, matches[0].source_span.len), (6, 5));
}

#[test]
fn empty_pattern_matches_nothing() {
    let rule = RuntimeHostReferenceSyntaxRule::literal("none", "x", "");
    let ctx = context(vec![rule.clone()]);
    assert!(declared_host_reference_syntax_matches(&source("=A1"), &ctx, &rule).is_empty());
}

#[test]
fn projection_replaces_matches_by_formal_tokens() {
    let ctx = context(vec![rows_rule()]);
    let src = source("=SUM(@Rows)+@Rows");
    let projection = ctx.project_declared_host_reference_syntax(&src);
    assert_eq!(projection.matches.len(), 2);
    assert_eq!(projection.source.entered_formula_text, "=SUM(HOST_REF_5_5)+HOST_REF_12_5");
    assert_eq!(projection.source.stored_formula_text.as_deref(), Some("=SUM(@Rows)+@Rows"));
    assert!(projection.diagnostics.is_empty());
}

#[test]
fn projection_without_matches_keeps_the_source() {
    let ctx = context(vec![rows_rule()]);
    let src = source("=A1+1");
    let projection = ctx.project_declared_host_reference_syntax(&src);
    assert!(projection.matches.is_empty());
    assert_eq!(projection.source, src);
}

#[test]
fn overlapping_matches_are_diagnosed_not_projected() {
    let ctx = context(vec![rows_rule()]);
    let src = source("=SUM(@Rows)");
    let found = ctx.declared_host_reference_syntax_matches(&src);
    assert_eq!(found.len(), 1);
    let twice = vec![found[0].clone(), found[0].clone()];
    let projection = ctx.project_host_reference_syntax_matches(&src, twice);
    assert_eq!(projection.matches.len(), 1);
    assert_eq!(projection.diagnostics, vec!["overlapping_host_reference_syntax_match:@Rows:5-10".to_string()]);
    assert_eq!(projection.source.entered_formula_text, "=SUM(HOST_REF_5_5)");
}

#[test]
fn matches_of_concatenated_rule_lists_concatenate() {
    let cols = RuntimeHostReferenceSyntaxRule::literal("cols", "table_selector", "@Cols");
    let text = source("=@Cols+@Rows+@Cols");
    let both = context(vec![rows_rule(), cols.clone()]).declared_host_reference_syntax_matches(&text);
    let first = context(vec![rows_rule()]).declared_host_reference_syntax_matches(&text);
    let second = context(vec![cols]).declared_host_reference_syntax_matches(&text);
    assert_eq!(first.len(), 1);
    assert_eq!(second.len(), 2);
    assert_eq!(both, [first, second].concat());
    assert!(context(Vec::new()).declared_host_reference_syntax_matches(&text).is_empty());
}
