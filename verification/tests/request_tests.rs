use oxfml_core::consumer::runtime::RuntimeFormulaRequest;
use oxfml_core::eval::{EvaluationBackend, EvaluationTraceMode};
use oxfml_core::source::{FormulaChannelKind, FormulaSourceRecord, FormulaStableId, FormulaTextVersion};

fn source() -> FormulaSourceRecord {
    FormulaSourceRecord {
        formula_stable_id: FormulaStableId("formula:req".to_string()),
        formula_text_version: FormulaTextVersion(7),
        entered_formula_text: "=1+2".to_string(),
        stored_formula_text: None,
        formula_channel_kind: FormulaChannelKind::WorksheetA1,
    }
}

#[test]
fn runtime_formula_request_defaults() {
    let request: RuntimeFormulaRequest<String, u32> = RuntimeFormulaRequest::new(source(), "bundle".to_string());
    assert_eq!(request.backend(), EvaluationBackend::OxFuncBacked);
    assert_eq!(request.trace_mode(), EvaluationTraceMode::ValueOnly);
    assert_eq!(request.verification_publication_context(), None);
    assert_eq!(request.typed_query_bundle(), "bundle");
    assert_eq!(request.source(), &source());
}

#[test]
fn runtime_formula_request_builders_set_one_field_each() {
    let request: RuntimeFormulaRequest<String, u32> = RuntimeFormulaRequest::new(source(), "bundle".to_string())
        .with_backend(EvaluationBackend::LocalBootstrap)
        .with_trace_mode(EvaluationTraceMode::PreparedCalls)
        .with_verification_publication_context(42);
    assert_eq!(request.backend(), EvaluationBackend::LocalBootstrap);
    assert_eq!(request.trace_mode(), EvaluationTraceMode::PreparedCalls);
    assert_eq!(request.verification_publication_context(), Some(&42));
    assert_eq!(request.typed_query_bundle(), "bundle");
    assert_eq!(request.source().entered_formula_text, "=1+2");
}
