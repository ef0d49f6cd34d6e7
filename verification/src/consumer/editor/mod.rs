//! Editor surface: host-reference insertion text and the editor records.

pub mod compose;
pub mod types;

pub use types::{
    CompletionProposal, CompletionProposalKind, CompletionResult, EditorAnalysisStage,
    EditorHostReferenceInsertionError, EditorHostReferenceInsertionRequest, EditorHostReferenceTarget,
    EditorPlanOptions, EditorSyntaxSnapshot, EditorToken, EditorTrivia, EditorTriviaKind, FormulaEditReuseSummary,
    FormulaTextChangeRange, FunctionHelpPacket, FunctionHelpSignatureForm, IntelligentCompletionContext,
    LiveDiagnostic, LiveDiagnosticSeverity, LiveDiagnosticSnapshot, LiveDiagnosticStage, SignatureHelpContext,
};
