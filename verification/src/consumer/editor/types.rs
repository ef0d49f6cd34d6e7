//! Editor-facing records: tokens with trivia, live diagnostics, completion
//! proposals, help packets and host-reference insertion requests.

use vstd::prelude::*;

use crate::binding::ProfilePayload;
use crate::interface::{LibraryContextSnapshot, LibraryContextSnapshotRef};
use crate::source::{FormulaChannelKind, TextSpan};
use crate::syntax::{SyntaxKind, TokenKind};

verus! {

#[derive(Debug, Clone, Copy, PartialEq, Eq, Structural, Hash)]
pub enum EditorTriviaKind {
    Whitespace,
    Unknown,
}

#[derive(Debug, Clone, PartialEq, Eq, Hash)]
pub struct EditorTrivia {
    pub kind: EditorTriviaKind,
    pub text: String,
}

#[derive(Debug, Clone, PartialEq, Eq, Hash)]
pub struct EditorToken {
    pub kind: TokenKind,
    pub text: String,
    pub leading_trivia: Vec<EditorTrivia>,
    pub trailing_trivia: Vec<EditorTrivia>,
    pub span: TextSpan,
}

/// Full-fidelity token projection of a formula source: the leading trivia,
/// text and (for the last token) trailing trivia of the tokens, in order,
/// spell the source text.
#[derive(Debug, Clone, PartialEq, Eq, Hash)]
pub struct EditorSyntaxSnapshot {
    pub formula_stable_id: String,
    pub formula_channel_kind: FormulaChannelKind,
    pub green_tree_key: String,
    pub tokens: Vec<EditorToken>,
}

#[derive(Debug, Clone, Copy, PartialEq, Eq, Structural, Hash)]
pub enum LiveDiagnosticSeverity {
    Error,
    Warning,
    Info,
}

#[derive(Debug, Clone, Copy, PartialEq, Eq, Structural, Hash)]
pub enum LiveDiagnosticStage {
    Syntax,
    Bind,
    SemanticPlan,
}

#[derive(Debug, Clone, PartialEq, Eq, Hash)]
pub struct LiveDiagnostic {
    pub diagnostic_id: String,
    pub severity: LiveDiagnosticSeverity,
    pub stage: LiveDiagnosticStage,
    pub message: String,
    pub primary_span: TextSpan,
    pub related_spans: Vec<TextSpan>,
    pub code: Option<String>,
    pub worksheet_error_class: Option<String>,
    pub suggested_fix_kind: Option<String>,
}

#[derive(Debug, Clone, PartialEq, Eq, Hash)]
pub struct LiveDiagnosticSnapshot {
    pub formula_stable_id: String,
    pub formula_token: String,
    pub diagnostics: Vec<LiveDiagnostic>,
}

#[derive(Debug, Clone, Copy, PartialEq, Eq, Structural, Hash)]
pub struct FormulaTextChangeRange {
    pub start: usize,
    pub old_len: usize,
    pub new_len: usize,
}

#[derive(Debug, Clone, Copy, PartialEq, Eq, Structural, Hash)]
pub enum EditorAnalysisStage {
    SyntaxOnly,
    SyntaxAndBind,
    FullSemanticPlan,
}

#[derive(Debug, Clone, PartialEq, Eq, Hash)]
pub struct EditorPlanOptions {
    pub oxfunc_catalog_identity: String,
    pub locale_profile: Option<String>,
    pub date_system: Option<String>,
    pub format_profile: Option<String>,
    pub library_context_snapshot: Option<LibraryContextSnapshot>,
}

#[derive(Debug, Clone, Copy, PartialEq, Eq, Structural, Hash)]
pub struct FormulaEditReuseSummary {
    pub reused_green_tree: bool,
    pub reused_red_projection: bool,
    pub reused_bound_formula: bool,
}

impl Default for FormulaEditReuseSummary {
    fn default() -> (r: FormulaEditReuseSummary)
        ensures
            !r.reused_green_tree && !r.reused_red_projection && !r.reused_bound_formula,
    {
        FormulaEditReuseSummary { reused_green_tree: false, reused_red_projection: false, reused_bound_formula: false }
    }
}

#[derive(Debug, Clone, Copy, PartialEq, Eq, Structural, Hash)]
pub enum CompletionProposalKind {
    Function,
    DefinedName,
    TableName,
    TableColumn,
    StructuredSelector,
    SyntaxAssist,
    ProfileReference,
}

#[derive(Debug, Clone, PartialEq, Eq, Hash)]
pub struct CompletionProposal {
    pub proposal_id: String,
    pub proposal_kind: CompletionProposalKind,
    pub display_text: String,
    pub insert_text: String,
    pub replacement_span: Option<TextSpan>,
    pub documentation_ref: Option<String>,
    pub profile_payload: Option<ProfilePayload>,
    pub requires_revalidation: bool,
}

#[derive(Debug, Clone, PartialEq, Eq, Hash)]
pub struct SignatureHelpContext {
    pub callee_text: String,
    pub call_span: TextSpan,
    pub active_argument_index: usize,
    pub invocation_kind: SyntaxKind,
}

#[derive(Debug, Clone, PartialEq, Eq, Hash)]
pub struct CompletionResult {
    pub replacement_span: Option<TextSpan>,
    pub proposals: Vec<CompletionProposal>,
    pub signature_help_context: Option<SignatureHelpContext>,
}

#[derive(Debug, Clone, PartialEq, Eq, Hash)]
pub struct FunctionHelpSignatureForm {
    pub display_signature: String,
    pub min_arity: usize,
    pub max_arity: Option<usize>,
}

#[derive(Debug, Clone, PartialEq, Eq, Hash)]
pub struct FunctionHelpPacket {
    pub lookup_key: String,
    pub library_context_snapshot_ref: Option<LibraryContextSnapshotRef>,
    pub display_name: String,
    pub signature_forms: Vec<FunctionHelpSignatureForm>,
    pub argument_help: Vec<String>,
    pub short_description: Option<String>,
    pub availability_summary: Option<String>,
    pub deferred_or_profile_limited: bool,
}

#[derive(Debug, Clone, PartialEq, Eq, Hash)]
pub struct IntelligentCompletionContext {
    pub formula_text: String,
    pub formula_channel_kind: FormulaChannelKind,
    pub cursor_offset: usize,
    pub green_tree_key: String,
    pub red_context_summary: String,
    pub visible_defined_names: Vec<String>,
    pub visible_tables: Vec<String>,
    pub library_context_snapshot_ref: Option<LibraryContextSnapshotRef>,
    pub active_diagnostics: Vec<LiveDiagnostic>,
    pub signature_help_context: Option<SignatureHelpContext>,
}

#[derive(Debug, Clone, PartialEq, Eq, Hash)]
pub enum EditorHostReferenceTarget {
    HostName { canonical_name: String },
    HostReferenceCollection { base_canonical_name: Option<String>, collection_family: String },
    HostStructuralSelector { base_canonical_name: String, selector_family: String },
}

#[derive(Debug, Clone, PartialEq, Eq, Hash)]
pub struct EditorHostReferenceInsertionRequest {
    pub target: EditorHostReferenceTarget,
    pub replacement_span: Option<TextSpan>,
}

#[derive(Debug, Clone, PartialEq, Eq, Hash)]
pub enum EditorHostReferenceInsertionError {
    EmptyHostName,
    EmptySelectorFamily,
    UnknownCollectionFamily(String),
    UnknownStructuralSelectorFamily(String),
}

} // verus!
