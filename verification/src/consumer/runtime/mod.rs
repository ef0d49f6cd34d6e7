//! Runtime host integration: host formula contexts, the reference syntax a
//! host declares, and how matches of it are projected into formula text.

pub mod drill;
pub mod formal;
pub mod host_syntax;
pub mod identity;
pub mod package;
pub mod prepare;
pub mod projection;
pub mod versions;

use vstd::prelude::*;

pub use package::{RuntimePreparedFormulaIdentity, RuntimePreparedFormulaPackage};

use crate::binding::reference::copy_strings;
use crate::source::{FormulaSourceRecord, TextSpan};
use crate::eval::{EvaluationBackend, EvaluationTraceMode};
use crate::text::{chars_of, decimal, push_decimal, push_str, push_string, string_of, string_views};
use crate::binding::profile::copy_opt_string;
use crate::binding::reference::opt_view;

verus! {

#[derive(Debug, Clone, PartialEq, Eq, Hash)]
pub struct RuntimeOxFuncBridgeMetadata {
    pub semantic_kernel_metadata_version: Option<String>,
    pub arg_admission_metadata_version: Option<String>,
}

/// A host's formula context: its dialect, capability and resolution
/// versions, and the reference syntax it declares.
#[derive(Debug, Clone, PartialEq, Eq, Hash)]
pub struct RuntimeHostFormulaContext {
    pub dialect_id: String,
    pub capability_profile_id: String,
    pub resolution_rule_version: String,
    pub host_namespace_version: Option<String>,
    pub registry_snapshot_identity: Option<String>,
    pub structure_context_version: Option<String>,
    pub caller_context_identity: Option<String>,
    pub table_context_identity: Option<String>,
    pub host_reference_syntax_rules: Vec<RuntimeHostReferenceSyntaxRule>,
}

#[derive(Debug, Clone, PartialEq, Eq, Hash)]
pub struct RuntimeHostReferenceSyntaxProjection {
    pub source: FormulaSourceRecord,
    pub matches: Vec<RuntimeHostReferenceSyntaxMatch>,
    pub diagnostics: Vec<String>,
}

/// A piece of reference syntax a host declares.
#[derive(Debug, Clone, PartialEq, Eq, Hash)]
pub struct RuntimeHostReferenceSyntaxRule {
    pub rule_id: String,
    pub rule_family: String,
    pub pattern_text: String,
    pub token_kind: String,
    pub resolution_layer: String,
    pub shape_hint: Option<String>,
    pub caller_context_dependent: bool,
    pub opaque_selector_payload: Option<String>,
}

impl RuntimeHostReferenceSyntaxRule {
    /// A literal rule resolved at the explicit host-reference layer.
    pub fn literal(rule_id: &str, rule_family: &str, pattern_text: &str) -> (r: RuntimeHostReferenceSyntaxRule)
        ensures
            r.rule_id@ == rule_id@,
            r.rule_family@ == rule_family@,
            r.pattern_text@ == pattern_text@,
            r.token_kind@ == "literal"@,
            r.resolution_layer@ == "explicit_host_ref"@,
            r.shape_hint is None,
            !r.caller_context_dependent,
            r.opaque_selector_payload is None,
    {
        RuntimeHostReferenceSyntaxRule {
            rule_id: string_of(&chars_of(rule_id)),
            rule_family: string_of(&chars_of(rule_family)),
            pattern_text: string_of(&chars_of(pattern_text)),
            token_kind: string_of(&chars_of("literal")),
            resolution_layer: string_of(&chars_of("explicit_host_ref")),
            shape_hint: None,
            caller_context_dependent: false,
            opaque_selector_payload: None,
        }
    }
}

/// A match of a host reference rule in formula text.
#[derive(Debug, Clone, PartialEq, Eq, Hash)]
pub struct RuntimeHostReferenceSyntaxMatch {
    pub syntax_match_handle: String,
    pub rule_id: String,
    pub rule_family: String,
    pub source_span: TextSpan,
    pub source_token_text: String,
    pub token_kind: String,
    pub opaque_selector_payload: Option<String>,
    pub resolution_layer: String,
    pub shape_hint: Option<String>,
    pub caller_context_dependent: bool,
    pub diagnostics: Vec<String>,
}

/// A match as plain values.
pub struct HostSyntaxMatchModel {
    pub syntax_match_handle: Seq<char>,
    pub rule_id: Seq<char>,
    pub rule_family: Seq<char>,
    pub source_span: TextSpan,
    pub source_token_text: Seq<char>,
    pub token_kind: Seq<char>,
    pub opaque_selector_payload: Option<Seq<char>>,
    pub resolution_layer: Seq<char>,
    pub shape_hint: Option<Seq<char>>,
    pub caller_context_dependent: bool,
    pub diagnostics: Seq<Seq<char>>,
}

/// The formal token that stands for a match: `HOST_REF_<start>_<len>`.
pub open spec fn formal_token(span: TextSpan) -> Seq<char> {
    "HOST_REF_"@ + decimal(span.start as nat) + "_"@ + decimal(span.len as nat)
}

impl RuntimeHostReferenceSyntaxMatch {
    pub open spec fn model(&self) -> HostSyntaxMatchModel {
        HostSyntaxMatchModel {
            syntax_match_handle: self.syntax_match_handle@,
            rule_id: self.rule_id@,
            rule_family: self.rule_family@,
            source_span: self.source_span,
            source_token_text: self.source_token_text@,
            token_kind: self.token_kind@,
            opaque_selector_payload: opt_view(self.opaque_selector_payload),
            resolution_layer: self.resolution_layer@,
            shape_hint: opt_view(self.shape_hint),
            caller_context_dependent: self.caller_context_dependent,
            diagnostics: string_views(self.diagnostics@),
        }
    }

    /// A copy with the same model.
    pub fn duplicate(&self) -> (r: RuntimeHostReferenceSyntaxMatch)
        ensures
            r.model() == self.model(),
    {
        RuntimeHostReferenceSyntaxMatch {
            syntax_match_handle: self.syntax_match_handle.clone(),
            rule_id: self.rule_id.clone(),
            rule_family: self.rule_family.clone(),
            source_span: self.source_span,
            source_token_text: self.source_token_text.clone(),
            token_kind: self.token_kind.clone(),
            opaque_selector_payload: copy_opt_string(&self.opaque_selector_payload),
            resolution_layer: self.resolution_layer.clone(),
            shape_hint: copy_opt_string(&self.shape_hint),
            caller_context_dependent: self.caller_context_dependent,
            diagnostics: copy_strings(&self.diagnostics),
        }
    }

    /// The formal token standing for this match in projected formula text.
    pub fn formal_token_text(&self) -> (r: String)
        ensures
            r@ == formal_token(self.source_span),
    {
        let mut v: Vec<char> = Vec::new();
        push_str(&mut v, "HOST_REF_");
        push_decimal(&mut v, self.source_span.start as u64);
        push_str(&mut v, "_");
        push_decimal(&mut v, self.source_span.len as u64);
        string_of(&v)
    }

    /// The bind result of this match before a host resolves it.
    pub fn unresolved_bind_result(&self) -> (r: RuntimeHostReferenceBindResult)
        ensures
            r.reference_handle@ == self.syntax_match_handle@,
            opt_view(r.formal_reference_id) == Some(formal_token(self.source_span)),
            r.source_span == self.source_span,
            r.source_token_text@ == self.source_token_text@,
            opt_view(r.opaque_selector_payload) == opt_view(self.opaque_selector_payload),
            r.resolution_layer@ == self.resolution_layer@,
            opt_view(r.shape_hint) == opt_view(self.shape_hint),
            r.caller_context_dependent == self.caller_context_dependent,
            string_views(r.diagnostics@) == string_views(self.diagnostics@),
            r.replay_identity_contribution@ == "host-reference-syntax-match:"@ + self.rule_id@ + ":"@ + self.rule_family@
                + ":"@ + decimal(self.source_span.start as nat) + ":"@ + decimal(self.source_span.len as nat),
    {
        let mut replay: Vec<char> = Vec::new();
        push_str(&mut replay, "host-reference-syntax-match:");
        push_string(&mut replay, &self.rule_id);
        push_str(&mut replay, ":");
        push_string(&mut replay, &self.rule_family);
        push_str(&mut replay, ":");
        push_decimal(&mut replay, self.source_span.start as u64);
        push_str(&mut replay, ":");
        push_decimal(&mut replay, self.source_span.len as u64);
        RuntimeHostReferenceBindResult {
            reference_handle: self.syntax_match_handle.clone(),
            formal_reference_id: Some(self.formal_token_text()),
            source_span: self.source_span,
            source_token_text: self.source_token_text.clone(),
            opaque_selector_payload: copy_opt_string(&self.opaque_selector_payload),
            resolution_layer: self.resolution_layer.clone(),
            shape_hint: copy_opt_string(&self.shape_hint),
            caller_context_dependent: self.caller_context_dependent,
            diagnostics: copy_strings(&self.diagnostics),
            replay_identity_contribution: string_of(&replay),
        }
    }
}

#[derive(Debug, Clone, PartialEq, Eq, Hash)]
pub struct RuntimeHostNameBindResult {
    pub host_name_handle: String,
    pub canonical_name: String,
    pub source_span: TextSpan,
    pub source_token_text: String,
    pub resolution_layer: String,
    pub binding_kind: String,
    pub shape_hint: Option<String>,
    pub caller_context_dependent: bool,
    pub diagnostics: Vec<String>,
    pub replay_identity_contribution: String,
}

#[derive(Debug, Clone, PartialEq, Eq, Hash)]
pub struct RuntimeHostReferenceBindResult {
    pub reference_handle: String,
    pub formal_reference_id: Option<String>,
    pub source_span: TextSpan,
    pub source_token_text: String,
    pub opaque_selector_payload: Option<String>,
    pub resolution_layer: String,
    pub shape_hint: Option<String>,
    pub caller_context_dependent: bool,
    pub diagnostics: Vec<String>,
    pub replay_identity_contribution: String,
}

#[derive(Debug, Clone, PartialEq, Eq, Hash)]
pub struct RuntimePlanTemplateIdentity {
    pub shape_key: Option<String>,
    pub dispatch_skeleton_key: String,
    pub plan_template_key: String,
    pub folded_plan_key: Option<String>,
    pub template_holes: Vec<RuntimeTemplateHole>,
    pub projection_status: String,
}

#[derive(Debug, Clone, PartialEq, Eq, Hash)]
pub struct RuntimeTemplateHole {
    pub hole_id: String,
    pub ordinal: usize,
    pub path: Option<String>,
    pub hole_kind: String,
    pub hole_kind_key: String,
}

#[derive(Debug, Clone, PartialEq, Eq, Hash)]
pub struct RuntimeHoleBindingIdentity {
    pub hole_binding_fingerprint: String,
    pub binding_count: usize,
    pub projection_status: String,
}

#[derive(Debug, Clone, PartialEq, Eq, Hash)]
pub struct RuntimeFormalReference {
    pub reference_handle: String,
    pub reference_descriptor: String,
    pub reference_family: String,
    pub caller_context_dependent: bool,
    pub host_mappable_identity: Option<String>,
    pub linked_hole_id: Option<String>,
    pub structured_reference_bind_record_handle: Option<String>,
}

#[derive(Debug, Clone, PartialEq, Eq, Hash)]
pub struct RuntimeFunctionRegistryViewIdentity {
    pub registry_snapshot_identity: String,
    pub capability_overlay_identity: Option<String>,
}

#[derive(Debug, Clone, PartialEq, Eq, Hash)]
pub struct RuntimeFunctionCapabilityDenial {
    pub surface_name: String,
    pub canonical_id: Option<String>,
    pub runtime_capability_state: String,
}

#[derive(Debug, Clone, Copy, PartialEq, Eq, Structural, Hash)]
pub enum RuntimeManagedSessionPhase {
    Open,
    CapabilityViewEstablished,
    Executed,
    Committed,
    Rejected,
    Aborted,
    Expired,
}

#[derive(Debug, Clone, PartialEq, Eq, Hash)]
pub struct RuntimeManagedOverlaySummary {
    pub overlay_entry_id: String,
    pub overlay_scope_key: String,
    pub overlay_family: String,
    pub formula_stable_id: String,
}

#[derive(Debug, Clone, PartialEq, Eq, Hash)]
pub struct RuntimeManagedSessionDiagnostics {
    pub session_id: String,
    pub formula_stable_id: String,
    pub phase: RuntimeManagedSessionPhase,
    pub capability_view_key: Option<String>,
    pub overlay_entries: Vec<RuntimeManagedOverlaySummary>,
    pub active_locus_claim_owner: Option<String>,
}

/// A request to evaluate one formula: its source, the backend that runs it,
/// the typed context it queries (`B`), an optional verification publication
/// context (`P`) and how much of the evaluation is traced.
pub struct RuntimeFormulaRequest<B, P> {
    source: FormulaSourceRecord,
    backend: EvaluationBackend,
    typed_query_bundle: B,
    verification_publication_context: Option<P>,
    trace_mode: EvaluationTraceMode,
}

impl<B, P> RuntimeFormulaRequest<B, P> {
    pub closed spec fn source_spec(&self) -> FormulaSourceRecord {
        self.source
    }

    pub closed spec fn backend_spec(&self) -> EvaluationBackend {
        self.backend
    }

    pub closed spec fn typed_query_bundle_spec(&self) -> B {
        self.typed_query_bundle
    }

    pub closed spec fn verification_publication_context_spec(&self) -> Option<P> {
        self.verification_publication_context
    }

    pub closed spec fn trace_mode_spec(&self) -> EvaluationTraceMode {
        self.trace_mode
    }

    /// A request evaluated by the function library backend, with no
    /// publication context, tracing values only.
    pub fn new(source: FormulaSourceRecord, typed_query_bundle: B) -> (r: Self)
        ensures
            r.source_spec() == source,
            r.backend_spec() == EvaluationBackend::OxFuncBacked,
            r.typed_query_bundle_spec() == typed_query_bundle,
            r.verification_publication_context_spec() is None,
            r.trace_mode_spec() == EvaluationTraceMode::ValueOnly,
    {
        RuntimeFormulaRequest {
            source,
            backend: EvaluationBackend::OxFuncBacked,
            typed_query_bundle,
            verification_publication_context: None,
            trace_mode: EvaluationTraceMode::default(),
        }
    }

    pub fn with_backend(self, backend: EvaluationBackend) -> (r: Self)
        ensures
            r.backend_spec() == backend,
            r.source_spec() == self.source_spec(),
            r.typed_query_bundle_spec() == self.typed_query_bundle_spec(),
            r.verification_publication_context_spec() == self.verification_publication_context_spec(),
            r.trace_mode_spec() == self.trace_mode_spec(),
    {
        let mut r = self;
        r.backend = backend;
        r
    }

    pub fn with_verification_publication_context(self, verification_publication_context: P) -> (r: Self)
        ensures
            r.verification_publication_context_spec() == Some(verification_publication_context),
            r.source_spec() == self.source_spec(),
            r.backend_spec() == self.backend_spec(),
            r.typed_query_bundle_spec() == self.typed_query_bundle_spec(),
            r.trace_mode_spec() == self.trace_mode_spec(),
    {
        let mut r = self;
        r.verification_publication_context = Some(verification_publication_context);
        r
    }

    pub fn with_trace_mode(self, trace_mode: EvaluationTraceMode) -> (r: Self)
        ensures
            r.trace_mode_spec() == trace_mode,
            r.source_spec() == self.source_spec(),
            r.backend_spec() == self.backend_spec(),
            r.typed_query_bundle_spec() == self.typed_query_bundle_spec(),
            r.verification_publication_context_spec() == self.verification_publication_context_spec(),
    {
        let mut r = self;
        r.trace_mode = trace_mode;
        r
    }

    pub fn source(&self) -> (r: &FormulaSourceRecord)
        ensures
            *r == self.source_spec(),
    {
        &self.source
    }

    pub fn backend(&self) -> (r: EvaluationBackend)
        ensures
            r == self.backend_spec(),
    {
        self.backend
    }

    pub fn typed_query_bundle(&self) -> (r: &B)
        ensures
            *r == self.typed_query_bundle_spec(),
    {
        &self.typed_query_bundle
    }

    pub fn verification_publication_context(&self) -> (r: Option<&P>)
        ensures
            r == match self.verification_publication_context_spec() {
                Some(p) => Some(&p),
                None => None::<&P>,
            },
    {
        match &self.verification_publication_context {
            Some(p) => Some(p),
            None => None,
        }
    }

    pub fn trace_mode(&self) -> (r: EvaluationTraceMode)
        ensures
            r == self.trace_mode_spec(),
    {
        self.trace_mode
    }
}

} // verus!
