//! Reference bind profiles: the contract through which a host can supply
//! its own reference grammar, and the records such a profile produces.

use vstd::prelude::*;

use crate::source::{FormulaChannelKind, TextSpan};
use crate::binding::reference::opt_view;
use crate::text::{chars_of, push_str, push_string, string_of};

verus! {

#[derive(Debug, Clone, PartialEq, Eq, Hash)]
pub struct ProfileVersion(pub String);

impl ProfileVersion {
    pub fn v1() -> (r: ProfileVersion)
        ensures
            r.0@ == "v1"@,
    {
        ProfileVersion(string_of(&chars_of("v1")))
    }
}

#[derive(Debug, Clone, PartialEq, Eq, Hash)]
pub struct ReferenceProfileFingerprint(pub String);

#[derive(Debug, Clone, PartialEq, Eq, Hash)]
pub struct ReferenceNormalFormKey(pub String);

#[derive(Debug, Clone, Copy, PartialEq, Eq, Structural, Hash)]
pub enum ReferencePolicy {
    FormulaOnly,
    LegacyCompatibility,
    ProfileSymbolic,
    HostExtended,
}

#[derive(Debug, Clone, Copy, PartialEq, Eq, Structural, Hash)]
pub enum ReferenceFingerprintPolicy {
    IncludeCallerAnchor,
    ExcludeCallerAnchorForTemplate,
}

#[derive(Debug, Clone, Copy, PartialEq, Eq, Structural, Hash)]
pub struct ReferenceSyntaxCapabilities {
    pub a1_references: bool,
    pub r1c1_references: bool,
    pub host_references: bool,
    pub structured_references: bool,
    pub spill_references: bool,
}

impl ReferenceSyntaxCapabilities {
    /// Worksheet grammar: A1, R1C1, structured and spill references, no host references.
    pub fn worksheet_legacy() -> (r: ReferenceSyntaxCapabilities)
        ensures
            r.a1_references && r.r1c1_references && !r.host_references && r.structured_references
                && r.spill_references,
    {
        ReferenceSyntaxCapabilities {
            a1_references: true,
            r1c1_references: true,
            host_references: false,
            structured_references: true,
            spill_references: true,
        }
    }
}

#[derive(Debug, Clone, PartialEq, Eq, Hash)]
pub struct BindProfile {
    pub profile_id: String,
    pub profile_version: ProfileVersion,
    pub reference_policy: ReferencePolicy,
    pub fingerprint_policy: ReferenceFingerprintPolicy,
    pub syntax_capabilities: ReferenceSyntaxCapabilities,
}

impl BindProfile {
    /// The legacy worksheet profile `formula-legacy` at version `v1`.
    pub fn legacy_compatibility() -> (r: BindProfile)
        ensures
            r.profile_id@ == "formula-legacy"@,
            r.profile_version.0@ == "v1"@,
            r.reference_policy == ReferencePolicy::LegacyCompatibility,
            r.fingerprint_policy == ReferenceFingerprintPolicy::IncludeCallerAnchor,
            r.syntax_capabilities.a1_references && r.syntax_capabilities.r1c1_references
                && !r.syntax_capabilities.host_references && r.syntax_capabilities.structured_references
                && r.syntax_capabilities.spill_references,
    {
        BindProfile {
            profile_id: string_of(&chars_of("formula-legacy")),
            profile_version: ProfileVersion::v1(),
            reference_policy: ReferencePolicy::LegacyCompatibility,
            fingerprint_policy: ReferenceFingerprintPolicy::IncludeCallerAnchor,
            syntax_capabilities: ReferenceSyntaxCapabilities::worksheet_legacy(),
        }
    }
}

#[derive(Debug, Clone, Copy, PartialEq, Eq, Structural, Hash)]
pub struct ReferenceOperatorCapabilities {
    pub range: bool,
    pub union: bool,
    pub intersection: bool,
    pub spill: bool,
}

impl ReferenceOperatorCapabilities {
    /// All four reference operators are available.
    pub fn worksheet_legacy() -> (r: ReferenceOperatorCapabilities)
        ensures
            r.range && r.union && r.intersection && r.spill,
    {
        ReferenceOperatorCapabilities { range: true, union: true, intersection: true, spill: true }
    }
}

#[derive(Debug, Clone, Copy, PartialEq, Eq, Structural, Hash)]
pub enum ReferenceValidity {
    ValidNow,
    ValidAfterInstantiation,
    InvalidStatic,
    InvalidForCurrentPlacement,
    DynamicOrHostSensitive,
    Unsupported,
}

#[derive(Debug, Clone, PartialEq, Eq, Hash)]
pub struct ReferenceSourceInfo {
    pub source_channel: FormulaChannelKind,
    pub source_span: TextSpan,
    pub source_text: String,
    pub parsed_qualifier: Option<String>,
    pub address_fidelity: Option<String>,
}

#[derive(Debug, Clone, PartialEq, Eq, Hash)]
pub struct ProfilePayload {
    pub payload_kind: String,
    pub encoding: String,
    pub data: String,
}

impl ProfilePayload {
    /// A payload of the given kind with `text` encoding.
    pub fn textual(payload_kind: &str, data: &str) -> (r: ProfilePayload)
        ensures
            r.payload_kind@ == payload_kind@,
            r.encoding@ == "text"@,
            r.data@ == data@,
    {
        ProfilePayload {
            payload_kind: string_of(&chars_of(payload_kind)),
            encoding: string_of(&chars_of("text")),
            data: string_of(&chars_of(data)),
        }
    }
}

#[derive(Debug, Clone, PartialEq, Eq, Hash)]
pub struct ProfileReferenceRecord {
    pub profile_id: String,
    pub profile_version: ProfileVersion,
    pub source_info: ReferenceSourceInfo,
    pub profile_payload: ProfilePayload,
    pub normal_form_key: ReferenceNormalFormKey,
    pub render_hint: Option<String>,
    pub validity: ReferenceValidity,
}

pub struct ProfileReferenceRecordModel {
    pub profile_id: Seq<char>,
    pub profile_version: Seq<char>,
    pub source_channel: FormulaChannelKind,
    pub source_span: TextSpan,
    pub source_text: Seq<char>,
    pub parsed_qualifier: Option<Seq<char>>,
    pub address_fidelity: Option<Seq<char>>,
    pub payload_kind: Seq<char>,
    pub payload_encoding: Seq<char>,
    pub payload_data: Seq<char>,
    pub normal_form_key: Seq<char>,
    pub render_hint: Option<Seq<char>>,
    pub validity: ReferenceValidity,
}

impl ProfileReferenceRecord {
    /// A copy with the same model.
    pub fn duplicate(&self) -> (r: ProfileReferenceRecord)
        ensures
            r.model() == self.model(),
    {
        ProfileReferenceRecord {
            profile_id: self.profile_id.clone(),
            profile_version: ProfileVersion(self.profile_version.0.clone()),
            source_info: ReferenceSourceInfo {
                source_channel: self.source_info.source_channel,
                source_span: self.source_info.source_span,
                source_text: self.source_info.source_text.clone(),
                parsed_qualifier: copy_opt_string(&self.source_info.parsed_qualifier),
                address_fidelity: copy_opt_string(&self.source_info.address_fidelity),
            },
            profile_payload: ProfilePayload {
                payload_kind: self.profile_payload.payload_kind.clone(),
                encoding: self.profile_payload.encoding.clone(),
                data: self.profile_payload.data.clone(),
            },
            normal_form_key: ReferenceNormalFormKey(self.normal_form_key.0.clone()),
            render_hint: copy_opt_string(&self.render_hint),
            validity: self.validity,
        }
    }

    pub open spec fn model(&self) -> ProfileReferenceRecordModel {
        ProfileReferenceRecordModel {
            profile_id: self.profile_id@,
            profile_version: self.profile_version.0@,
            source_channel: self.source_info.source_channel,
            source_span: self.source_info.source_span,
            source_text: self.source_info.source_text@,
            parsed_qualifier: opt_view(self.source_info.parsed_qualifier),
            address_fidelity: opt_view(self.source_info.address_fidelity),
            payload_kind: self.profile_payload.payload_kind@,
            payload_encoding: self.profile_payload.encoding@,
            payload_data: self.profile_payload.data@,
            normal_form_key: self.normal_form_key.0@,
            render_hint: opt_view(self.render_hint),
            validity: self.validity,
        }
    }
}


#[derive(Debug, Clone, PartialEq, Eq, Hash)]
pub struct ReferenceProfileFingerprintContext {
    pub workbook_id: String,
    pub sheet_id: String,
    pub caller_row: u32,
    pub caller_col: u32,
    pub structure_context_version: String,
}

#[derive(Debug, Clone, PartialEq, Eq, Hash)]
pub struct ReferenceAtomBindRequest {
    pub source_channel: FormulaChannelKind,
    pub source_span: TextSpan,
    pub source_text: String,
    pub parsed_qualifier: Option<String>,
    pub workbook_id: String,
    pub sheet_id: String,
    pub caller_row: u32,
    pub caller_col: u32,
}

#[derive(Debug, Clone, Copy, PartialEq, Eq, Structural, Hash)]
pub enum ReferenceSelectorKind {
    Collection,
    StructuralSelector,
}

#[derive(Debug, Clone, PartialEq, Eq, Hash)]
pub struct ReferenceSelectorSyntax {
    pub token_text: String,
    pub selector_family: String,
    pub selector_kind: ReferenceSelectorKind,
}

impl ReferenceSelectorSyntax {
    /// A collection selector written `token_text` for `selector_family`.
    pub fn collection(token_text: &str, selector_family: &str) -> (r: ReferenceSelectorSyntax)
        ensures
            r.token_text@ == token_text@,
            r.selector_family@ == selector_family@,
            r.selector_kind == ReferenceSelectorKind::Collection,
    {
        ReferenceSelectorSyntax {
            token_text: string_of(&chars_of(token_text)),
            selector_family: string_of(&chars_of(selector_family)),
            selector_kind: ReferenceSelectorKind::Collection,
        }
    }

    /// A structural selector written `token_text` for `selector_family`.
    pub fn structural_selector(token_text: &str, selector_family: &str) -> (r: ReferenceSelectorSyntax)
        ensures
            r.token_text@ == token_text@,
            r.selector_family@ == selector_family@,
            r.selector_kind == ReferenceSelectorKind::StructuralSelector,
    {
        ReferenceSelectorSyntax {
            token_text: string_of(&chars_of(token_text)),
            selector_family: string_of(&chars_of(selector_family)),
            selector_kind: ReferenceSelectorKind::StructuralSelector,
        }
    }
}

/// A copy of an optional string.
pub fn copy_opt_string(o: &Option<String>) -> (r: Option<String>)
    ensures
        opt_view(r) == opt_view(*o),
{
    match o {
        Some(s) => Some(s.clone()),
        None => None,
    }
}

#[derive(Debug, Clone, PartialEq, Eq, Hash)]
pub struct ReferenceNameBindRequest {
    pub source_channel: FormulaChannelKind,
    pub source_span: TextSpan,
    pub source_text: String,
    pub parsed_qualifier: Option<String>,
    pub workbook_id: String,
    pub sheet_id: String,
    pub caller_row: u32,
    pub caller_col: u32,
}

impl ReferenceNameBindRequest {
    /// The name request carrying every field of an atom request.
    pub fn from_atom(request: &ReferenceAtomBindRequest) -> (r: ReferenceNameBindRequest)
        ensures
            r.source_channel == request.source_channel,
            r.source_span == request.source_span,
            r.source_text@ == request.source_text@,
            opt_view(r.parsed_qualifier) == opt_view(request.parsed_qualifier),
            r.workbook_id@ == request.workbook_id@,
            r.sheet_id@ == request.sheet_id@,
            r.caller_row == request.caller_row,
            r.caller_col == request.caller_col,
    {
        ReferenceNameBindRequest {
            source_channel: request.source_channel,
            source_span: request.source_span,
            source_text: request.source_text.clone(),
            parsed_qualifier: copy_opt_string(&request.parsed_qualifier),
            workbook_id: request.workbook_id.clone(),
            sheet_id: request.sheet_id.clone(),
            caller_row: request.caller_row,
            caller_col: request.caller_col,
        }
    }
}

#[derive(Debug, Clone, PartialEq, Eq, Hash)]
pub struct ReferenceSelectorBindRequest {
    pub source_channel: FormulaChannelKind,
    pub source_span: TextSpan,
    pub source_text: String,
    pub selector_token_text: String,
    pub selector_family: String,
    pub selector_kind: ReferenceSelectorKind,
    pub base: Option<ProfileReferenceRecord>,
    pub workbook_id: String,
    pub sheet_id: String,
    pub caller_row: u32,
    pub caller_col: u32,
}

#[derive(Debug, Clone, PartialEq, Eq, Hash)]
pub struct ReferenceStructuredBindRequest {
    pub source_channel: FormulaChannelKind,
    pub source_span: TextSpan,
    pub source_text: String,
    pub workbook_id: String,
    pub sheet_id: String,
    pub caller_row: u32,
    pub caller_col: u32,
}

#[derive(Debug, Clone, PartialEq, Eq, Hash)]
pub enum ReferenceAtomBindResult {
    Bound(ProfileReferenceRecord),
    LegacyCompatibility,
    Rejected { validity: ReferenceValidity, message: String },
    Unsupported,
}

#[derive(Debug, Clone, PartialEq, Eq, Hash)]
pub struct ReferenceRangeEndpointBindRequest {
    pub source_span: TextSpan,
    pub source_text: String,
    pub target_text: String,
    pub parsed_qualifier: Option<String>,
    pub sheet_id: String,
    pub external_target_id: Option<String>,
}

#[derive(Debug, Clone, PartialEq, Eq, Hash)]
pub struct ReferenceRangeBindRequest {
    pub source_channel: FormulaChannelKind,
    pub source_span: TextSpan,
    pub source_text: String,
    pub left: ReferenceRangeEndpointBindRequest,
    pub right: ReferenceRangeEndpointBindRequest,
    pub workbook_id: String,
    pub sheet_id: String,
    pub caller_row: u32,
    pub caller_col: u32,
}

#[derive(Debug, Clone, PartialEq, Eq, Hash)]
pub enum ReferenceRangeBindResult {
    Bound(ProfileReferenceRecord),
    LegacyCompatibility,
    Rejected { validity: ReferenceValidity, message: String },
    Unsupported,
}

#[derive(Debug, Clone, PartialEq, Eq, Hash)]
pub enum ReferenceDependencyEnvelope {
    NoDependency,
    Static { profile_id: String, dependency_key: String },
    Dynamic { profile_id: String, request_key: String },
    HostSensitive { profile_id: String, reason: String },
    Unsupported { reason: String },
}

#[derive(Debug, Clone, PartialEq, Eq, Hash)]
pub enum ReferenceTransformKind {
    StructuralEdit,
    RenderModeChange,
    HostSpecific(String),
}

#[derive(Debug, Clone, PartialEq, Eq, Hash)]
pub struct ReferenceTransformRequest {
    pub reference: ProfileReferenceRecord,
    pub transform_kind: ReferenceTransformKind,
    pub payload: Option<ProfilePayload>,
}

#[derive(Debug, Clone, Copy, PartialEq, Eq, Structural, Hash)]
pub enum ReferenceTransformOutcome {
    Unchanged,
    Shifted,
    Expanded,
    Shrunk,
    Split,
    PartiallyInvalid,
    FullyInvalid,
    DynamicOrHostSensitive,
    Unsupported,
    GeometryCoupledOpaqueConflict,
}

#[derive(Debug, Clone, PartialEq, Eq, Hash)]
pub struct ReferenceTransformResult {
    pub outcome: ReferenceTransformOutcome,
    pub reference: Option<ProfileReferenceRecord>,
    pub diagnostics: Vec<String>,
}

#[derive(Debug, Clone, PartialEq, Eq, Hash)]
pub struct ReferenceRenderRequest {
    pub reference: ProfileReferenceRecord,
    pub target_channel: FormulaChannelKind,
}

#[derive(Debug, Clone, PartialEq, Eq, Hash)]
pub struct ReferenceRenderResult {
    pub rendered_text: Option<String>,
    pub diagnostics: Vec<String>,
}

#[derive(Debug, Clone, PartialEq, Eq, Hash)]
pub struct ReferenceEditorContext {
    pub source_channel: FormulaChannelKind,
    pub formula_text: String,
    pub cursor_offset: usize,
    pub workbook_id: String,
    pub sheet_id: String,
    pub caller_row: u32,
    pub caller_col: u32,
    pub formula_token: String,
    pub structure_context_version: String,
}

#[derive(Debug, Clone, PartialEq, Eq, Hash)]
pub struct ReferenceCompletionRequest {
    pub editor_context: ReferenceEditorContext,
    pub replacement_span: TextSpan,
    pub prefix: String,
}

#[derive(Debug, Clone, PartialEq, Eq, Hash)]
pub struct ReferenceCompletionProposal {
    pub proposal_id: String,
    pub display_text: String,
    pub insert_text: String,
    pub replacement_span: Option<TextSpan>,
    pub documentation_ref: Option<String>,
    pub profile_payload: Option<ProfilePayload>,
    pub requires_revalidation: bool,
}

#[derive(Debug, Clone, PartialEq, Eq, Hash)]
pub struct ReferenceCompletionResult {
    pub proposals: Vec<ReferenceCompletionProposal>,
    pub diagnostics: Vec<String>,
}

#[derive(Debug, Clone, PartialEq, Eq, Hash)]
pub struct ReferenceInstantiationRequest {
    pub bound_reference: ProfileReferenceRecord,
    pub runtime_host_formula_context: RuntimeHostFormulaContext,
    pub purpose: ReferenceInstantiationPurpose,
}

#[derive(Debug, Clone, PartialEq, Eq, Hash)]
pub struct RuntimeHostFormulaContext {
    pub profile_id: String,
    pub context_payload: Option<ProfilePayload>,
}

#[derive(Debug, Clone, Copy, PartialEq, Eq, Structural, Hash)]
pub enum ReferenceInstantiationPurpose {
    StaticDependencyExtraction,
    RuntimeEvaluation,
    Rendering,
}

#[derive(Debug, Clone, PartialEq, Eq, Hash)]
pub enum InstantiatedReference {
    ReferenceLike { profile_id: String, identity_key: String },
    StaticDependencyEnvelope(ReferenceDependencyEnvelope),
    DynamicDependencyRequest(ReferenceDependencyEnvelope),
    RefError,
    Unsupported { reason: String },
}

/// What an instantiation yields, over plain text.
pub enum InstantiationOutcome {
    ReferenceLike { profile_id: Seq<char>, identity_key: Seq<char> },
    StaticDependency { profile_id: Seq<char>, dependency_key: Seq<char> },
    DynamicRequest { profile_id: Seq<char>, request_key: Seq<char> },
    RefError,
    Unsupported { reason: Seq<char> },
    Other,
}

impl InstantiatedReference {
    pub open spec fn outcome(&self) -> InstantiationOutcome {
        match self {
            InstantiatedReference::ReferenceLike { profile_id, identity_key } =>
                InstantiationOutcome::ReferenceLike { profile_id: profile_id@, identity_key: identity_key@ },
            InstantiatedReference::StaticDependencyEnvelope(ReferenceDependencyEnvelope::Static { profile_id, dependency_key }) =>
                InstantiationOutcome::StaticDependency { profile_id: profile_id@, dependency_key: dependency_key@ },
            InstantiatedReference::DynamicDependencyRequest(ReferenceDependencyEnvelope::Dynamic { profile_id, request_key }) =>
                InstantiationOutcome::DynamicRequest { profile_id: profile_id@, request_key: request_key@ },
            InstantiatedReference::RefError => InstantiationOutcome::RefError,
            InstantiatedReference::Unsupported { reason } => InstantiationOutcome::Unsupported { reason: reason@ },
            _ => InstantiationOutcome::Other,
        }
    }
}

/// How a bound profile reference is instantiated by the profile `profile_id`:
/// a context for another profile is unsupported; valid references become a
/// static dependency envelope for dependency extraction and a reference-like
/// identity otherwise; dynamic ones a dynamic request; invalid ones `#REF!`.
pub open spec fn instantiation_spec(profile_id: Seq<char>, request: ReferenceInstantiationRequest) -> InstantiationOutcome {
    let key = request.bound_reference.normal_form_key.0@;
    if request.runtime_host_formula_context.profile_id@ != profile_id {
        InstantiationOutcome::Unsupported {
            reason: "runtime host formula context profile '"@ + request.runtime_host_formula_context.profile_id@
                + "' does not match reference profile '"@ + profile_id + "'"@,
        }
    } else {
        match request.bound_reference.validity {
            ReferenceValidity::ValidNow | ReferenceValidity::ValidAfterInstantiation => {
                match request.purpose {
                    ReferenceInstantiationPurpose::StaticDependencyExtraction =>
                        InstantiationOutcome::StaticDependency { profile_id, dependency_key: key },
                    _ => InstantiationOutcome::ReferenceLike { profile_id, identity_key: key },
                }
            },
            ReferenceValidity::DynamicOrHostSensitive => InstantiationOutcome::DynamicRequest { profile_id, request_key: key },
            ReferenceValidity::InvalidStatic | ReferenceValidity::InvalidForCurrentPlacement => InstantiationOutcome::RefError,
            ReferenceValidity::Unsupported => InstantiationOutcome::Unsupported {
                reason: "reference '"@ + key + "' is unsupported by profile '"@ + profile_id + "'"@,
            },
        }
    }
}

/// Instantiation of a bound profile reference by the profile named `profile_id`.
pub fn instantiate_profile_reference(profile_id: &str, request: &ReferenceInstantiationRequest) -> (r: InstantiatedReference)
    ensures
        r.outcome() == instantiation_spec(profile_id@, *request),
{
    let id = string_of(&chars_of(profile_id));
    let key = request.bound_reference.normal_form_key.0.clone();
    if request.runtime_host_formula_context.profile_id != id {
        let mut v: Vec<char> = Vec::new();
        push_str(&mut v, "runtime host formula context profile '");
        push_string(&mut v, &request.runtime_host_formula_context.profile_id);
        push_str(&mut v, "' does not match reference profile '");
        push_str(&mut v, profile_id);
        push_str(&mut v, "'");
        return InstantiatedReference::Unsupported { reason: string_of(&v) };
    }
    match request.bound_reference.validity {
        ReferenceValidity::ValidNow | ReferenceValidity::ValidAfterInstantiation => {
            match request.purpose {
                ReferenceInstantiationPurpose::StaticDependencyExtraction =>
                    InstantiatedReference::StaticDependencyEnvelope(ReferenceDependencyEnvelope::Static {
                        profile_id: id,
                        dependency_key: key,
                    }),
                _ => InstantiatedReference::ReferenceLike { profile_id: id, identity_key: key },
            }
        },
        ReferenceValidity::DynamicOrHostSensitive => InstantiatedReference::DynamicDependencyRequest(
            ReferenceDependencyEnvelope::Dynamic { profile_id: id, request_key: key },
        ),
        ReferenceValidity::InvalidStatic | ReferenceValidity::InvalidForCurrentPlacement => InstantiatedReference::RefError,
        ReferenceValidity::Unsupported => {
            let mut v: Vec<char> = Vec::new();
            push_str(&mut v, "reference '");
            push_string(&mut v, &key);
            push_str(&mut v, "' is unsupported by profile '");
            push_str(&mut v, profile_id);
            push_str(&mut v, "'");
            InstantiatedReference::Unsupported { reason: string_of(&v) }
        },
    }
}

/// The default fingerprint of a profile: `<profile_id>:<version>`.
pub fn default_profile_fingerprint(profile_id: &str, version: &ProfileVersion) -> (r: ReferenceProfileFingerprint)
    ensures
        r.0@ == profile_id@ + ":"@ + version.0@,
{
    let mut v: Vec<char> = Vec::new();
    push_str(&mut v, profile_id);
    push_str(&mut v, ":");
    push_string(&mut v, &version.0);
    ReferenceProfileFingerprint(string_of(&v))
}

#[derive(Debug, Clone, PartialEq, Eq, Hash)]
pub struct FormulaSourceIdentity {
    pub key: String,
}

#[derive(Debug, Clone, PartialEq, Eq, Hash)]
pub struct FormulaTemplateIdentity {
    pub key: String,
}

#[derive(Debug, Clone, PartialEq, Eq, Hash)]
pub struct PlacedFormulaIdentity {
    pub key: String,
}

#[derive(Debug, Clone, PartialEq, Eq, Hash)]
pub struct RuntimeDependencyIdentity {
    pub key: String,
}


/// A host-supplied reference grammar. Every method but `profile_id` has a
/// default that keeps legacy worksheet behavior.
pub trait ReferenceBindProfile {
    fn profile_id(&self) -> &str;

    fn profile_version(&self) -> (r: ProfileVersion)
        default_ensures
            r.0@ == "v1"@,
    {
        ProfileVersion::v1()
    }

    fn reference_policy(&self) -> (r: ReferencePolicy)
        default_ensures
            r == ReferencePolicy::LegacyCompatibility,
    {
        ReferencePolicy::LegacyCompatibility
    }

    fn fingerprint_policy(&self) -> (r: ReferenceFingerprintPolicy)
        default_ensures
            r == ReferenceFingerprintPolicy::IncludeCallerAnchor,
    {
        ReferenceFingerprintPolicy::IncludeCallerAnchor
    }

    fn fingerprint(&self, _context: &ReferenceProfileFingerprintContext) -> (r: ReferenceProfileFingerprint)
        default_ensures
            exists|id: &str, version: ProfileVersion|
                #[trigger] call_ensures(Self::profile_id, (self,), id)
                    && #[trigger] call_ensures(Self::profile_version, (self,), version)
                    && r.0@ == id@ + ":"@ + version.0@,
    {
        let version = self.profile_version();
        let id = self.profile_id();
        let r = default_profile_fingerprint(id, &version);
        assert(call_ensures(Self::profile_id, (self,), id) && call_ensures(Self::profile_version, (self,), version));
        r
    }

    fn operator_capabilities(&self) -> (r: ReferenceOperatorCapabilities)
        default_ensures
            r.range && r.union && r.intersection && r.spill,
    {
        ReferenceOperatorCapabilities::worksheet_legacy()
    }

    fn bind_atom(&self, _request: &ReferenceAtomBindRequest) -> (r: ReferenceAtomBindResult)
        default_ensures
            r is LegacyCompatibility,
    {
        ReferenceAtomBindResult::LegacyCompatibility
    }

    fn bind_name(&self, _request: &ReferenceNameBindRequest) -> (r: ReferenceAtomBindResult)
        default_ensures
            r is LegacyCompatibility,
    {
        ReferenceAtomBindResult::LegacyCompatibility
    }

    fn selector_syntax(&self) -> (r: Vec<ReferenceSelectorSyntax>)
        default_ensures
            r@.len() == 0,
    {
        Vec::new()
    }

    fn bind_selector(&self, _request: &ReferenceSelectorBindRequest) -> (r: ReferenceAtomBindResult)
        default_ensures
            r is LegacyCompatibility,
    {
        ReferenceAtomBindResult::LegacyCompatibility
    }

    fn bind_structured_reference(&self, _request: &ReferenceStructuredBindRequest) -> (r: ReferenceAtomBindResult)
        default_ensures
            r is LegacyCompatibility,
    {
        ReferenceAtomBindResult::LegacyCompatibility
    }

    fn bind_range(&self, _request: &ReferenceRangeBindRequest) -> (r: ReferenceRangeBindResult)
        default_ensures
            r is LegacyCompatibility,
    {
        ReferenceRangeBindResult::LegacyCompatibility
    }

    fn normal_form_key(
        &self,
        reference: &ProfileReferenceRecord,
        _context: &ReferenceProfileFingerprintContext,
    ) -> (r: ReferenceNormalFormKey)
        default_ensures
            r.0@ == reference.normal_form_key.0@,
    {
        ReferenceNormalFormKey(reference.normal_form_key.0.clone())
    }

    fn dependency_hints(
        &self,
        _reference: &ProfileReferenceRecord,
        _context: &ReferenceProfileFingerprintContext,
    ) -> (r: ReferenceDependencyEnvelope)
        default_ensures
            r is NoDependency,
    {
        ReferenceDependencyEnvelope::NoDependency
    }

    fn instantiate_reference(&self, request: &ReferenceInstantiationRequest) -> (r: InstantiatedReference)
        default_ensures
            exists|id: &str|
                #[trigger] call_ensures(Self::profile_id, (self,), id)
                    && r.outcome() == instantiation_spec(id@, *request),
    {
        let id = self.profile_id();
        let r = instantiate_profile_reference(id, request);
        assert(call_ensures(Self::profile_id, (self,), id));
        r
    }

    fn transform_reference(&self, request: &ReferenceTransformRequest) -> (r: ReferenceTransformResult)
        default_ensures
            r.outcome is Unsupported,
            r.reference is Some,
            r.diagnostics@.len() == 1,
            r.diagnostics@[0]@ == "reference transform is not supported by this profile"@,
    {
        let mut diagnostics: Vec<String> = Vec::new();
        diagnostics.push(string_of(&chars_of("reference transform is not supported by this profile")));
        ReferenceTransformResult {
            outcome: ReferenceTransformOutcome::Unsupported,
            reference: Some(request.reference.clone()),
            diagnostics,
        }
    }

    fn render_reference(&self, request: &ReferenceRenderRequest) -> (r: ReferenceRenderResult)
        default_ensures
            opt_view(r.rendered_text) == opt_view(request.reference.render_hint),
            r.diagnostics@.len() == 0,
    {
        ReferenceRenderResult { rendered_text: copy_opt_string(&request.reference.render_hint), diagnostics: Vec::new() }
    }

    fn reference_completion_proposals(&self, _request: &ReferenceCompletionRequest) -> (r: ReferenceCompletionResult)
        default_ensures
            r.proposals@.len() == 0,
            r.diagnostics@.len() == 0,
    {
        ReferenceCompletionResult { proposals: Vec::new(), diagnostics: Vec::new() }
    }
}

} // verus!
