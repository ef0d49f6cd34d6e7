//! The identity of a prepared formula and the package that carries it.

use vstd::prelude::*;

use crate::binding::reference::{
    StructuredReferenceBindDiagnosticLink, StructuredReferenceBindRecord, StructuredReferenceSelectedRegion,
    StructuredResolvedRef, StructuredResolvedRefModel, StructuredSectionKind,
};
use crate::consumer::runtime::{
    RuntimeFormalReference, RuntimeFunctionCapabilityDenial, RuntimeHoleBindingIdentity, RuntimeHostFormulaContext,
    RuntimeHostNameBindResult, RuntimeHostReferenceBindResult, RuntimeHostReferenceSyntaxRule,
    RuntimePlanTemplateIdentity, RuntimeTemplateHole,
};
use crate::interface::LibraryContextSnapshotRef;
use crate::text::{chars_of, string_of};

verus! {

#[derive(Debug, Clone, PartialEq, Eq)]
pub struct RuntimePreparedFormulaIdentity {
    pub prepared_formula_key: String,
    pub formula_stable_id: String,
    pub formula_text_version: u64,
    pub formula_token: String,
    pub library_context_snapshot_ref: Option<LibraryContextSnapshotRef>,
    pub structure_context_version: String,
    pub caller_context_key: Option<String>,
    pub semantic_kernel_metadata_version: Option<String>,
    pub arg_admission_metadata_version: Option<String>,
    pub host_formula_context: Option<RuntimeHostFormulaContext>,
    pub host_name_bind_results: Vec<RuntimeHostNameBindResult>,
    pub host_reference_bind_results: Vec<RuntimeHostReferenceBindResult>,
    pub registry_snapshot_identity: Option<String>,
    pub capability_overlay_identity: Option<String>,
    pub registry_capability_denials: Vec<RuntimeFunctionCapabilityDenial>,
    pub table_context_fingerprint: Option<String>,
    pub structured_reference_bind_records: Vec<StructuredReferenceBindRecord>,
    pub plan_template: RuntimePlanTemplateIdentity,
    pub hole_binding: RuntimeHoleBindingIdentity,
    pub formal_references: Vec<RuntimeFormalReference>,
    pub projection_status: String,
}

#[derive(Debug, Clone, PartialEq, Eq)]
pub struct RuntimePreparedFormulaPackage {
    pub package_key: String,
    pub identity: RuntimePreparedFormulaIdentity,
    pub plan_template: RuntimePlanTemplateIdentity,
    pub hole_binding: RuntimeHoleBindingIdentity,
    pub formal_references: Vec<RuntimeFormalReference>,
    pub structured_reference_bind_records: Vec<StructuredReferenceBindRecord>,
    pub projection_status: String,
}

// ---------------------------------------------------------------------------
// Copies
// ---------------------------------------------------------------------------

fn clone_opt_string(o: &Option<String>) -> (r: Option<String>)
    ensures
        r == *o,
{
    match o {
        Some(s) => Some(s.clone()),
        None => None,
    }
}

fn clone_strings(v: &Vec<String>) -> (r: Vec<String>)
    ensures
        r@ == v@,
{
    let mut r: Vec<String> = Vec::new();
    let mut i: usize = 0;
    while i < v.len()
        invariant
            i <= v@.len(),
            r@ == v@.take(i as int),
        decreases v.len() - i,
    {
        r.push(v[i].clone());
        assert(v@.take(i + 1) =~= v@.take(i as int).push(v@[i as int]));
        i = i + 1;
    }
    assert(v@.take(v@.len() as int) =~= v@);
    r
}

fn clone_sections(v: &Vec<StructuredSectionKind>) -> (r: Vec<StructuredSectionKind>)
    ensures
        r@ == v@,
{
    let mut r: Vec<StructuredSectionKind> = Vec::new();
    let mut i: usize = 0;
    while i < v.len()
        invariant
            i <= v@.len(),
            r@ == v@.take(i as int),
        decreases v.len() - i,
    {
        r.push(v[i]);
        assert(v@.take(i + 1) =~= v@.take(i as int).push(v@[i as int]));
        i = i + 1;
    }
    assert(v@.take(v@.len() as int) =~= v@);
    r
}

impl RuntimeHostReferenceSyntaxRule {
    pub fn copy(&self) -> (r: RuntimeHostReferenceSyntaxRule)
        ensures
            r == *self,
    {
        RuntimeHostReferenceSyntaxRule {
            rule_id: self.rule_id.clone(),
            rule_family: self.rule_family.clone(),
            pattern_text: self.pattern_text.clone(),
            token_kind: self.token_kind.clone(),
            resolution_layer: self.resolution_layer.clone(),
            shape_hint: clone_opt_string(&self.shape_hint),
            caller_context_dependent: self.caller_context_dependent,
            opaque_selector_payload: clone_opt_string(&self.opaque_selector_payload),
        }
    }
}

/// `a` has the fields of `b`, its rules the same rules.
pub open spec fn same_host_context(a: RuntimeHostFormulaContext, b: RuntimeHostFormulaContext) -> bool {
    &&& a.dialect_id == b.dialect_id
    &&& a.capability_profile_id == b.capability_profile_id
    &&& a.resolution_rule_version == b.resolution_rule_version
    &&& a.host_namespace_version == b.host_namespace_version
    &&& a.registry_snapshot_identity == b.registry_snapshot_identity
    &&& a.structure_context_version == b.structure_context_version
    &&& a.caller_context_identity == b.caller_context_identity
    &&& a.table_context_identity == b.table_context_identity
    &&& a.host_reference_syntax_rules@ == b.host_reference_syntax_rules@
}

impl RuntimeHostFormulaContext {
    pub fn copy(&self) -> (r: RuntimeHostFormulaContext)
        ensures
            same_host_context(r, *self),
    {
        let mut rules: Vec<RuntimeHostReferenceSyntaxRule> = Vec::new();
        let mut i: usize = 0;
        while i < self.host_reference_syntax_rules.len()
            invariant
                i <= self.host_reference_syntax_rules@.len(),
                rules@ == self.host_reference_syntax_rules@.take(i as int),
            decreases self.host_reference_syntax_rules.len() - i,
        {
            rules.push(self.host_reference_syntax_rules[i].copy());
            assert(self.host_reference_syntax_rules@.take(i + 1)
                =~= self.host_reference_syntax_rules@.take(i as int).push(self.host_reference_syntax_rules@[i as int]));
            i = i + 1;
        }
        assert(self.host_reference_syntax_rules@.take(self.host_reference_syntax_rules@.len() as int) =~= self.host_reference_syntax_rules@);
        RuntimeHostFormulaContext {
            dialect_id: self.dialect_id.clone(),
            capability_profile_id: self.capability_profile_id.clone(),
            resolution_rule_version: self.resolution_rule_version.clone(),
            host_namespace_version: clone_opt_string(&self.host_namespace_version),
            registry_snapshot_identity: clone_opt_string(&self.registry_snapshot_identity),
            structure_context_version: clone_opt_string(&self.structure_context_version),
            caller_context_identity: clone_opt_string(&self.caller_context_identity),
            table_context_identity: clone_opt_string(&self.table_context_identity),
            host_reference_syntax_rules: rules,
        }
    }
}

/// `a` has the fields of `b`, its diagnostics the same ones.
pub open spec fn same_name_result(a: RuntimeHostNameBindResult, b: RuntimeHostNameBindResult) -> bool {
    &&& a.host_name_handle == b.host_name_handle
    &&& a.canonical_name == b.canonical_name
    &&& a.source_span == b.source_span
    &&& a.source_token_text == b.source_token_text
    &&& a.resolution_layer == b.resolution_layer
    &&& a.binding_kind == b.binding_kind
    &&& a.shape_hint == b.shape_hint
    &&& a.caller_context_dependent == b.caller_context_dependent
    &&& a.diagnostics@ == b.diagnostics@
    &&& a.replay_identity_contribution == b.replay_identity_contribution
}

impl RuntimeHostNameBindResult {
    pub fn copy(&self) -> (r: RuntimeHostNameBindResult)
        ensures
            same_name_result(r, *self),
    {
        RuntimeHostNameBindResult {
            host_name_handle: self.host_name_handle.clone(),
            canonical_name: self.canonical_name.clone(),
            source_span: self.source_span,
            source_token_text: self.source_token_text.clone(),
            resolution_layer: self.resolution_layer.clone(),
            binding_kind: self.binding_kind.clone(),
            shape_hint: clone_opt_string(&self.shape_hint),
            caller_context_dependent: self.caller_context_dependent,
            diagnostics: clone_strings(&self.diagnostics),
            replay_identity_contribution: self.replay_identity_contribution.clone(),
        }
    }
}

/// `a` has the fields of `b`, its diagnostics the same ones.
pub open spec fn same_reference_result(a: RuntimeHostReferenceBindResult, b: RuntimeHostReferenceBindResult) -> bool {
    &&& a.reference_handle == b.reference_handle
    &&& a.formal_reference_id == b.formal_reference_id
    &&& a.source_span == b.source_span
    &&& a.source_token_text == b.source_token_text
    &&& a.opaque_selector_payload == b.opaque_selector_payload
    &&& a.resolution_layer == b.resolution_layer
    &&& a.shape_hint == b.shape_hint
    &&& a.caller_context_dependent == b.caller_context_dependent
    &&& a.diagnostics@ == b.diagnostics@
    &&& a.replay_identity_contribution == b.replay_identity_contribution
}

impl RuntimeHostReferenceBindResult {
    pub fn copy(&self) -> (r: RuntimeHostReferenceBindResult)
        ensures
            same_reference_result(r, *self),
    {
        RuntimeHostReferenceBindResult {
            reference_handle: self.reference_handle.clone(),
            formal_reference_id: clone_opt_string(&self.formal_reference_id),
            source_span: self.source_span,
            source_token_text: self.source_token_text.clone(),
            opaque_selector_payload: clone_opt_string(&self.opaque_selector_payload),
            resolution_layer: self.resolution_layer.clone(),
            shape_hint: clone_opt_string(&self.shape_hint),
            caller_context_dependent: self.caller_context_dependent,
            diagnostics: clone_strings(&self.diagnostics),
            replay_identity_contribution: self.replay_identity_contribution.clone(),
        }
    }
}

impl RuntimeFunctionCapabilityDenial {
    pub fn copy(&self) -> (r: RuntimeFunctionCapabilityDenial)
        ensures
            r == *self,
    {
        RuntimeFunctionCapabilityDenial {
            surface_name: self.surface_name.clone(),
            canonical_id: clone_opt_string(&self.canonical_id),
            runtime_capability_state: self.runtime_capability_state.clone(),
        }
    }
}

impl RuntimeTemplateHole {
    pub fn copy(&self) -> (r: RuntimeTemplateHole)
        ensures
            r == *self,
    {
        RuntimeTemplateHole {
            hole_id: self.hole_id.clone(),
            ordinal: self.ordinal,
            path: clone_opt_string(&self.path),
            hole_kind: self.hole_kind.clone(),
            hole_kind_key: self.hole_kind_key.clone(),
        }
    }
}

/// `a` has the fields of `b`, its holes the same holes.
pub open spec fn same_template(a: RuntimePlanTemplateIdentity, b: RuntimePlanTemplateIdentity) -> bool {
    &&& a.shape_key == b.shape_key
    &&& a.dispatch_skeleton_key == b.dispatch_skeleton_key
    &&& a.plan_template_key == b.plan_template_key
    &&& a.folded_plan_key == b.folded_plan_key
    &&& a.template_holes@ == b.template_holes@
    &&& a.projection_status == b.projection_status
}

impl RuntimePlanTemplateIdentity {
    pub fn copy(&self) -> (r: RuntimePlanTemplateIdentity)
        ensures
            same_template(r, *self),
    {
        let mut holes: Vec<RuntimeTemplateHole> = Vec::new();
        let mut i: usize = 0;
        while i < self.template_holes.len()
            invariant
                i <= self.template_holes@.len(),
                holes@ == self.template_holes@.take(i as int),
            decreases self.template_holes.len() - i,
        {
            holes.push(self.template_holes[i].copy());
            assert(self.template_holes@.take(i + 1) =~= self.template_holes@.take(i as int).push(self.template_holes@[i as int]));
            i = i + 1;
        }
        assert(self.template_holes@.take(self.template_holes@.len() as int) =~= self.template_holes@);
        RuntimePlanTemplateIdentity {
            shape_key: clone_opt_string(&self.shape_key),
            dispatch_skeleton_key: self.dispatch_skeleton_key.clone(),
            plan_template_key: self.plan_template_key.clone(),
            folded_plan_key: clone_opt_string(&self.folded_plan_key),
            template_holes: holes,
            projection_status: self.projection_status.clone(),
        }
    }
}

impl RuntimeHoleBindingIdentity {
    pub fn copy(&self) -> (r: RuntimeHoleBindingIdentity)
        ensures
            r == *self,
    {
        RuntimeHoleBindingIdentity {
            hole_binding_fingerprint: self.hole_binding_fingerprint.clone(),
            binding_count: self.binding_count,
            projection_status: self.projection_status.clone(),
        }
    }
}

impl RuntimeFormalReference {
    pub fn copy(&self) -> (r: RuntimeFormalReference)
        ensures
            r == *self,
    {
        RuntimeFormalReference {
            reference_handle: self.reference_handle.clone(),
            reference_descriptor: self.reference_descriptor.clone(),
            reference_family: self.reference_family.clone(),
            caller_context_dependent: self.caller_context_dependent,
            host_mappable_identity: clone_opt_string(&self.host_mappable_identity),
            linked_hole_id: clone_opt_string(&self.linked_hole_id),
            structured_reference_bind_record_handle: clone_opt_string(&self.structured_reference_bind_record_handle),
        }
    }
}

fn clone_formal_references(v: &Vec<RuntimeFormalReference>) -> (r: Vec<RuntimeFormalReference>)
    ensures
        r@ == v@,
{
    let mut r: Vec<RuntimeFormalReference> = Vec::new();
    let mut i: usize = 0;
    while i < v.len()
        invariant
            i <= v@.len(),
            r@ == v@.take(i as int),
        decreases v.len() - i,
    {
        r.push(v[i].copy());
        assert(v@.take(i + 1) =~= v@.take(i as int).push(v@[i as int]));
        i = i + 1;
    }
    assert(v@.take(v@.len() as int) =~= v@);
    r
}

/// `a` has the fields of `b`, its column ranges the same ones.
pub open spec fn same_region(a: StructuredReferenceSelectedRegion, b: StructuredReferenceSelectedRegion) -> bool {
    &&& a.section_kind == b.section_kind
    &&& a.region_ref == b.region_ref
    &&& a.column_range_refs@ == b.column_range_refs@
    &&& a.is_empty == b.is_empty
}

pub open spec fn resolved_model(r: Option<StructuredResolvedRef>) -> Option<StructuredResolvedRefModel> {
    match r {
        Some(x) => Some(x.model()),
        None => None,
    }
}

/// `a` has the fields of `b`: its lists hold the same items, its regions
/// the same regions and its target the same target.
pub open spec fn same_record(a: StructuredReferenceBindRecord, b: StructuredReferenceBindRecord) -> bool {
    &&& a.bind_record_handle == b.bind_record_handle
    &&& a.source_span_utf8 == b.source_span_utf8
    &&& a.source_token_text == b.source_token_text
    &&& a.source_token_kind == b.source_token_kind
    &&& a.explicit_table_name == b.explicit_table_name
    &&& a.omitted_table_name == b.omitted_table_name
    &&& a.effective_table_id == b.effective_table_id
    &&& a.effective_table_name == b.effective_table_name
    &&& a.selected_column_ids@ == b.selected_column_ids@
    &&& a.selected_sections@ == b.selected_sections@
    &&& a.selected_regions@.len() == b.selected_regions@.len()
    &&& forall|i: int| 0 <= i < a.selected_regions@.len() ==> same_region(#[trigger] a.selected_regions@[i], b.selected_regions@[i])
    &&& a.uses_this_row == b.uses_this_row
    &&& a.caller_context_dependent == b.caller_context_dependent
    &&& resolved_model(a.resolved_reference) == resolved_model(b.resolved_reference)
    &&& a.diagnostics@ == b.diagnostics@
}

/// `a` and `b` are records copied one for one.
pub open spec fn same_records(a: Seq<StructuredReferenceBindRecord>, b: Seq<StructuredReferenceBindRecord>) -> bool {
    a.len() == b.len() && forall|i: int| 0 <= i < a.len() ==> same_record(#[trigger] a[i], b[i])
}

impl StructuredReferenceSelectedRegion {
    pub fn copy(&self) -> (r: StructuredReferenceSelectedRegion)
        ensures
            same_region(r, *self),
    {
        StructuredReferenceSelectedRegion {
            section_kind: self.section_kind,
            region_ref: clone_opt_string(&self.region_ref),
            column_range_refs: clone_strings(&self.column_range_refs),
            is_empty: self.is_empty,
        }
    }
}

impl StructuredReferenceBindDiagnosticLink {
    pub fn copy(&self) -> (r: StructuredReferenceBindDiagnosticLink)
        ensures
            r == *self,
    {
        StructuredReferenceBindDiagnosticLink {
            diagnostic_code: self.diagnostic_code.clone(),
            message: self.message.clone(),
            source_span_utf8: self.source_span_utf8,
        }
    }
}

impl StructuredReferenceBindRecord {
    pub fn copy(&self) -> (r: StructuredReferenceBindRecord)
        ensures
            same_record(r, *self),
    {
        let mut regions: Vec<StructuredReferenceSelectedRegion> = Vec::new();
        let mut i: usize = 0;
        while i < self.selected_regions.len()
            invariant
                i <= self.selected_regions@.len(),
                regions@.len() == i,
                forall|k: int| 0 <= k < i ==> same_region(#[trigger] regions@[k], self.selected_regions@[k]),
            decreases self.selected_regions.len() - i,
        {
            regions.push(self.selected_regions[i].copy());
            i = i + 1;
        }
        let mut diagnostics: Vec<StructuredReferenceBindDiagnosticLink> = Vec::new();
        let mut j: usize = 0;
        while j < self.diagnostics.len()
            invariant
                j <= self.diagnostics@.len(),
                diagnostics@ == self.diagnostics@.take(j as int),
            decreases self.diagnostics.len() - j,
        {
            diagnostics.push(self.diagnostics[j].copy());
            assert(self.diagnostics@.take(j + 1) =~= self.diagnostics@.take(j as int).push(self.diagnostics@[j as int]));
            j = j + 1;
        }
        assert(self.diagnostics@.take(self.diagnostics@.len() as int) =~= self.diagnostics@);
        let resolved_reference = match &self.resolved_reference {
            Some(r) => Some(r.duplicate()),
            None => None,
        };
        StructuredReferenceBindRecord {
            bind_record_handle: self.bind_record_handle.clone(),
            source_span_utf8: self.source_span_utf8,
            source_token_text: self.source_token_text.clone(),
            source_token_kind: self.source_token_kind,
            explicit_table_name: clone_opt_string(&self.explicit_table_name),
            omitted_table_name: self.omitted_table_name,
            effective_table_id: clone_opt_string(&self.effective_table_id),
            effective_table_name: clone_opt_string(&self.effective_table_name),
            selected_column_ids: clone_strings(&self.selected_column_ids),
            selected_sections: clone_sections(&self.selected_sections),
            selected_regions: regions,
            uses_this_row: self.uses_this_row,
            caller_context_dependent: self.caller_context_dependent,
            resolved_reference,
            diagnostics,
        }
    }
}

fn clone_records(v: &Vec<StructuredReferenceBindRecord>) -> (r: Vec<StructuredReferenceBindRecord>)
    ensures
        same_records(r@, v@),
{
    let mut r: Vec<StructuredReferenceBindRecord> = Vec::new();
    let mut i: usize = 0;
    while i < v.len()
        invariant
            i <= v@.len(),
            r@.len() == i,
            forall|k: int| 0 <= k < i ==> same_record(#[trigger] r@[k], v@[k]),
        decreases v.len() - i,
    {
        r.push(v[i].copy());
        i = i + 1;
    }
    r
}

/// `a` has the fields of `b`, each copied one for one.
pub open spec fn same_identity(a: RuntimePreparedFormulaIdentity, b: RuntimePreparedFormulaIdentity) -> bool {
    &&& a.prepared_formula_key == b.prepared_formula_key
    &&& a.formula_stable_id == b.formula_stable_id
    &&& a.formula_text_version == b.formula_text_version
    &&& a.formula_token == b.formula_token
    &&& a.library_context_snapshot_ref == b.library_context_snapshot_ref
    &&& a.structure_context_version == b.structure_context_version
    &&& a.caller_context_key == b.caller_context_key
    &&& a.semantic_kernel_metadata_version == b.semantic_kernel_metadata_version
    &&& a.arg_admission_metadata_version == b.arg_admission_metadata_version
    &&& (a.host_formula_context is Some <==> b.host_formula_context is Some)
    &&& (a.host_formula_context is Some ==> same_host_context(a.host_formula_context->0, b.host_formula_context->0))
    &&& a.host_name_bind_results@.len() == b.host_name_bind_results@.len()
    &&& forall|i: int| 0 <= i < a.host_name_bind_results@.len() ==> same_name_result(#[trigger] a.host_name_bind_results@[i], b.host_name_bind_results@[i])
    &&& a.host_reference_bind_results@.len() == b.host_reference_bind_results@.len()
    &&& forall|i: int| 0 <= i < a.host_reference_bind_results@.len() ==> same_reference_result(#[trigger] a.host_reference_bind_results@[i], b.host_reference_bind_results@[i])
    &&& a.registry_snapshot_identity == b.registry_snapshot_identity
    &&& a.capability_overlay_identity == b.capability_overlay_identity
    &&& a.registry_capability_denials@ == b.registry_capability_denials@
    &&& a.table_context_fingerprint == b.table_context_fingerprint
    &&& same_records(a.structured_reference_bind_records@, b.structured_reference_bind_records@)
    &&& same_template(a.plan_template, b.plan_template)
    &&& a.hole_binding == b.hole_binding
    &&& a.formal_references@ == b.formal_references@
    &&& a.projection_status == b.projection_status
}

impl RuntimePreparedFormulaIdentity {
    pub fn copy(&self) -> (r: RuntimePreparedFormulaIdentity)
        ensures
            same_identity(r, *self),
    {
        let snapshot = match &self.library_context_snapshot_ref {
            Some(s) => Some(LibraryContextSnapshotRef { snapshot_id: s.snapshot_id.clone(), snapshot_version: s.snapshot_version.clone() }),
            None => None,
        };
        let host = match &self.host_formula_context {
            Some(c) => Some(c.copy()),
            None => None,
        };
        let mut names: Vec<RuntimeHostNameBindResult> = Vec::new();
        let mut i: usize = 0;
        while i < self.host_name_bind_results.len()
            invariant
                i <= self.host_name_bind_results@.len(),
                names@.len() == i,
                forall|k: int| 0 <= k < i ==> same_name_result(#[trigger] names@[k], self.host_name_bind_results@[k]),
            decreases self.host_name_bind_results.len() - i,
        {
            names.push(self.host_name_bind_results[i].copy());
            i = i + 1;
        }
        let mut refs: Vec<RuntimeHostReferenceBindResult> = Vec::new();
        let mut j: usize = 0;
        while j < self.host_reference_bind_results.len()
            invariant
                j <= self.host_reference_bind_results@.len(),
                refs@.len() == j,
                forall|k: int| 0 <= k < j ==> same_reference_result(#[trigger] refs@[k], self.host_reference_bind_results@[k]),
            decreases self.host_reference_bind_results.len() - j,
        {
            refs.push(self.host_reference_bind_results[j].copy());
            j = j + 1;
        }
        let mut denials: Vec<RuntimeFunctionCapabilityDenial> = Vec::new();
        let mut d: usize = 0;
        while d < self.registry_capability_denials.len()
            invariant
                d <= self.registry_capability_denials@.len(),
                denials@ == self.registry_capability_denials@.take(d as int),
            decreases self.registry_capability_denials.len() - d,
        {
            denials.push(self.registry_capability_denials[d].copy());
            assert(self.registry_capability_denials@.take(d + 1)
                =~= self.registry_capability_denials@.take(d as int).push(self.registry_capability_denials@[d as int]));
            d = d + 1;
        }
        assert(self.registry_capability_denials@.take(self.registry_capability_denials@.len() as int) =~= self.registry_capability_denials@);
        RuntimePreparedFormulaIdentity {
            prepared_formula_key: self.prepared_formula_key.clone(),
            formula_stable_id: self.formula_stable_id.clone(),
            formula_text_version: self.formula_text_version,
            formula_token: self.formula_token.clone(),
            library_context_snapshot_ref: snapshot,
            structure_context_version: self.structure_context_version.clone(),
            caller_context_key: clone_opt_string(&self.caller_context_key),
            semantic_kernel_metadata_version: clone_opt_string(&self.semantic_kernel_metadata_version),
            arg_admission_metadata_version: clone_opt_string(&self.arg_admission_metadata_version),
            host_formula_context: host,
            host_name_bind_results: names,
            host_reference_bind_results: refs,
            registry_snapshot_identity: clone_opt_string(&self.registry_snapshot_identity),
            capability_overlay_identity: clone_opt_string(&self.capability_overlay_identity),
            registry_capability_denials: denials,
            table_context_fingerprint: clone_opt_string(&self.table_context_fingerprint),
            structured_reference_bind_records: clone_records(&self.structured_reference_bind_records),
            plan_template: self.plan_template.copy(),
            hole_binding: self.hole_binding.copy(),
            formal_references: clone_formal_references(&self.formal_references),
            projection_status: self.projection_status.clone(),
        }
    }

    /// The package of this identity: keyed by the prepared formula key, it
    /// carries the identity and its template, hole binding, formal
    /// references and bind records.
    pub fn prepared_formula_package(&self) -> (r: RuntimePreparedFormulaPackage)
        ensures
            r.package_key == self.prepared_formula_key,
            same_identity(r.identity, *self),
            same_template(r.plan_template, self.plan_template),
            r.hole_binding == self.hole_binding,
            r.formal_references@ == self.formal_references@,
            same_records(r.structured_reference_bind_records@, self.structured_reference_bind_records@),
            r.projection_status@ == "current_floor:runtime_identity_package"@,
    {
        RuntimePreparedFormulaPackage {
            package_key: self.prepared_formula_key.clone(),
            identity: self.copy(),
            plan_template: self.plan_template.copy(),
            hole_binding: self.hole_binding.copy(),
            formal_references: clone_formal_references(&self.formal_references),
            structured_reference_bind_records: clone_records(&self.structured_reference_bind_records),
            projection_status: string_of(&chars_of("current_floor:runtime_identity_package")),
        }
    }
}

} // verus!
