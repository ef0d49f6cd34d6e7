//! The identity of a prepared formula, assembled from its source, its bound
//! formula, a summary of its semantic plan, the caller's position and what
//! the host bound around it.

use vstd::prelude::*;

use crate::binding::binder_spec::{norm_models, unresolved_models};
use crate::binding::fingerprint::{default_string_hash, hash_text, hex16, hex16_string};
use crate::binding::reference::{copy_strings, opt_view, render_reference, StructuredReferenceBindRecord};
use crate::binding::BoundFormula;
use crate::consumer::runtime::formal::{
    formal_models, formal_references_spec, hole_models, runtime_formal_references, runtime_template_holes,
    template_holes_spec,
};
use crate::consumer::runtime::identity::{host_context_text, opt_field, push_opt_field};
use crate::consumer::runtime::package::RuntimePreparedFormulaIdentity;
use crate::consumer::runtime::versions::{runtime_metadata_version_summary, version_summary_spec};
use crate::consumer::runtime::{
    RuntimeFunctionCapabilityDenial, RuntimeFunctionRegistryViewIdentity, RuntimeHoleBindingIdentity,
    RuntimeHostFormulaContext, RuntimeHostNameBindResult, RuntimeHostReferenceBindResult, RuntimeOxFuncBridgeMetadata,
    RuntimePlanTemplateIdentity,
};
use crate::interface::LibraryContextSnapshotRef;
use crate::source::FormulaSourceRecord;
use crate::text::{chars_of, decimal, push_decimal, push_str, push_string, string_of, string_views};

verus! {

/// What the prepared-formula identity reads of a semantic plan, as plain
/// values: its key and pinned snapshot, digests of its dispatch skeleton
/// (function bindings, availability, catalog identity) and of its helper
/// profile and capability requirements, and the metadata versions the
/// function registry gives for its function bindings.
pub struct RuntimePlanSummary {
    pub semantic_plan_key: String,
    pub library_context_snapshot_ref: Option<LibraryContextSnapshotRef>,
    pub dispatch_digest: String,
    pub helper_digest: String,
    pub semantic_kernel_metadata_versions: Vec<String>,
    pub arg_admission_metadata_versions: Vec<String>,
}

/// The caller's position.
pub struct RuntimeLocus {
    pub sheet_id: String,
    pub row: u32,
    pub col: u32,
}

/// The bridge metadata version of one family: the override when there is
/// one, else the summary of the versions the plan's functions carry.
pub open spec fn bridge_version_spec(override_version: Option<Seq<char>>, versions: Seq<Seq<char>>, family: Seq<char>) -> Option<Seq<char>> {
    match override_version {
        Some(v) => Some(v),
        None => version_summary_spec(versions, family),
    }
}

fn bridge_version(override_version: &Option<String>, versions: &Vec<String>, family: &str) -> (r: Option<String>)
    ensures
        opt_view(r) == bridge_version_spec(opt_view(*override_version), string_views(versions@), family@),
{
    match override_version {
        Some(v) => Some(v.clone()),
        None => runtime_metadata_version_summary(copy_strings(versions), family),
    }
}

/// The bridge metadata a plan runs with: each version as overridden, or
/// else summarized from the plan's functions.
pub fn runtime_oxfunc_bridge_metadata_for_plan(
    plan: &RuntimePlanSummary,
    override_metadata: &RuntimeOxFuncBridgeMetadata,
) -> (r: RuntimeOxFuncBridgeMetadata)
    ensures
        opt_view(r.semantic_kernel_metadata_version) == bridge_version_spec(
            opt_view(override_metadata.semantic_kernel_metadata_version),
            string_views(plan.semantic_kernel_metadata_versions@),
            "semantic_kernel_metadata"@,
        ),
        opt_view(r.arg_admission_metadata_version) == bridge_version_spec(
            opt_view(override_metadata.arg_admission_metadata_version),
            string_views(plan.arg_admission_metadata_versions@),
            "arg_admission_metadata"@,
        ),
{
    RuntimeOxFuncBridgeMetadata {
        semantic_kernel_metadata_version: bridge_version(
            &override_metadata.semantic_kernel_metadata_version,
            &plan.semantic_kernel_metadata_versions,
            "semantic_kernel_metadata",
        ),
        arg_admission_metadata_version: bridge_version(
            &override_metadata.arg_admission_metadata_version,
            &plan.arg_admission_metadata_versions,
            "arg_admission_metadata",
        ),
    }
}

/// The caller context key of a locus.
pub open spec fn locus_key(locus: RuntimeLocus) -> Seq<char> {
    "locus:"@ + locus.sheet_id@ + ":"@ + decimal(locus.row as nat) + ":"@ + decimal(locus.col as nat)
}

fn locus_key_of(locus: &RuntimeLocus) -> (r: String)
    ensures
        r@ == locus_key(*locus),
{
    let mut v: Vec<char> = Vec::new();
    push_str(&mut v, "locus:");
    push_string(&mut v, &locus.sheet_id);
    push_str(&mut v, ":");
    push_decimal(&mut v, locus.row as u64);
    push_str(&mut v, ":");
    push_decimal(&mut v, locus.col as u64);
    assert(v@ =~= locus_key(*locus));
    string_of(&v)
}

/// The views of optional strings.
pub open spec fn opt_views(s: Seq<Option<String>>) -> Seq<Option<Seq<char>>> {
    s.map_values(|o: Option<String>| opt_view(o))
}

/// The parts of a key, each written as an optional field, one after another.
pub open spec fn parts_text(parts: Seq<Option<Seq<char>>>) -> Seq<char>
    decreases parts.len(),
{
    if parts.len() == 0 {
        Seq::empty()
    } else {
        parts_text(parts.drop_last()) + opt_field(parts.last())
    }
}

fn push_parts_text(v: &mut Vec<char>, parts: &Vec<Option<String>>)
    ensures
        final(v)@ == old(v)@ + parts_text(opt_views(parts@)),
{
    let ghost start = v@;
    let mut i: usize = 0;
    assert(opt_views(parts@.take(0)) =~= Seq::<Option<Seq<char>>>::empty());
    assert(v@ =~= start + parts_text(opt_views(parts@.take(0))));
    while i < parts.len()
        invariant
            i <= parts@.len(),
            v@ == start + parts_text(opt_views(parts@.take(i as int))),
        decreases parts.len() - i,
    {
        push_opt_field(v, &parts[i]);
        assert(opt_views(parts@.take(i + 1)).drop_last() =~= opt_views(parts@.take(i as int)));
        assert(opt_views(parts@.take(i + 1)).last() == opt_view(parts@[i as int]));
        i = i + 1;
        assert(v@ =~= start + parts_text(opt_views(parts@.take(i as int))));
    }
    assert(parts@.take(parts@.len() as int) =~= parts@);
}

fn push_part(parts: &mut Vec<Option<String>>, x: Option<String>)
    ensures
        opt_views(final(parts)@) == opt_views(old(parts)@).push(opt_view(x)),
{
    let ghost x0 = opt_view(x);
    parts.push(x);
    assert(opt_views(parts@) =~= opt_views(old(parts)@).push(x0));
}

fn some_string(s: &String) -> (r: Option<String>)
    ensures
        opt_view(r) == Some(s@),
{
    Some(s.clone())
}

fn count_part(n: usize) -> (r: Option<String>)
    ensures
        opt_view(r) == Some(decimal(n as nat)),
{
    let mut v: Vec<char> = Vec::new();
    push_decimal(&mut v, n as u64);
    assert(v@ =~= decimal(n as nat));
    Some(string_of(&v))
}

fn copy_opt(o: &Option<String>) -> (r: Option<String>)
    ensures
        opt_view(r) == opt_view(*o),
{
    match o {
        Some(s) => Some(s.clone()),
        None => None,
    }
}

pub open spec fn name_handles(s: Seq<RuntimeHostNameBindResult>) -> Seq<Option<Seq<char>>> {
    s.map_values(|n: RuntimeHostNameBindResult| Some(n.host_name_handle@))
}

pub open spec fn reference_handles(s: Seq<RuntimeHostReferenceBindResult>) -> Seq<Option<Seq<char>>> {
    s.map_values(|n: RuntimeHostReferenceBindResult| Some(n.reference_handle@))
}

pub open spec fn denial_names(s: Seq<RuntimeFunctionCapabilityDenial>) -> Seq<Option<Seq<char>>> {
    s.map_values(|d: RuntimeFunctionCapabilityDenial| Some(d.surface_name@))
}

pub open spec fn record_handles(s: Seq<StructuredReferenceBindRecord>) -> Seq<Option<Seq<char>>> {
    s.map_values(|d: StructuredReferenceBindRecord| Some(d.bind_record_handle@))
}

fn push_name_handles(parts: &mut Vec<Option<String>>, names: &Vec<RuntimeHostNameBindResult>)
    ensures
        opt_views(final(parts)@) == opt_views(old(parts)@) + name_handles(names@),
{
    let ghost start = opt_views(parts@);
    let mut i: usize = 0;
    while i < names.len()
        invariant
            i <= names@.len(),
            opt_views(parts@) == start + name_handles(names@.take(i as int)),
        decreases names.len() - i,
    {
        push_part(parts, some_string(&names[i].host_name_handle));
        assert(name_handles(names@.take(i + 1)) =~= name_handles(names@.take(i as int)).push(Some(names@[i as int].host_name_handle@)));
        i = i + 1;
    }
    assert(names@.take(names@.len() as int) =~= names@);
}

fn push_reference_handles(parts: &mut Vec<Option<String>>, refs: &Vec<RuntimeHostReferenceBindResult>)
    ensures
        opt_views(final(parts)@) == opt_views(old(parts)@) + reference_handles(refs@),
{
    let ghost start = opt_views(parts@);
    let mut i: usize = 0;
    while i < refs.len()
        invariant
            i <= refs@.len(),
            opt_views(parts@) == start + reference_handles(refs@.take(i as int)),
        decreases refs.len() - i,
    {
        push_part(parts, some_string(&refs[i].reference_handle));
        assert(reference_handles(refs@.take(i + 1)) =~= reference_handles(refs@.take(i as int)).push(Some(refs@[i as int].reference_handle@)));
        i = i + 1;
    }
    assert(refs@.take(refs@.len() as int) =~= refs@);
}

fn push_denial_names(parts: &mut Vec<Option<String>>, denials: &Vec<RuntimeFunctionCapabilityDenial>)
    ensures
        opt_views(final(parts)@) == opt_views(old(parts)@) + denial_names(denials@),
{
    let ghost start = opt_views(parts@);
    let mut i: usize = 0;
    while i < denials.len()
        invariant
            i <= denials@.len(),
            opt_views(parts@) == start + denial_names(denials@.take(i as int)),
        decreases denials.len() - i,
    {
        push_part(parts, some_string(&denials[i].surface_name));
        assert(denial_names(denials@.take(i + 1)) =~= denial_names(denials@.take(i as int)).push(Some(denials@[i as int].surface_name@)));
        i = i + 1;
    }
    assert(denials@.take(denials@.len() as int) =~= denials@);
}

fn push_record_handles(parts: &mut Vec<Option<String>>, records: &Vec<StructuredReferenceBindRecord>)
    ensures
        opt_views(final(parts)@) == opt_views(old(parts)@) + record_handles(records@),
{
    let ghost start = opt_views(parts@);
    let mut i: usize = 0;
    while i < records.len()
        invariant
            i <= records@.len(),
            opt_views(parts@) == start + record_handles(records@.take(i as int)),
        decreases records.len() - i,
    {
        push_part(parts, some_string(&records[i].bind_record_handle));
        assert(record_handles(records@.take(i + 1)) =~= record_handles(records@.take(i as int)).push(Some(records@[i as int].bind_record_handle@)));
        i = i + 1;
    }
    assert(records@.take(records@.len() as int) =~= records@);
}

/// The rendered normalized references, as key parts.
pub open spec fn rendered_parts(s: Seq<crate::binding::reference::NormalizedReferenceModel>) -> Seq<Option<Seq<char>>> {
    s.map_values(|r: crate::binding::reference::NormalizedReferenceModel| Some(render_reference(r)))
}

/// The unresolved references as key parts: source text, then reason.
pub open spec fn unresolved_parts(s: Seq<(Seq<char>, Seq<char>)>) -> Seq<Option<Seq<char>>>
    decreases s.len(),
{
    if s.len() == 0 {
        Seq::empty()
    } else {
        unresolved_parts(s.drop_last()) + seq![Some(s.last().0), Some(s.last().1)]
    }
}

fn push_rendered(parts: &mut Vec<Option<String>>, bound: &BoundFormula)
    ensures
        opt_views(final(parts)@) == opt_views(old(parts)@) + rendered_parts(norm_models(bound.normalized_references@)),
{
    let refs = &bound.normalized_references;
    let ghost start = opt_views(parts@);
    let mut i: usize = 0;
    while i < refs.len()
        invariant
            i <= refs@.len(),
            refs@ == bound.normalized_references@,
            opt_views(parts@) == start + rendered_parts(norm_models(refs@.take(i as int))),
        decreases refs.len() - i,
    {
        push_part(parts, Some(refs[i].to_string()));
        assert(norm_models(refs@.take(i + 1)) =~= norm_models(refs@.take(i as int)).push(refs@[i as int].model()));
        assert(rendered_parts(norm_models(refs@.take(i + 1))) =~= rendered_parts(norm_models(refs@.take(i as int))).push(
            Some(render_reference(refs@[i as int].model()))));
        i = i + 1;
    }
    assert(refs@.take(refs@.len() as int) =~= refs@);
}

fn push_unresolved(parts: &mut Vec<Option<String>>, bound: &BoundFormula)
    ensures
        opt_views(final(parts)@) == opt_views(old(parts)@) + unresolved_parts(unresolved_models(bound.unresolved_references@)),
{
    let us = &bound.unresolved_references;
    let ghost start = opt_views(parts@);
    let mut i: usize = 0;
    assert(unresolved_models(us@.take(0)) =~= Seq::<(Seq<char>, Seq<char>)>::empty());
    assert(opt_views(parts@) =~= start + unresolved_parts(unresolved_models(us@.take(0))));
    while i < us.len()
        invariant
            i <= us@.len(),
            us@ == bound.unresolved_references@,
            opt_views(parts@) == start + unresolved_parts(unresolved_models(us@.take(i as int))),
        decreases us.len() - i,
    {
        let ghost before = opt_views(parts@);
        push_part(parts, some_string(&us[i].source_text));
        push_part(parts, some_string(&us[i].reason));
        let ghost m = unresolved_models(us@.take(i + 1));
        assert(m.drop_last() =~= unresolved_models(us@.take(i as int)));
        assert(m.last() == (us@[i as int].source_text@, us@[i as int].reason@));
        i = i + 1;
        assert(opt_views(parts@) =~= start + unresolved_parts(unresolved_models(us@.take(i as int))));
    }
    assert(us@.take(us@.len() as int) =~= us@);
}

/// A snapshot reference as one key part.
pub open spec fn snapshot_ref_part(r: Option<LibraryContextSnapshotRef>) -> Option<Seq<char>> {
    match r {
        Some(x) => Some(x.snapshot_id@ + ":"@ + x.snapshot_version@),
        None => None,
    }
}

/// A host formula context as one key part: its cache identity contribution.
pub open spec fn host_part(c: Option<RuntimeHostFormulaContext>) -> Option<Seq<char>> {
    match c {
        Some(x) => Some(hex16(default_string_hash(host_context_text(x)))),
        None => None,
    }
}

pub open spec fn registry_snapshot_part(r: Option<RuntimeFunctionRegistryViewIdentity>) -> Option<Seq<char>> {
    match r {
        Some(x) => Some(x.registry_snapshot_identity@),
        None => None,
    }
}

pub open spec fn registry_overlay_part(r: Option<RuntimeFunctionRegistryViewIdentity>) -> Option<Seq<char>> {
    match r {
        Some(x) => opt_view(x.capability_overlay_identity),
        None => None,
    }
}

/// The parts the prepared formula key hashes, in order.
pub open spec fn prepared_key_parts(
    source: FormulaSourceRecord,
    bound: BoundFormula,
    formula_token: Seq<char>,
    plan: RuntimePlanSummary,
    locus: RuntimeLocus,
    kernel_version: Option<Seq<char>>,
    arg_version: Option<Seq<char>>,
    host: Option<RuntimeHostFormulaContext>,
    names: Seq<RuntimeHostNameBindResult>,
    refs: Seq<RuntimeHostReferenceBindResult>,
    registry: Option<RuntimeFunctionRegistryViewIdentity>,
    denials: Seq<RuntimeFunctionCapabilityDenial>,
    table_fingerprint: Option<Seq<char>>,
) -> Seq<Option<Seq<char>>> {
    seq![
        Some(source.formula_stable_id.0@),
        Some(decimal(source.formula_text_version.0 as nat)),
        Some(formula_token),
        Some(bound.bind_hash@),
        Some(plan.semantic_plan_key@),
        snapshot_ref_part(plan.library_context_snapshot_ref),
        Some(bound.structure_context_version@),
        Some(locus_key(locus)),
        kernel_version,
        arg_version,
        host_part(host),
        Some(decimal(names.len())),
    ] + name_handles(names) + seq![Some(decimal(refs.len()))] + reference_handles(refs) + seq![
        registry_snapshot_part(registry),
        registry_overlay_part(registry),
        Some(decimal(denials.len())),
    ] + denial_names(denials) + seq![table_fingerprint]
}

/// The parts the hole binding fingerprint hashes: the rendered normalized
/// references, the unresolved references, the bind records' handles and
/// the plan's helper digest, each list counted.
pub open spec fn hole_parts(bound: BoundFormula, records: Seq<StructuredReferenceBindRecord>, plan: RuntimePlanSummary) -> Seq<Option<Seq<char>>> {
    seq![Some(decimal(bound.normalized_references@.len()))] + rendered_parts(norm_models(bound.normalized_references@))
        + seq![Some(decimal(bound.unresolved_references@.len()))] + unresolved_parts(unresolved_models(bound.unresolved_references@))
        + seq![Some(decimal(records.len()))] + record_handles(records) + seq![Some(plan.helper_digest@)]
}

fn snapshot_ref_copy(r: &Option<LibraryContextSnapshotRef>) -> (c: Option<LibraryContextSnapshotRef>)
    ensures
        c == *r,
{
    match r {
        Some(s) => Some(LibraryContextSnapshotRef { snapshot_id: s.snapshot_id.clone(), snapshot_version: s.snapshot_version.clone() }),
        None => None,
    }
}

fn snapshot_ref_text(r: &Option<LibraryContextSnapshotRef>) -> (c: Option<String>)
    ensures
        opt_view(c) == snapshot_ref_part(*r),
{
    match r {
        Some(s) => {
            let mut v: Vec<char> = Vec::new();
            push_string(&mut v, &s.snapshot_id);
            push_str(&mut v, ":");
            push_string(&mut v, &s.snapshot_version);
            assert(v@ =~= s.snapshot_id@ + ":"@ + s.snapshot_version@);
            Some(string_of(&v))
        },
        None => None,
    }
}

fn hash_parts(parts: &Vec<Option<String>>) -> (r: String)
    ensures
        r@ == hex16(default_string_hash(parts_text(opt_views(parts@)))),
{
    let mut v: Vec<char> = Vec::new();
    push_parts_text(&mut v, parts);
    assert(v@ =~= parts_text(opt_views(parts@)));
    hex16_string(hash_text(&string_of(&v)))
}

/// The key parts that open the prepared formula key.
fn key_head_parts(
    source: &FormulaSourceRecord,
    bound_formula: &BoundFormula,
    formula_token: &String,
    plan: &RuntimePlanSummary,
    caller_context_key: &String,
    bridge: &RuntimeOxFuncBridgeMetadata,
    host_key: &Option<String>,
) -> (parts: Vec<Option<String>>)
    ensures
        opt_views(parts@) == seq![
            Some(source.formula_stable_id.0@),
            Some(decimal(source.formula_text_version.0 as nat)),
            Some(formula_token@),
            Some(bound_formula.bind_hash@),
            Some(plan.semantic_plan_key@),
            snapshot_ref_part(plan.library_context_snapshot_ref),
            Some(bound_formula.structure_context_version@),
            Some(caller_context_key@),
            opt_view(bridge.semantic_kernel_metadata_version),
            opt_view(bridge.arg_admission_metadata_version),
            opt_view(*host_key),
        ],
{
    let mut parts: Vec<Option<String>> = Vec::new();
    push_part(&mut parts, some_string(&source.formula_stable_id.0));
    push_part(&mut parts, count_part_u64(source.formula_text_version.0));
    push_part(&mut parts, some_string(formula_token));
    push_part(&mut parts, some_string(&bound_formula.bind_hash));
    push_part(&mut parts, some_string(&plan.semantic_plan_key));
    push_part(&mut parts, snapshot_ref_text(&plan.library_context_snapshot_ref));
    push_part(&mut parts, some_string(&bound_formula.structure_context_version));
    push_part(&mut parts, some_string(caller_context_key));
    push_part(&mut parts, copy_opt(&bridge.semantic_kernel_metadata_version));
    push_part(&mut parts, copy_opt(&bridge.arg_admission_metadata_version));
    push_part(&mut parts, copy_opt(host_key));
    parts
}

fn prepared_formula_key_of(
    source: &FormulaSourceRecord,
    bound_formula: &BoundFormula,
    formula_token: &String,
    plan: &RuntimePlanSummary,
    caller_context_key: &String,
    bridge: &RuntimeOxFuncBridgeMetadata,
    host_key: &Option<String>,
    names: &Vec<RuntimeHostNameBindResult>,
    refs: &Vec<RuntimeHostReferenceBindResult>,
    registry_snapshot_identity: &Option<String>,
    capability_overlay_identity: &Option<String>,
    denials: &Vec<RuntimeFunctionCapabilityDenial>,
    table_context_fingerprint: &Option<String>,
) -> (r: String)
    ensures
        r@ == hex16(default_string_hash(parts_text(seq![
            Some(source.formula_stable_id.0@),
            Some(decimal(source.formula_text_version.0 as nat)),
            Some(formula_token@),
            Some(bound_formula.bind_hash@),
            Some(plan.semantic_plan_key@),
            snapshot_ref_part(plan.library_context_snapshot_ref),
            Some(bound_formula.structure_context_version@),
            Some(caller_context_key@),
            opt_view(bridge.semantic_kernel_metadata_version),
            opt_view(bridge.arg_admission_metadata_version),
            opt_view(*host_key),
            Some(decimal(names@.len())),
        ] + name_handles(names@) + seq![Some(decimal(refs@.len()))] + reference_handles(refs@) + seq![
            opt_view(*registry_snapshot_identity),
            opt_view(*capability_overlay_identity),
            Some(decimal(denials@.len())),
        ] + denial_names(denials@) + seq![opt_view(*table_context_fingerprint)]))),
{
    let mut parts = key_head_parts(source, bound_formula, formula_token, plan, caller_context_key, bridge, host_key);
    let ghost a = opt_views(parts@);
    push_part(&mut parts, count_part(names.len()));
    push_name_handles(&mut parts, names);
    push_part(&mut parts, count_part(refs.len()));
    push_reference_handles(&mut parts, refs);
    let ghost b = opt_views(parts@);
    assert(b =~= a + seq![Some(decimal(names@.len()))] + name_handles(names@) + seq![Some(decimal(refs@.len()))] + reference_handles(refs@));
    push_part(&mut parts, copy_opt(registry_snapshot_identity));
    push_part(&mut parts, copy_opt(capability_overlay_identity));
    push_part(&mut parts, count_part(denials.len()));
    push_denial_names(&mut parts, denials);
    push_part(&mut parts, copy_opt(table_context_fingerprint));
    assert(opt_views(parts@) =~= b + seq![
            opt_view(*registry_snapshot_identity),
            opt_view(*capability_overlay_identity),
            Some(decimal(denials@.len())),
        ] + denial_names(denials@) + seq![opt_view(*table_context_fingerprint)]);
    assert(opt_views(parts@) =~= seq![
            Some(source.formula_stable_id.0@),
            Some(decimal(source.formula_text_version.0 as nat)),
            Some(formula_token@),
            Some(bound_formula.bind_hash@),
            Some(plan.semantic_plan_key@),
            snapshot_ref_part(plan.library_context_snapshot_ref),
            Some(bound_formula.structure_context_version@),
            Some(caller_context_key@),
            opt_view(bridge.semantic_kernel_metadata_version),
            opt_view(bridge.arg_admission_metadata_version),
            opt_view(*host_key),
            Some(decimal(names@.len())),
        ] + name_handles(names@) + seq![Some(decimal(refs@.len()))] + reference_handles(refs@) + seq![
            opt_view(*registry_snapshot_identity),
            opt_view(*capability_overlay_identity),
            Some(decimal(denials@.len())),
        ] + denial_names(denials@) + seq![opt_view(*table_context_fingerprint)]);
    hash_parts(&parts)
}

fn hole_binding_fingerprint_of(
    bound_formula: &BoundFormula,
    records: &Vec<StructuredReferenceBindRecord>,
    plan: &RuntimePlanSummary,
) -> (r: String)
    ensures
        r@ == hex16(default_string_hash(parts_text(hole_parts(*bound_formula, records@, *plan)))),
{
    let mut hole: Vec<Option<String>> = Vec::new();
    push_part(&mut hole, count_part(bound_formula.normalized_references.len()));
    push_rendered(&mut hole, bound_formula);
    push_part(&mut hole, count_part(bound_formula.unresolved_references.len()));
    push_unresolved(&mut hole, bound_formula);
    push_part(&mut hole, count_part(records.len()));
    push_record_handles(&mut hole, records);
    push_part(&mut hole, some_string(&plan.helper_digest));
    assert(opt_views(hole@) =~= hole_parts(*bound_formula, records@, *plan));
    hash_parts(&hole)
}

/// The identity of a prepared formula. Its key hashes the parts
/// `prepared_key_parts` lists; the caller key names the locus; the bridge
/// versions are overridden or summarized from the plan; the template holds
/// the plan's key and dispatch digest and the formula's holes; the hole
/// binding hashes the parts `hole_parts` lists and counts the references.
pub fn runtime_prepared_formula_identity(
    source: &FormulaSourceRecord,
    bound_formula: &BoundFormula,
    structured_reference_bind_records: Vec<StructuredReferenceBindRecord>,
    formula_token: &String,
    plan: &RuntimePlanSummary,
    primary_locus: &RuntimeLocus,
    oxfunc_bridge_metadata: &RuntimeOxFuncBridgeMetadata,
    host_formula_context: Option<RuntimeHostFormulaContext>,
    host_name_bind_results: Vec<RuntimeHostNameBindResult>,
    host_reference_bind_results: Vec<RuntimeHostReferenceBindResult>,
    registry_view_identity: Option<RuntimeFunctionRegistryViewIdentity>,
    registry_capability_denials: Vec<RuntimeFunctionCapabilityDenial>,
    table_context_fingerprint: Option<String>,
) -> (r: RuntimePreparedFormulaIdentity)
    requires
        bound_formula.normalized_references@.len() + bound_formula.unresolved_references@.len() <= usize::MAX,
    ensures
        r.prepared_formula_key@ == hex16(default_string_hash(parts_text(prepared_key_parts(
            *source,
            *bound_formula,
            formula_token@,
            *plan,
            *primary_locus,
            opt_view(r.semantic_kernel_metadata_version),
            opt_view(r.arg_admission_metadata_version),
            host_formula_context,
            host_name_bind_results@,
            host_reference_bind_results@,
            registry_view_identity,
            registry_capability_denials@,
            opt_view(table_context_fingerprint),
        )))),
        r.formula_stable_id@ == source.formula_stable_id.0@,
        r.formula_text_version == source.formula_text_version.0,
        r.formula_token@ == formula_token@,
        r.library_context_snapshot_ref == plan.library_context_snapshot_ref,
        r.structure_context_version@ == bound_formula.structure_context_version@,
        opt_view(r.caller_context_key) == Some(locus_key(*primary_locus)),
        opt_view(r.semantic_kernel_metadata_version) == bridge_version_spec(
            opt_view(oxfunc_bridge_metadata.semantic_kernel_metadata_version),
            string_views(plan.semantic_kernel_metadata_versions@),
            "semantic_kernel_metadata"@,
        ),
        opt_view(r.arg_admission_metadata_version) == bridge_version_spec(
            opt_view(oxfunc_bridge_metadata.arg_admission_metadata_version),
            string_views(plan.arg_admission_metadata_versions@),
            "arg_admission_metadata"@,
        ),
        r.host_formula_context == host_formula_context,
        r.host_name_bind_results == host_name_bind_results,
        r.host_reference_bind_results == host_reference_bind_results,
        opt_view(r.registry_snapshot_identity) == registry_snapshot_part(registry_view_identity),
        opt_view(r.capability_overlay_identity) == registry_overlay_part(registry_view_identity),
        r.registry_capability_denials == registry_capability_denials,
        r.table_context_fingerprint == table_context_fingerprint,
        r.structured_reference_bind_records == structured_reference_bind_records,
        r.plan_template.shape_key is None,
        r.plan_template.dispatch_skeleton_key@ == plan.dispatch_digest@,
        r.plan_template.plan_template_key@ == plan.semantic_plan_key@,
        r.plan_template.folded_plan_key is None,
        hole_models(r.plan_template.template_holes@) == template_holes_spec(
            norm_models(bound_formula.normalized_references@),
            unresolved_models(bound_formula.unresolved_references@),
        ),
        r.plan_template.projection_status@ == "current_floor:template_key_and_reference_holes"@,
        r.hole_binding.hole_binding_fingerprint@ == hex16(default_string_hash(parts_text(hole_parts(
            *bound_formula,
            structured_reference_bind_records@,
            *plan,
        )))),
        r.hole_binding.binding_count == bound_formula.normalized_references@.len() + bound_formula.unresolved_references@.len(),
        r.hole_binding.projection_status@ == "current_floor:fingerprint_from_public_bind_references;canonical_holes_deferred"@,
        formal_models(r.formal_references@) == formal_references_spec(
            bound_formula.bind_hash@,
            norm_models(bound_formula.normalized_references@),
            unresolved_models(bound_formula.unresolved_references@),
            structured_reference_bind_records@,
        ),
        r.projection_status@ == "current_floor:derived_from_public_runtime_prepare"@,
{
    let bridge = runtime_oxfunc_bridge_metadata_for_plan(plan, oxfunc_bridge_metadata);
    let caller_context_key = locus_key_of(primary_locus);

    let host_key = match &host_formula_context {
        Some(c) => Some(c.cache_identity_contribution()),
        None => None,
    };
    let (registry_snapshot_identity, capability_overlay_identity) = match &registry_view_identity {
        Some(v) => (Some(v.registry_snapshot_identity.clone()), copy_opt(&v.capability_overlay_identity)),
        None => (None, None),
    };
    let prepared_formula_key = prepared_formula_key_of(
        source,
        bound_formula,
        formula_token,
        plan,
        &caller_context_key,
        &bridge,
        &host_key,
        &host_name_bind_results,
        &host_reference_bind_results,
        &registry_snapshot_identity,
        &capability_overlay_identity,
        &registry_capability_denials,
        &table_context_fingerprint,
    );
    proof {
        assert(opt_view(host_key) == host_part(host_formula_context));
        assert(opt_view(registry_snapshot_identity) == registry_snapshot_part(registry_view_identity));
        assert(opt_view(capability_overlay_identity) == registry_overlay_part(registry_view_identity));
    }
    let hole_binding_fingerprint = hole_binding_fingerprint_of(bound_formula, &structured_reference_bind_records, plan);

    let template_holes = runtime_template_holes(bound_formula);
    let formal_references = runtime_formal_references(bound_formula, &structured_reference_bind_records);
    RuntimePreparedFormulaIdentity {
        prepared_formula_key,
        formula_stable_id: source.formula_stable_id.0.clone(),
        formula_text_version: source.formula_text_version.0,
        formula_token: formula_token.clone(),
        library_context_snapshot_ref: snapshot_ref_copy(&plan.library_context_snapshot_ref),
        structure_context_version: bound_formula.structure_context_version.clone(),
        caller_context_key: Some(caller_context_key),
        semantic_kernel_metadata_version: bridge.semantic_kernel_metadata_version,
        arg_admission_metadata_version: bridge.arg_admission_metadata_version,
        host_formula_context,
        host_name_bind_results,
        host_reference_bind_results,
        registry_snapshot_identity,
        capability_overlay_identity,
        registry_capability_denials,
        table_context_fingerprint,
        structured_reference_bind_records,
        plan_template: RuntimePlanTemplateIdentity {
            shape_key: None,
            dispatch_skeleton_key: plan.dispatch_digest.clone(),
            plan_template_key: plan.semantic_plan_key.clone(),
            folded_plan_key: None,
            template_holes,
            projection_status: string_of(&chars_of("current_floor:template_key_and_reference_holes")),
        },
        hole_binding: RuntimeHoleBindingIdentity {
            hole_binding_fingerprint,
            binding_count: bound_formula.normalized_references.len() + bound_formula.unresolved_references.len(),
            projection_status: string_of(&chars_of("current_floor:fingerprint_from_public_bind_references;canonical_holes_deferred")),
        },
        formal_references,
        projection_status: string_of(&chars_of("current_floor:derived_from_public_runtime_prepare")),
    }
}

fn count_part_u64(n: u64) -> (r: Option<String>)
    ensures
        opt_view(r) == Some(decimal(n as nat)),
{
    let mut v: Vec<char> = Vec::new();
    push_decimal(&mut v, n);
    assert(v@ =~= decimal(n as nat));
    Some(string_of(&v))
}

} // verus!
