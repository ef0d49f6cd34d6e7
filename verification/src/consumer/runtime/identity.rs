//! The cache identity a host formula context contributes: a hash of its
//! canonical text.

use vstd::prelude::*;

use crate::binding::fingerprint::{
    default_string_hash, enclosing_text, field, flag, hash_text, hex16, hex16_string, num, push_enclosing, push_field, push_flag,
    push_num, push_region, push_tables, region_text, tables_text,
};
use crate::interface::{TableCallerRegion, TableDescriptor, TableRef};
use crate::binding::reference::opt_view;
use crate::consumer::runtime::{RuntimeHostFormulaContext, RuntimeHostReferenceSyntaxRule};
use crate::text::{push_str, string_of};

verus! {

/// An optional text field: `-` when absent, `+` and the field otherwise.
pub open spec fn opt_field(o: Option<Seq<char>>) -> Seq<char> {
    match o {
        None => "-"@,
        Some(s) => "+"@ + field(s),
    }
}

pub open spec fn rule_text(r: RuntimeHostReferenceSyntaxRule) -> Seq<char> {
    field(r.rule_id@) + field(r.rule_family@) + field(r.pattern_text@) + field(r.token_kind@) + field(r.resolution_layer@)
        + opt_field(opt_view(r.shape_hint)) + flag(r.caller_context_dependent) + opt_field(opt_view(r.opaque_selector_payload))
}

pub open spec fn rules_text(s: Seq<RuntimeHostReferenceSyntaxRule>) -> Seq<char>
    decreases s.len(),
{
    if s.len() == 0 {
        Seq::empty()
    } else {
        rules_text(s.drop_last()) + rule_text(s.last())
    }
}

/// The canonical text of a host formula context.
pub open spec fn host_context_text(c: RuntimeHostFormulaContext) -> Seq<char> {
    field(c.dialect_id@) + field(c.capability_profile_id@) + field(c.resolution_rule_version@)
        + opt_field(opt_view(c.host_namespace_version)) + opt_field(opt_view(c.registry_snapshot_identity))
        + opt_field(opt_view(c.structure_context_version)) + opt_field(opt_view(c.caller_context_identity))
        + opt_field(opt_view(c.table_context_identity)) + rules_text(c.host_reference_syntax_rules@)
}

pub(crate) fn push_opt_field(v: &mut Vec<char>, o: &Option<String>)
    ensures
        final(v)@ == old(v)@ + opt_field(opt_view(*o)),
{
    match o {
        None => push_str(v, "-"),
        Some(s) => {
            push_str(v, "+");
            push_field(v, s);
        },
    }
    assert(final(v)@ =~= old(v)@ + opt_field(opt_view(*o)));
}

fn push_rule(v: &mut Vec<char>, r: &RuntimeHostReferenceSyntaxRule)
    ensures
        final(v)@ == old(v)@ + rule_text(*r),
{
    let ghost o = v@;
    push_field(v, &r.rule_id);
    push_field(v, &r.rule_family);
    assert(v@ =~= o + (field(r.rule_id@) + field(r.rule_family@)));
    push_field(v, &r.pattern_text);
    push_field(v, &r.token_kind);
    assert(v@ =~= o + (field(r.rule_id@) + field(r.rule_family@) + field(r.pattern_text@) + field(r.token_kind@)));
    let ghost o2 = v@;
    push_field(v, &r.resolution_layer);
    push_opt_field(v, &r.shape_hint);
    assert(v@ =~= o2 + (field(r.resolution_layer@) + opt_field(opt_view(r.shape_hint))));
    let ghost o3 = v@;
    push_flag(v, r.caller_context_dependent);
    push_opt_field(v, &r.opaque_selector_payload);
    assert(v@ =~= o3 + (flag(r.caller_context_dependent) + opt_field(opt_view(r.opaque_selector_payload))));
    assert(v@ =~= o + rule_text(*r));
}

fn push_rules(v: &mut Vec<char>, rules: &Vec<RuntimeHostReferenceSyntaxRule>)
    ensures
        final(v)@ == old(v)@ + rules_text(rules@),
{
    let ghost start = v@;
    let mut i: usize = 0;
    assert(start + rules_text(rules@.take(0)) =~= start);
    while i < rules.len()
        invariant
            i <= rules@.len(),
            v@ == start + rules_text(rules@.take(i as int)),
        decreases rules.len() - i,
    {
        push_rule(v, &rules[i]);
        assert(rules@.take(i + 1).drop_last() =~= rules@.take(i as int));
        i = i + 1;
        assert(v@ =~= start + rules_text(rules@.take(i as int)));
    }
    assert(rules@.take(rules@.len() as int) =~= rules@);
}

impl RuntimeHostFormulaContext {
    /// Sixteen hex digits hashing the context's canonical text.
    pub fn cache_identity_contribution(&self) -> (r: String)
        ensures
            r@ == hex16(default_string_hash(host_context_text(*self))),
    {
        let mut v: Vec<char> = Vec::new();
        push_field(&mut v, &self.dialect_id);
        push_field(&mut v, &self.capability_profile_id);
        push_field(&mut v, &self.resolution_rule_version);
        let ghost a = v@;
        assert(a =~= field(self.dialect_id@) + field(self.capability_profile_id@) + field(self.resolution_rule_version@));
        push_opt_field(&mut v, &self.host_namespace_version);
        push_opt_field(&mut v, &self.registry_snapshot_identity);
        let ghost b = v@;
        assert(b =~= a + opt_field(opt_view(self.host_namespace_version)) + opt_field(opt_view(self.registry_snapshot_identity)));
        push_opt_field(&mut v, &self.structure_context_version);
        push_opt_field(&mut v, &self.caller_context_identity);
        push_opt_field(&mut v, &self.table_context_identity);
        let ghost c = v@;
        assert(c =~= b + opt_field(opt_view(self.structure_context_version)) + opt_field(opt_view(self.caller_context_identity))
            + opt_field(opt_view(self.table_context_identity)));
        push_rules(&mut v, &self.host_reference_syntax_rules);
        assert(v@ =~= host_context_text(*self));
        hex16_string(hash_text(&string_of(&v)))
    }
}

/// The canonical text of a table context: the catalog counted and
/// bracketed, then the enclosing table and the caller's region.
pub open spec fn table_context_text(catalog: Seq<TableDescriptor>, enclosing: Option<TableRef>, region: Option<TableCallerRegion>) -> Seq<char> {
    num(catalog.len()) + "["@ + tables_text(catalog) + "]"@ + enclosing_text(enclosing) + region_text(region)
}

/// The fingerprint of a table context: none for an empty one, otherwise the
/// hash of its canonical text.
pub open spec fn table_context_fingerprint_spec(
    catalog: Seq<TableDescriptor>,
    enclosing: Option<TableRef>,
    region: Option<TableCallerRegion>,
) -> Option<Seq<char>> {
    if catalog.len() == 0 && enclosing is None && region is None {
        None
    } else {
        Some(hex16(default_string_hash(table_context_text(catalog, enclosing, region))))
    }
}

pub fn runtime_table_context_fingerprint(
    table_catalog: &Vec<TableDescriptor>,
    enclosing_table_ref: &Option<TableRef>,
    caller_table_region: &Option<TableCallerRegion>,
) -> (r: Option<String>)
    ensures
        opt_view(r) == table_context_fingerprint_spec(table_catalog@, *enclosing_table_ref, *caller_table_region),
{
    if table_catalog.len() == 0 && enclosing_table_ref.is_none() && caller_table_region.is_none() {
        return None;
    }
    let mut v: Vec<char> = Vec::new();
    push_num(&mut v, table_catalog.len() as u64);
    push_str(&mut v, "[");
    push_tables(&mut v, table_catalog);
    push_str(&mut v, "]");
    let ghost o = v@;
    push_enclosing(&mut v, enclosing_table_ref);
    push_region(&mut v, caller_table_region);
    assert(v@ =~= table_context_text(table_catalog@, *enclosing_table_ref, *caller_table_region));
    let text = string_of(&v);
    Some(hex16_string(hash_text(&text)))
}

} // verus!
