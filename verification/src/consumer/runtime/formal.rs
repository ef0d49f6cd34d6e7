//! The formal references and template holes a prepared formula exposes:
//! one per normalized reference, then one per unresolved reference.

use vstd::prelude::*;

use crate::binding::binder_spec::{norm_models, unresolved_models};
use crate::binding::fingerprint::{default_string_hash, field, hash_text, hex16, hex16_string, push_field};
use crate::binding::reference::{
    opt_view, render_reference, NameKind, NormalizedReference, NormalizedReferenceModel, StructuredReferenceBindRecord,
};
use crate::binding::BoundFormula;
use crate::consumer::runtime::{RuntimeFormalReference, RuntimeTemplateHole};
use crate::text::{chars_eq, chars_of, decimal, push_decimal, push_str, push_string, slice_chars, string_of};

verus! {

/// The hole kind of a normalized reference.
pub open spec fn hole_kind_spec(r: NormalizedReferenceModel) -> Seq<char> {
    match r {
        NormalizedReferenceModel::WholeRow(_) | NormalizedReferenceModel::WholeColumn(_)
        | NormalizedReferenceModel::Structured(_) => "ShapeSensitiveHole"@,
        NormalizedReferenceModel::External(_) => "RichValueHole"@,
        NormalizedReferenceModel::Error(_) => "UnresolvedReferenceHole"@,
        _ => "RefOrValueHole"@,
    }
}

/// The family of a normalized reference: how its target may move.
pub open spec fn family_spec(r: NormalizedReferenceModel) -> Seq<char> {
    match r {
        NormalizedReferenceModel::Cell(_) | NormalizedReferenceModel::Area(_) => "direct"@,
        NormalizedReferenceModel::WholeRow(_) | NormalizedReferenceModel::WholeColumn(_) => "shape_topology_sensitive"@,
        NormalizedReferenceModel::Name(n) => if n.caller_context_dependent {
            "relative_or_caller_sensitive"@
        } else if n.kind == NameKind::MixedOrDeferred {
            "host_sensitive"@
        } else {
            "direct"@
        },
        NormalizedReferenceModel::External(_) => "dynamic_potential"@,
        NormalizedReferenceModel::Structured(s) => if s.caller_row_sensitive {
            "relative_or_caller_sensitive"@
        } else {
            "direct"@
        },
        NormalizedReferenceModel::ProfileSymbolic(_) => "host_sensitive"@,
        NormalizedReferenceModel::Error(_) => "unresolved"@,
    }
}

/// Whether a normalized reference depends on the caller's position.
pub open spec fn caller_dependent_spec(r: NormalizedReferenceModel) -> bool {
    match r {
        NormalizedReferenceModel::Cell(c) => c.caller_anchor_used,
        NormalizedReferenceModel::Area(a) => a.caller_anchor_used,
        NormalizedReferenceModel::Name(n) => n.caller_context_dependent,
        NormalizedReferenceModel::Structured(s) => s.caller_row_sensitive,
        _ => false,
    }
}

pub open spec fn reference_hole_id(i: nat) -> Seq<char> {
    "hole:reference:"@ + decimal(i)
}

pub open spec fn unresolved_hole_id(i: nat) -> Seq<char> {
    "hole:unresolved:"@ + decimal(i)
}

pub struct TemplateHoleModel {
    pub hole_id: Seq<char>,
    pub ordinal: nat,
    pub path: Option<Seq<char>>,
    pub hole_kind: Seq<char>,
    pub hole_kind_key: Seq<char>,
}

pub open spec fn hole_model(h: RuntimeTemplateHole) -> TemplateHoleModel {
    TemplateHoleModel {
        hole_id: h.hole_id@,
        ordinal: h.ordinal as nat,
        path: opt_view(h.path),
        hole_kind: h.hole_kind@,
        hole_kind_key: h.hole_kind_key@,
    }
}

pub open spec fn hole_models(s: Seq<RuntimeTemplateHole>) -> Seq<TemplateHoleModel> {
    s.map_values(|h: RuntimeTemplateHole| hole_model(h))
}

/// The holes of a bound formula: one per normalized reference, then one
/// per unresolved reference, numbered on from there.
pub open spec fn template_holes_spec(refs: Seq<NormalizedReferenceModel>, unresolved: Seq<(Seq<char>, Seq<char>)>) -> Seq<TemplateHoleModel> {
    Seq::new(refs.len(), |i: int| TemplateHoleModel {
        hole_id: reference_hole_id(i as nat),
        ordinal: i as nat,
        path: Some(render_reference(refs[i])),
        hole_kind: hole_kind_spec(refs[i]),
        hole_kind_key: hole_kind_spec(refs[i]) + ":"@ + family_spec(refs[i]),
    }) + Seq::new(unresolved.len(), |j: int| TemplateHoleModel {
        hole_id: unresolved_hole_id(j as nat),
        ordinal: (refs.len() + j) as nat,
        path: Some(unresolved[j].0),
        hole_kind: "UnresolvedReferenceHole"@,
        hole_kind_key: "UnresolvedReferenceHole:"@ + unresolved[j].1,
    })
}

fn runtime_template_hole_kind(r: &NormalizedReference) -> (s: &'static str)
    ensures
        s@ == hole_kind_spec(r.model()),
{
    match r {
        NormalizedReference::WholeRow(_) | NormalizedReference::WholeColumn(_) | NormalizedReference::Structured(_) => "ShapeSensitiveHole",
        NormalizedReference::External(_) => "RichValueHole",
        NormalizedReference::Error(_) => "UnresolvedReferenceHole",
        _ => "RefOrValueHole",
    }
}

/// The family of a normalized reference.
pub fn runtime_reference_family(r: &NormalizedReference) -> (s: &'static str)
    ensures
        s@ == family_spec(r.model()),
{
    match r {
        NormalizedReference::Cell(_) | NormalizedReference::Area(_) => "direct",
        NormalizedReference::WholeRow(_) | NormalizedReference::WholeColumn(_) => "shape_topology_sensitive",
        NormalizedReference::Name(n) => if n.caller_context_dependent {
            "relative_or_caller_sensitive"
        } else if n.kind == NameKind::MixedOrDeferred {
            "host_sensitive"
        } else {
            "direct"
        },
        NormalizedReference::External(_) => "dynamic_potential",
        NormalizedReference::Structured(s) => if s.caller_row_sensitive {
            "relative_or_caller_sensitive"
        } else {
            "direct"
        },
        NormalizedReference::ProfileSymbolic(_) => "host_sensitive",
        NormalizedReference::Error(_) => "unresolved",
    }
}

/// Whether a normalized reference depends on the caller's position.
pub fn runtime_reference_caller_context_dependent(r: &NormalizedReference) -> (b: bool)
    ensures
        b == caller_dependent_spec(r.model()),
{
    match r {
        NormalizedReference::Cell(c) => c.caller_anchor_used,
        NormalizedReference::Area(a) => a.caller_anchor_used,
        NormalizedReference::Name(n) => n.caller_context_dependent,
        NormalizedReference::Structured(s) => s.caller_row_sensitive,
        _ => false,
    }
}

pub fn runtime_reference_hole_id(index: usize) -> (r: String)
    ensures
        r@ == reference_hole_id(index as nat),
{
    let mut v: Vec<char> = Vec::new();
    push_str(&mut v, "hole:reference:");
    push_decimal(&mut v, index as u64);
    string_of(&v)
}

pub fn runtime_unresolved_hole_id(index: usize) -> (r: String)
    ensures
        r@ == unresolved_hole_id(index as nat),
{
    let mut v: Vec<char> = Vec::new();
    push_str(&mut v, "hole:unresolved:");
    push_decimal(&mut v, index as u64);
    string_of(&v)
}

/// The template holes of a bound formula.
pub fn runtime_template_holes(bound_formula: &BoundFormula) -> (r: Vec<RuntimeTemplateHole>)
    requires
        bound_formula.normalized_references@.len() + bound_formula.unresolved_references@.len() <= usize::MAX,
    ensures
        hole_models(r@) == template_holes_spec(
            norm_models(bound_formula.normalized_references@),
            unresolved_models(bound_formula.unresolved_references@),
        ),
{
    let refs = &bound_formula.normalized_references;
    let unresolved = &bound_formula.unresolved_references;
    let ghost expected = template_holes_spec(norm_models(refs@), unresolved_models(unresolved@));
    let mut holes: Vec<RuntimeTemplateHole> = Vec::new();
    let mut i: usize = 0;
    assert(hole_models(holes@) =~= expected.take(0));
    while i < refs.len()
        invariant
            i <= refs@.len(),
            refs@ == bound_formula.normalized_references@,
            unresolved@ == bound_formula.unresolved_references@,
            expected == template_holes_spec(norm_models(refs@), unresolved_models(unresolved@)),
            hole_models(holes@) == expected.take(i as int),
        decreases refs.len() - i,
    {
        let r = &refs[i];
        let kind = runtime_template_hole_kind(r);
        let mut key = chars_of(kind);
        push_str(&mut key, ":");
        push_str(&mut key, runtime_reference_family(r));
        let h = RuntimeTemplateHole {
            hole_id: runtime_reference_hole_id(i),
            ordinal: i,
            path: Some(r.to_string()),
            hole_kind: string_of(&chars_of(kind)),
            hole_kind_key: string_of(&key),
        };
        let ghost prev = hole_models(holes@);
        holes.push(h);
        assert(norm_models(refs@)[i as int] == refs@[i as int].model());
        assert(hole_models(holes@) =~= prev.push(expected[i as int]));
        assert(expected.take(i + 1) =~= expected.take(i as int).push(expected[i as int]));
        i = i + 1;
    }
    let offset = refs.len();
    let mut j: usize = 0;
    while j < unresolved.len()
        invariant
            j <= unresolved@.len(),
            offset == refs@.len(),
            refs@.len() + unresolved@.len() <= usize::MAX,
            refs@ == bound_formula.normalized_references@,
            unresolved@ == bound_formula.unresolved_references@,
            expected == template_holes_spec(norm_models(refs@), unresolved_models(unresolved@)),
            hole_models(holes@) == expected.take(offset + j),
        decreases unresolved.len() - j,
    {
        let u = &unresolved[j];
        let mut key = chars_of("UnresolvedReferenceHole:");
        push_string(&mut key, &u.reason);
        let h = RuntimeTemplateHole {
            hole_id: runtime_unresolved_hole_id(j),
            ordinal: offset + j,
            path: Some(u.source_text.clone()),
            hole_kind: string_of(&chars_of("UnresolvedReferenceHole")),
            hole_kind_key: string_of(&key),
        };
        let ghost prev = hole_models(holes@);
        holes.push(h);
        assert(unresolved_models(unresolved@)[j as int] == (u.source_text@, u.reason@));
        assert(hole_models(holes@) =~= prev.push(expected[offset + j]));
        assert(expected.take(offset + j + 1) =~= expected.take(offset + j).push(expected[offset + j]));
        j = j + 1;
    }
    assert(expected.take(offset + j) =~= expected);
    holes
}


pub struct FormalReferenceModel {
    pub reference_handle: Seq<char>,
    pub reference_descriptor: Seq<char>,
    pub reference_family: Seq<char>,
    pub caller_context_dependent: bool,
    pub host_mappable_identity: Option<Seq<char>>,
    pub linked_hole_id: Option<Seq<char>>,
    pub structured_reference_bind_record_handle: Option<Seq<char>>,
}

pub open spec fn formal_model(f: RuntimeFormalReference) -> FormalReferenceModel {
    FormalReferenceModel {
        reference_handle: f.reference_handle@,
        reference_descriptor: f.reference_descriptor@,
        reference_family: f.reference_family@,
        caller_context_dependent: f.caller_context_dependent,
        host_mappable_identity: opt_view(f.host_mappable_identity),
        linked_hole_id: opt_view(f.linked_hole_id),
        structured_reference_bind_record_handle: opt_view(f.structured_reference_bind_record_handle),
    }
}

pub open spec fn formal_models(s: Seq<RuntimeFormalReference>) -> Seq<FormalReferenceModel> {
    s.map_values(|f: RuntimeFormalReference| formal_model(f))
}

/// The bind record of the reference at `cursor` of the records, and where
/// the cursor moves: structured references take the next record, error
/// references take it when its token is theirs.
pub open spec fn record_for_reference(r: NormalizedReferenceModel, records: Seq<StructuredReferenceBindRecord>, cursor: int) -> (Option<Seq<char>>, int) {
    match r {
        NormalizedReferenceModel::Structured(_) => if 0 <= cursor < records.len() {
            (Some(records[cursor].bind_record_handle@), cursor + 1)
        } else {
            (None, cursor)
        },
        NormalizedReferenceModel::Error(e) => if 0 <= cursor < records.len() && records[cursor].source_token_text@ == e.source_text {
            (Some(records[cursor].bind_record_handle@), cursor + 1)
        } else {
            (None, cursor)
        },
        _ => (None, cursor),
    }
}

/// A record diagnosing an unresolved reference: same token, and a
/// diagnostic with the same message.
pub open spec fn record_matches(rec: StructuredReferenceBindRecord, u: (Seq<char>, Seq<char>)) -> bool {
    rec.source_token_text@ == u.0 && exists|k: int| 0 <= k < rec.diagnostics@.len() && (#[trigger] rec.diagnostics@[k]).message@ == u.1
}

pub open spec fn record_pred(u: (Seq<char>, Seq<char>)) -> spec_fn(StructuredReferenceBindRecord) -> bool {
    |rec: StructuredReferenceBindRecord| record_matches(rec, u)
}

pub open spec fn record_for_unresolved(u: (Seq<char>, Seq<char>), records: Seq<StructuredReferenceBindRecord>) -> Option<Seq<char>> {
    match crate::binding::structured::first_where(records, record_pred(u)) {
        Some(k) => Some(records[k].bind_record_handle@),
        None => None,
    }
}

/// Sixteen hex digits hashing a text.
pub open spec fn text_hash(text: Seq<char>) -> Seq<char> {
    hex16(default_string_hash(text))
}

/// The formal references of the normalized references from `i` on.
pub open spec fn formal_refs_from(
    bind_hash: Seq<char>,
    refs: Seq<NormalizedReferenceModel>,
    records: Seq<StructuredReferenceBindRecord>,
    i: int,
    cursor: int,
) -> Seq<FormalReferenceModel>
    decreases refs.len() - i,
{
    if i < 0 || i >= refs.len() {
        Seq::empty()
    } else {
        let r = refs[i];
        let (handle, next) = record_for_reference(r, records, cursor);
        seq![FormalReferenceModel {
            reference_handle: "formal-ref:"@ + text_hash(field(bind_hash) + field(render_reference(r))) + ":"@ + decimal(i as nat),
            reference_descriptor: render_reference(r),
            reference_family: family_spec(r),
            caller_context_dependent: caller_dependent_spec(r),
            host_mappable_identity: Some(render_reference(r)),
            linked_hole_id: Some(reference_hole_id(i as nat)),
            structured_reference_bind_record_handle: handle,
        }] + formal_refs_from(bind_hash, refs, records, i + 1, next)
    }
}

/// The formal references of a bound formula: one per normalized reference,
/// then one per unresolved reference.
pub open spec fn formal_references_spec(
    bind_hash: Seq<char>,
    refs: Seq<NormalizedReferenceModel>,
    unresolved: Seq<(Seq<char>, Seq<char>)>,
    records: Seq<StructuredReferenceBindRecord>,
) -> Seq<FormalReferenceModel> {
    formal_refs_from(bind_hash, refs, records, 0, 0) + Seq::new(unresolved.len(), |j: int| FormalReferenceModel {
        reference_handle: "formal-ref:"@ + text_hash(field(bind_hash) + field(unresolved[j].0) + field(unresolved[j].1))
            + ":unresolved:"@ + decimal(j as nat),
        reference_descriptor: unresolved[j].0,
        reference_family: "unresolved"@,
        caller_context_dependent: false,
        host_mappable_identity: None,
        linked_hole_id: Some(unresolved_hole_id(j as nat)),
        structured_reference_bind_record_handle: record_for_unresolved(unresolved[j], records),
    })
}

/// The bind record handle of a normalized reference, taken at `cursor` of
/// the records; the cursor moves past the record taken.
fn runtime_structured_reference_record_handle_for_reference(
    reference: &NormalizedReference,
    records: &Vec<StructuredReferenceBindRecord>,
    cursor: &mut usize,
) -> (r: Option<String>)
    requires
        *old(cursor) <= records@.len(),
    ensures
        (opt_view(r), *final(cursor) as int) == record_for_reference(reference.model(), records@, *old(cursor) as int),
        *final(cursor) <= records@.len(),
{
    match reference {
        NormalizedReference::Structured(_) => {
            if *cursor < records.len() {
                let h = records[*cursor].bind_record_handle.clone();
                *cursor = *cursor + 1;
                Some(h)
            } else {
                None
            }
        },
        NormalizedReference::Error(e) => {
            if *cursor < records.len() && records[*cursor].source_token_text == e.source_text {
                let h = records[*cursor].bind_record_handle.clone();
                *cursor = *cursor + 1;
                Some(h)
            } else {
                None
            }
        },
        _ => None,
    }
}

fn runtime_structured_reference_record_handle_for_unresolved(source_text: &String, reason: &String, records: &Vec<StructuredReferenceBindRecord>) -> (r: Option<String>)
    ensures
        opt_view(r) == record_for_unresolved((source_text@, reason@), records@),
{
    let ghost u = (source_text@, reason@);
    let ghost p = record_pred(u);
    let mut k: usize = 0;
    while k < records.len()
        invariant
            k <= records@.len(),
            p == record_pred(u),
            u == (source_text@, reason@),
            forall|j: int| 0 <= j < k ==> !p(#[trigger] records@[j]),
        decreases records.len() - k,
    {
        let rec = &records[k];
        if rec.source_token_text == *source_text {
            let mut d: usize = 0;
            while d < rec.diagnostics.len()
                invariant
                    d <= rec.diagnostics@.len(),
                    k < records@.len(),
                    *rec == records@[k as int],
                    rec.source_token_text@ == source_text@,
                    p == record_pred(u),
                    u == (source_text@, reason@),
                    forall|j: int| 0 <= j < k ==> !p(#[trigger] records@[j]),
                    forall|x: int| 0 <= x < d ==> (#[trigger] rec.diagnostics@[x]).message@ != reason@,
                decreases rec.diagnostics.len() - d,
            {
                if rec.diagnostics[d].message == *reason {
                    proof { crate::binding::structured::lemma_first_where_at(records@, p, k as int); }
                    return Some(rec.bind_record_handle.clone());
                }
                d = d + 1;
            }
            assert(!record_matches(*rec, u));
        }
        assert(!p(records@[k as int]));
        k = k + 1;
    }
    proof { crate::binding::structured::lemma_first_where_none(records@, p); }
    None
}

/// The formal references of a bound formula, linked to its structured
/// reference bind records.
pub fn runtime_formal_references(bound_formula: &BoundFormula, records: &Vec<StructuredReferenceBindRecord>) -> (r: Vec<RuntimeFormalReference>)
    ensures
        formal_models(r@) == formal_references_spec(
            bound_formula.bind_hash@,
            norm_models(bound_formula.normalized_references@),
            unresolved_models(bound_formula.unresolved_references@),
            records@,
        ),
{
    let refs = &bound_formula.normalized_references;
    let unresolved = &bound_formula.unresolved_references;
    let ghost bh = bound_formula.bind_hash@;
    let ghost nm = norm_models(refs@);
    let ghost um = unresolved_models(unresolved@);
    let mut out: Vec<RuntimeFormalReference> = Vec::new();
    let mut cursor: usize = 0;
    let mut i: usize = 0;
    assert(formal_models(out@) + formal_refs_from(bh, nm, records@, 0, 0) =~= formal_refs_from(bh, nm, records@, 0, 0));
    while i < refs.len()
        invariant
            i <= refs@.len(),
            cursor <= records@.len(),
            refs@ == bound_formula.normalized_references@,
            bh == bound_formula.bind_hash@,
            nm == norm_models(refs@),
            formal_models(out@) + formal_refs_from(bh, nm, records@, i as int, cursor as int) == formal_refs_from(bh, nm, records@, 0, 0),
        decreases refs.len() - i,
    {
        let r = &refs[i];
        assert(nm[i as int] == r.model());
        let handle = runtime_structured_reference_record_handle_for_reference(r, records, &mut cursor);
        let descriptor = r.to_string();
        let mut hash_input: Vec<char> = Vec::new();
        push_field(&mut hash_input, &bound_formula.bind_hash);
        push_field(&mut hash_input, &descriptor);
        let digest = hex16_string(hash_text(&string_of(&hash_input)));
        let mut h: Vec<char> = Vec::new();
        push_str(&mut h, "formal-ref:");
        push_string(&mut h, &digest);
        push_str(&mut h, ":");
        push_decimal(&mut h, i as u64);
        let f = RuntimeFormalReference {
            reference_handle: string_of(&h),
            reference_descriptor: descriptor.clone(),
            reference_family: string_of(&chars_of(runtime_reference_family(r))),
            caller_context_dependent: runtime_reference_caller_context_dependent(r),
            host_mappable_identity: Some(descriptor),
            linked_hole_id: Some(runtime_reference_hole_id(i)),
            structured_reference_bind_record_handle: handle,
        };
        let ghost prev = formal_models(out@);
        let ghost fm = formal_model(f);
        out.push(f);
        assert(formal_models(out@) =~= prev.push(fm));
        assert(prev.push(fm) + formal_refs_from(bh, nm, records@, i + 1, cursor as int) =~= prev + (seq![fm] + formal_refs_from(bh, nm, records@, i + 1, cursor as int)));
        i = i + 1;
    }
    assert(formal_refs_from(bh, nm, records@, i as int, cursor as int) =~= Seq::<FormalReferenceModel>::empty());
    let ghost first = formal_models(out@);
    assert(first + Seq::<FormalReferenceModel>::empty() =~= first);
    let ghost expected = formal_references_spec(bh, nm, um, records@);
    let mut j: usize = 0;
    while j < unresolved.len()
        invariant
            j <= unresolved@.len(),
            unresolved@ == bound_formula.unresolved_references@,
            um == unresolved_models(unresolved@),
            bh == bound_formula.bind_hash@,
            first == formal_refs_from(bh, nm, records@, 0, 0),
            expected == formal_references_spec(bh, nm, um, records@),
            formal_models(out@) == expected.take(first.len() + j),
        decreases unresolved.len() - j,
    {
        let u = &unresolved[j];
        assert(um[j as int] == (u.source_text@, u.reason@));
        let mut hash_input: Vec<char> = Vec::new();
        push_field(&mut hash_input, &bound_formula.bind_hash);
        push_field(&mut hash_input, &u.source_text);
        push_field(&mut hash_input, &u.reason);
        let digest = hex16_string(hash_text(&string_of(&hash_input)));
        let mut h: Vec<char> = Vec::new();
        push_str(&mut h, "formal-ref:");
        push_string(&mut h, &digest);
        push_str(&mut h, ":unresolved:");
        push_decimal(&mut h, j as u64);
        let f = RuntimeFormalReference {
            reference_handle: string_of(&h),
            reference_descriptor: u.source_text.clone(),
            reference_family: string_of(&chars_of("unresolved")),
            caller_context_dependent: false,
            host_mappable_identity: None,
            linked_hole_id: Some(runtime_unresolved_hole_id(j)),
            structured_reference_bind_record_handle: runtime_structured_reference_record_handle_for_unresolved(&u.source_text, &u.reason, records),
        };
        let ghost prev = formal_models(out@);
        let ghost fm = formal_model(f);
        out.push(f);
        assert(formal_models(out@) =~= prev.push(fm));
        assert(fm == expected[first.len() + j]);
        assert(expected.take(first.len() + j + 1) =~= expected.take(first.len() + j).push(expected[first.len() + j]));
        j = j + 1;
    }
    assert(expected.take(first.len() + j) =~= expected);
    out
}

/// The name a formal input binds: the descriptor without its `name:` tag.
pub open spec fn formal_input_name_spec(descriptor: Seq<char>) -> Seq<char> {
    if descriptor.len() >= 5 && descriptor.take(5) == "name:"@ {
        descriptor.skip(5)
    } else {
        descriptor
    }
}

pub fn formal_input_binding_name(reference_descriptor: &str) -> (r: String)
    ensures
        r@ == formal_input_name_spec(reference_descriptor@),
{
    let d = chars_of(reference_descriptor);
    if d.len() >= 5 && chars_eq(&slice_chars(&d, 0, 5), &chars_of("name:")) {
        assert(d@.subrange(0, 5) =~= d@.take(5));
        let rest = slice_chars(&d, 5, d.len());
        assert(rest@ =~= d@.skip(5));
        string_of(&rest)
    } else {
        proof {
            if d@.len() >= 5 {
                assert(d@.subrange(0, 5) =~= d@.take(5));
            }
        }
        string_of(&d)
    }
}

} // verus!
