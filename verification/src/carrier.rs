//! Carrier validation: whether a bound formula may stand in a conditional
//! formatting rule or a data validation rule, and the host facts recorded
//! beside the verdict.

use vstd::prelude::*;

use crate::binding::reference::{NormalizedReference, NormalizedReferenceModel, ReferenceExpr, ReferenceExprModel};
use crate::binding::binder_spec::norm_models;
use crate::binding::{expr_models, BinaryOp, BoundExpr, BoundExprModel, BoundFormula, BoundFormulaModel, UnaryOp};
use crate::source::FormulaChannelKind;
use crate::text::{chars_of, join, join_strings, push_chars, push_str, push_string, string_of, string_views};

verus! {

#[derive(Debug, Clone, Copy, PartialEq, Eq, Structural, Hash)]
pub enum CarrierValidationDisposition {
    Admitted,
    Rejected,
}

#[derive(Debug, Clone, Copy, PartialEq, Eq, Structural, Hash)]
pub enum CarrierRestrictionCode {
    UnionReferenceOperatorNotAdmitted,
    IntersectionReferenceOperatorNotAdmitted,
    SpillReferenceOperatorNotAdmitted,
    ExternalReferenceNotAdmitted,
}

#[derive(Debug, Clone, PartialEq, Eq, Hash)]
pub struct ConditionalFormattingCarrierSpec {
    pub target_ranges: Vec<String>,
    pub rule_kind: String,
    pub operator: Option<String>,
    pub threshold_fields: Vec<String>,
}

#[derive(Debug, Clone, PartialEq, Eq, Hash)]
pub struct DataValidationCarrierSpec {
    pub target_ranges: Vec<String>,
    pub validation_kind: String,
    pub operator: Option<String>,
    pub formula_slot: String,
}

#[derive(Debug, Clone, PartialEq, Eq, Hash)]
pub struct FormulaCarrierValidation {
    pub formula_channel_kind: FormulaChannelKind,
    pub restriction_profile_id: String,
    pub disposition: CarrierValidationDisposition,
    pub restriction_codes: Vec<CarrierRestrictionCode>,
    pub host_field_facts: Vec<String>,
}

/// `codes` with `c` appended unless it is already there.
pub open spec fn push_unique_spec(codes: Seq<CarrierRestrictionCode>, c: CarrierRestrictionCode) -> Seq<CarrierRestrictionCode> {
    if codes.contains(c) {
        codes
    } else {
        codes.push(c)
    }
}

/// The restrictions a reference expression adds to `acc`, in the order a
/// left-to-right walk meets them: unions, intersections and spills.
pub open spec fn ref_restrictions(acc: Seq<CarrierRestrictionCode>, r: ReferenceExprModel) -> Seq<CarrierRestrictionCode>
    decreases r,
{
    match r {
        ReferenceExprModel::Union { left, right } => ref_restrictions(
            ref_restrictions(push_unique_spec(acc, CarrierRestrictionCode::UnionReferenceOperatorNotAdmitted), *left),
            *right,
        ),
        ReferenceExprModel::Intersection { left, right } => ref_restrictions(
            ref_restrictions(push_unique_spec(acc, CarrierRestrictionCode::IntersectionReferenceOperatorNotAdmitted), *left),
            *right,
        ),
        ReferenceExprModel::Spill { anchor } => ref_restrictions(
            push_unique_spec(acc, CarrierRestrictionCode::SpillReferenceOperatorNotAdmitted),
            *anchor,
        ),
        ReferenceExprModel::Range { start, end } => ref_restrictions(ref_restrictions(acc, *start), *end),
        ReferenceExprModel::Atom(_) => acc,
    }
}

/// The restrictions an expression adds to `acc`: operands of binary and
/// unary operators, arguments of calls and invocations, intersected
/// expressions and references are walked; literals and arrays are not.
pub open spec fn expr_restrictions(acc: Seq<CarrierRestrictionCode>, e: BoundExprModel) -> Seq<CarrierRestrictionCode>
    decreases e, 0int,
{
    match e {
        BoundExprModel::Binary { left, right, .. } => expr_restrictions(expr_restrictions(acc, *left), *right),
        BoundExprModel::Unary { expr, .. } => expr_restrictions(acc, *expr),
        BoundExprModel::FunctionCall { args, .. } => args_restrictions(acc, args, 0),
        BoundExprModel::Invocation { args, .. } => args_restrictions(acc, args, 0),
        BoundExprModel::Reference(r) => ref_restrictions(acc, r),
        BoundExprModel::ImplicitIntersection(inner) => expr_restrictions(acc, *inner),
        _ => acc,
    }
}

/// The restrictions of `args[i..]`, one argument after another.
pub open spec fn args_restrictions(acc: Seq<CarrierRestrictionCode>, args: Seq<BoundExprModel>, i: int) -> Seq<CarrierRestrictionCode>
    decreases args, args.len() - i,
{
    if i < 0 || i >= args.len() {
        acc
    } else {
        args_restrictions(expr_restrictions(acc, args[i]), args, i + 1)
    }
}

/// The restriction codes an expression carries, as a set.
pub open spec fn expr_codes(e: BoundExprModel) -> Set<CarrierRestrictionCode> {
    expr_restrictions(Seq::empty(), e).to_set()
}

/// The restriction codes a reference expression carries, as a set.
pub open spec fn ref_codes(r: ReferenceExprModel) -> Set<CarrierRestrictionCode> {
    ref_restrictions(Seq::empty(), r).to_set()
}

proof fn lemma_push_unique_set(acc: Seq<CarrierRestrictionCode>, c: CarrierRestrictionCode)
    ensures
        push_unique_spec(acc, c).to_set() == acc.to_set().insert(c),
{
    if acc.contains(c) {
        assert(acc.to_set() =~= acc.to_set().insert(c)) by {
            assert(acc.to_set().contains(c));
        }
    } else {
        assert forall|x: CarrierRestrictionCode| acc.push(c).contains(x) <==> acc.to_set().insert(c).contains(x) by {
            if acc.contains(x) {
                let k = choose|k: int| 0 <= k < acc.len() && acc[k] == x;
                assert(acc.push(c)[k] == x);
            }
            if acc.push(c).contains(x) {
                let k = choose|k: int| 0 <= k < acc.push(c).len() && acc.push(c)[k] == x;
                if k < acc.len() {
                    assert(acc[k] == x);
                }
            }
            if x == c {
                assert(acc.push(c)[acc.len() as int] == c);
            }
        }
        assert(acc.push(c).to_set() =~= acc.to_set().insert(c));
    }
}

proof fn lemma_ref_union(acc: Seq<CarrierRestrictionCode>, r: ReferenceExprModel)
    ensures
        ref_restrictions(acc, r).to_set() == acc.to_set() + ref_codes(r),
    decreases r,
{
    let e = Seq::<CarrierRestrictionCode>::empty();
    assert(e.to_set() =~= Set::<CarrierRestrictionCode>::empty());
    match r {
        ReferenceExprModel::Union { left, right } => {
            let c = CarrierRestrictionCode::UnionReferenceOperatorNotAdmitted;
            lemma_push_unique_set(acc, c);
            lemma_push_unique_set(e, c);
            lemma_ref_union(push_unique_spec(acc, c), *left);
            lemma_ref_union(ref_restrictions(push_unique_spec(acc, c), *left), *right);
            lemma_ref_union(push_unique_spec(e, c), *left);
            lemma_ref_union(ref_restrictions(push_unique_spec(e, c), *left), *right);
            lemma_ref_union(e, *left);
            assert(ref_restrictions(acc, r).to_set() =~= acc.to_set() + ref_codes(r));
        },
        ReferenceExprModel::Intersection { left, right } => {
            let c = CarrierRestrictionCode::IntersectionReferenceOperatorNotAdmitted;
            lemma_push_unique_set(acc, c);
            lemma_push_unique_set(e, c);
            lemma_ref_union(push_unique_spec(acc, c), *left);
            lemma_ref_union(ref_restrictions(push_unique_spec(acc, c), *left), *right);
            lemma_ref_union(push_unique_spec(e, c), *left);
            lemma_ref_union(ref_restrictions(push_unique_spec(e, c), *left), *right);
            assert(ref_restrictions(acc, r).to_set() =~= acc.to_set() + ref_codes(r));
        },
        ReferenceExprModel::Spill { anchor } => {
            let c = CarrierRestrictionCode::SpillReferenceOperatorNotAdmitted;
            lemma_push_unique_set(acc, c);
            lemma_push_unique_set(e, c);
            lemma_ref_union(push_unique_spec(acc, c), *anchor);
            lemma_ref_union(push_unique_spec(e, c), *anchor);
            assert(ref_restrictions(acc, r).to_set() =~= acc.to_set() + ref_codes(r));
        },
        ReferenceExprModel::Range { start, end } => {
            lemma_ref_union(acc, *start);
            lemma_ref_union(ref_restrictions(acc, *start), *end);
            lemma_ref_union(e, *start);
            lemma_ref_union(ref_restrictions(e, *start), *end);
            assert(ref_restrictions(acc, r).to_set() =~= acc.to_set() + ref_codes(r));
        },
        ReferenceExprModel::Atom(_) => {
            assert(ref_restrictions(acc, r).to_set() =~= acc.to_set() + ref_codes(r));
        },
    }
}

proof fn lemma_expr_union(acc: Seq<CarrierRestrictionCode>, x: BoundExprModel)
    ensures
        expr_restrictions(acc, x).to_set() == acc.to_set() + expr_codes(x),
    decreases x, 0int,
{
    let e = Seq::<CarrierRestrictionCode>::empty();
    assert(e.to_set() =~= Set::<CarrierRestrictionCode>::empty());
    match x {
        BoundExprModel::Binary { left, right, .. } => {
            lemma_expr_union(acc, *left);
            lemma_expr_union(expr_restrictions(acc, *left), *right);
            lemma_expr_union(e, *left);
            lemma_expr_union(expr_restrictions(e, *left), *right);
        },
        BoundExprModel::Unary { expr, .. } => {
            lemma_expr_union(acc, *expr);
        },
        BoundExprModel::FunctionCall { args, .. } => {
            lemma_args_union(acc, args, 0);
        },
        BoundExprModel::Invocation { args, .. } => {
            lemma_args_union(acc, args, 0);
        },
        BoundExprModel::Reference(r) => {
            lemma_ref_union(acc, r);
        },
        BoundExprModel::ImplicitIntersection(inner) => {
            lemma_expr_union(acc, *inner);
        },
        _ => {},
    }
    assert(expr_restrictions(acc, x).to_set() =~= acc.to_set() + expr_codes(x));
}

/// The restriction codes of `args[i..]`, as a set.
pub open spec fn args_codes(args: Seq<BoundExprModel>, i: int) -> Set<CarrierRestrictionCode> {
    args_restrictions(Seq::empty(), args, i).to_set()
}

proof fn lemma_args_union(acc: Seq<CarrierRestrictionCode>, args: Seq<BoundExprModel>, i: int)
    ensures
        args_restrictions(acc, args, i).to_set() == acc.to_set() + args_codes(args, i),
        0 <= i < args.len() ==> args_codes(args, i) == expr_codes(args[i]) + args_codes(args, i + 1),
    decreases args, args.len() - i,
{
    let e = Seq::<CarrierRestrictionCode>::empty();
    assert(e.to_set() =~= Set::<CarrierRestrictionCode>::empty());
    if 0 <= i < args.len() {
        lemma_expr_union(acc, args[i]);
        lemma_args_union(expr_restrictions(acc, args[i]), args, i + 1);
        lemma_expr_union(e, args[i]);
        lemma_args_union(expr_restrictions(e, args[i]), args, i + 1);
        assert(args_restrictions(acc, args, i).to_set() =~= acc.to_set() + args_codes(args, i));
        assert(args_codes(args, i) =~= expr_codes(args[i]) + args_codes(args, i + 1));
    } else {
        assert(args_restrictions(acc, args, i).to_set() =~= acc.to_set() + args_codes(args, i));
    }
}

proof fn lemma_args_codes_contain(args: Seq<BoundExprModel>, i: int, j: int)
    requires
        0 <= i <= j < args.len(),
    ensures
        expr_codes(args[j]).subset_of(args_codes(args, i)),
    decreases j - i,
{
    lemma_args_union(Seq::empty(), args, i);
    if i < j {
        lemma_args_codes_contain(args, i + 1, j);
    }
}

/// Restriction codes compose: a binary expression carries those of both
/// operands; a unary or intersected expression those of its operand; a
/// call or invocation those of every argument; a reference those of its
/// reference expression, where a union adds the union restriction, an
/// intersection the intersection restriction, a spill the spill
/// restriction, each to those of its parts, and a range those of its ends.
pub proof fn lemma_restriction_codes_compose(
    left: BoundExprModel,
    right: BoundExprModel,
    op: BinaryOp,
    unary: UnaryOp,
    name: Seq<char>,
    args: Seq<BoundExprModel>,
    a: ReferenceExprModel,
    b: ReferenceExprModel,
)
    ensures
        expr_codes(BoundExprModel::Binary { op, left: Box::new(left), right: Box::new(right) }) == expr_codes(left) + expr_codes(right),
        expr_codes(BoundExprModel::Unary { op: unary, expr: Box::new(left) }) == expr_codes(left),
        expr_codes(BoundExprModel::ImplicitIntersection(Box::new(left))) == expr_codes(left),
        forall|j: int| 0 <= j < args.len() ==> expr_codes(#[trigger] args[j]).subset_of(
            expr_codes(BoundExprModel::FunctionCall { function_name: name, args })),
        forall|j: int| 0 <= j < args.len() ==> expr_codes(#[trigger] args[j]).subset_of(
            expr_codes(BoundExprModel::Invocation { callee: Box::new(left), args })),
        expr_codes(BoundExprModel::Reference(a)) == ref_codes(a),
        ref_codes(ReferenceExprModel::Union { left: Box::new(a), right: Box::new(b) })
            == ref_codes(a).insert(CarrierRestrictionCode::UnionReferenceOperatorNotAdmitted) + ref_codes(b),
        ref_codes(ReferenceExprModel::Intersection { left: Box::new(a), right: Box::new(b) })
            == ref_codes(a).insert(CarrierRestrictionCode::IntersectionReferenceOperatorNotAdmitted) + ref_codes(b),
        ref_codes(ReferenceExprModel::Spill { anchor: Box::new(a) })
            == ref_codes(a).insert(CarrierRestrictionCode::SpillReferenceOperatorNotAdmitted),
        ref_codes(ReferenceExprModel::Range { start: Box::new(a), end: Box::new(b) }) == ref_codes(a) + ref_codes(b),
        ref_codes(ReferenceExprModel::Atom(
            NormalizedReferenceModel::Error(crate::binding::reference::ErrorRefModel { error_class: name, source_text: name }),
        )).len() == 0,
{
    let e = Seq::<CarrierRestrictionCode>::empty();
    assert(e.to_set() =~= Set::<CarrierRestrictionCode>::empty());
    lemma_expr_union(e, left);
    lemma_expr_union(expr_restrictions(e, left), right);
    let bin = BoundExprModel::Binary { op, left: Box::new(left), right: Box::new(right) };
    assert(expr_codes(bin) =~= expr_codes(left) + expr_codes(right));
    assert forall|j: int| 0 <= j < args.len() implies expr_codes(#[trigger] args[j]).subset_of(
        expr_codes(BoundExprModel::FunctionCall { function_name: name, args })) by {
        lemma_args_codes_contain(args, 0, j);
    }
    assert forall|j: int| 0 <= j < args.len() implies expr_codes(#[trigger] args[j]).subset_of(
        expr_codes(BoundExprModel::Invocation { callee: Box::new(left), args })) by {
        lemma_args_codes_contain(args, 0, j);
    }
    let u = CarrierRestrictionCode::UnionReferenceOperatorNotAdmitted;
    let n = CarrierRestrictionCode::IntersectionReferenceOperatorNotAdmitted;
    let sp = CarrierRestrictionCode::SpillReferenceOperatorNotAdmitted;
    lemma_push_unique_set(e, u);
    lemma_push_unique_set(e, n);
    lemma_push_unique_set(e, sp);
    lemma_ref_union(push_unique_spec(e, u), a);
    lemma_ref_union(ref_restrictions(push_unique_spec(e, u), a), b);
    lemma_ref_union(push_unique_spec(e, n), a);
    lemma_ref_union(ref_restrictions(push_unique_spec(e, n), a), b);
    lemma_ref_union(push_unique_spec(e, sp), a);
    lemma_ref_union(e, a);
    lemma_ref_union(ref_restrictions(e, a), b);
    assert(ref_codes(ReferenceExprModel::Union { left: Box::new(a), right: Box::new(b) })
        =~= ref_codes(a).insert(u) + ref_codes(b));
    assert(ref_codes(ReferenceExprModel::Intersection { left: Box::new(a), right: Box::new(b) })
        =~= ref_codes(a).insert(n) + ref_codes(b));
    assert(ref_codes(ReferenceExprModel::Spill { anchor: Box::new(a) }) =~= ref_codes(a).insert(sp));
    assert(ref_codes(ReferenceExprModel::Range { start: Box::new(a), end: Box::new(b) }) =~= ref_codes(a) + ref_codes(b));
}

/// Whether some normalized reference is external.
pub open spec fn has_external(refs: Seq<NormalizedReferenceModel>) -> bool {
    exists|i: int| 0 <= i < refs.len() && refs[i] is External
}

/// The restriction codes of a bound formula: those of its expression, then
/// the external-reference restriction when a reference is external.
pub open spec fn restrictions_spec(f: BoundFormulaModel) -> Seq<CarrierRestrictionCode> {
    let base = expr_restrictions(Seq::empty(), f.root);
    if has_external(f.normalized_references) {
        push_unique_spec(base, CarrierRestrictionCode::ExternalReferenceNotAdmitted)
    } else {
        base
    }
}

pub open spec fn disposition_of(codes: Seq<CarrierRestrictionCode>) -> CarrierValidationDisposition {
    if codes.len() == 0 {
        CarrierValidationDisposition::Admitted
    } else {
        CarrierValidationDisposition::Rejected
    }
}

pub open spec fn operator_fact(operator: Option<String>) -> Seq<Seq<char>> {
    match operator {
        Some(o) => seq!["operator="@ + o@],
        None => Seq::empty(),
    }
}

/// The host facts of a conditional formatting rule.
pub open spec fn cf_facts_spec(spec: ConditionalFormattingCarrierSpec) -> Seq<Seq<char>> {
    seq!["target_ranges="@ + join(string_views(spec.target_ranges@), ","@), "rule_kind="@ + spec.rule_kind@]
        + operator_fact(spec.operator)
        + if spec.threshold_fields@.len() > 0 {
            seq!["threshold_fields="@ + join(string_views(spec.threshold_fields@), ","@)]
        } else {
            Seq::empty()
        }
}

/// The host facts of a data validation rule.
pub open spec fn dv_facts_spec(spec: DataValidationCarrierSpec) -> Seq<Seq<char>> {
    seq![
        "target_ranges="@ + join(string_views(spec.target_ranges@), ","@),
        "validation_kind="@ + spec.validation_kind@,
        "formula_slot="@ + spec.formula_slot@,
    ] + operator_fact(spec.operator)
}

/// Validates a bound formula for a conditional formatting rule.
pub fn validate_conditional_formatting_formula(
    bound_formula: &BoundFormula,
    spec: &ConditionalFormattingCarrierSpec,
) -> (r: FormulaCarrierValidation)
    ensures
        r.formula_channel_kind == FormulaChannelKind::ConditionalFormatting,
        r.restriction_profile_id@ == "cf_restricted_not_equal_to_dv"@,
        r.restriction_codes@ == restrictions_spec(bound_formula.model()),
        r.disposition == disposition_of(r.restriction_codes@),
        r.restriction_codes@.no_duplicates(),
        string_views(r.host_field_facts@) == cf_facts_spec(*spec),
{
    proof { lemma_restriction_codes_unique(bound_formula.model()); }
    let restriction_codes = collect_restrictions(bound_formula);
    let disposition = if restriction_codes.len() == 0 {
        CarrierValidationDisposition::Admitted
    } else {
        CarrierValidationDisposition::Rejected
    };
    FormulaCarrierValidation {
        formula_channel_kind: FormulaChannelKind::ConditionalFormatting,
        restriction_profile_id: string_of(&chars_of("cf_restricted_not_equal_to_dv")),
        disposition,
        restriction_codes,
        host_field_facts: build_cf_host_field_facts(spec),
    }
}

/// Validates a bound formula for a data validation rule.
pub fn validate_data_validation_formula(
    bound_formula: &BoundFormula,
    spec: &DataValidationCarrierSpec,
) -> (r: FormulaCarrierValidation)
    ensures
        r.formula_channel_kind == FormulaChannelKind::DataValidation,
        r.restriction_profile_id@ == "dv_restricted_not_equal_to_cf"@,
        r.restriction_codes@ == restrictions_spec(bound_formula.model()),
        r.disposition == disposition_of(r.restriction_codes@),
        r.restriction_codes@.no_duplicates(),
        string_views(r.host_field_facts@) == dv_facts_spec(*spec),
{
    proof { lemma_restriction_codes_unique(bound_formula.model()); }
    let restriction_codes = collect_restrictions(bound_formula);
    let disposition = if restriction_codes.len() == 0 {
        CarrierValidationDisposition::Admitted
    } else {
        CarrierValidationDisposition::Rejected
    };
    FormulaCarrierValidation {
        formula_channel_kind: FormulaChannelKind::DataValidation,
        restriction_profile_id: string_of(&chars_of("dv_restricted_not_equal_to_cf")),
        disposition,
        restriction_codes,
        host_field_facts: build_dv_host_field_facts(spec),
    }
}

/// `prefix` followed by the pieces of `parts` joined by commas.
fn joined_fact(prefix: &str, parts: &Vec<String>) -> (r: String)
    ensures
        r@ == prefix@ + join(string_views(parts@), ","@),
{
    let mut v: Vec<char> = Vec::new();
    push_str(&mut v, prefix);
    let j = join_strings(parts, ",");
    push_chars(&mut v, &j);
    string_of(&v)
}

/// `prefix` followed by `value`.
fn plain_fact(prefix: &str, value: &String) -> (r: String)
    ensures
        r@ == prefix@ + value@,
{
    let mut v: Vec<char> = Vec::new();
    push_str(&mut v, prefix);
    push_string(&mut v, value);
    string_of(&v)
}

fn build_cf_host_field_facts(spec: &ConditionalFormattingCarrierSpec) -> (r: Vec<String>)
    ensures
        string_views(r@) == cf_facts_spec(*spec),
{
    let mut facts: Vec<String> = Vec::new();
    facts.push(joined_fact("target_ranges=", &spec.target_ranges));
    facts.push(plain_fact("rule_kind=", &spec.rule_kind));
    let ghost base = string_views(facts@);
    if let Some(operator) = &spec.operator {
        facts.push(plain_fact("operator=", operator));
    }
    let ghost with_op = string_views(facts@);
    assert(with_op =~= base + operator_fact(spec.operator));
    if spec.threshold_fields.len() > 0 {
        facts.push(joined_fact("threshold_fields=", &spec.threshold_fields));
    }
    assert(string_views(facts@) =~= cf_facts_spec(*spec));
    facts
}

fn build_dv_host_field_facts(spec: &DataValidationCarrierSpec) -> (r: Vec<String>)
    ensures
        string_views(r@) == dv_facts_spec(*spec),
{
    let mut facts: Vec<String> = Vec::new();
    facts.push(joined_fact("target_ranges=", &spec.target_ranges));
    facts.push(plain_fact("validation_kind=", &spec.validation_kind));
    facts.push(plain_fact("formula_slot=", &spec.formula_slot));
    if let Some(operator) = &spec.operator {
        facts.push(plain_fact("operator=", operator));
    }
    assert(string_views(facts@) =~= dv_facts_spec(*spec));
    facts
}

fn collect_restrictions(bound_formula: &BoundFormula) -> (r: Vec<CarrierRestrictionCode>)
    ensures
        r@ == restrictions_spec(bound_formula.model()),
{
    let mut restrictions: Vec<CarrierRestrictionCode> = Vec::new();
    collect_expr_restrictions(&bound_formula.root, &mut restrictions);
    let refs = &bound_formula.normalized_references;
    let mut i: usize = 0;
    let mut external = false;
    while i < refs.len()
        invariant
            i <= refs@.len(),
            refs@ == bound_formula.normalized_references@,
            !external ==> forall|j: int| 0 <= j < i ==> !(refs@[j] is External),
            external ==> has_external(bound_formula.model().normalized_references),
        decreases refs.len() - i,
    {
        if let NormalizedReference::External(_) = &refs[i] {
            assert(norm_models(refs@)[i as int] == refs@[i as int].model());
            assert(bound_formula.model().normalized_references[i as int] is External);
            external = true;
        }
        i = i + 1;
    }
    if external {
        push_unique(&mut restrictions, CarrierRestrictionCode::ExternalReferenceNotAdmitted);
    } else {
        assert(!has_external(bound_formula.model().normalized_references)) by {
            assert forall|j: int| 0 <= j < refs@.len() implies !(bound_formula.model().normalized_references[j] is External) by {
                assert(!(refs@[j] is External));
                assert(norm_models(refs@)[j] == refs@[j].model());
            }
        }
    }
    restrictions
}

fn collect_expr_restrictions(expr: &BoundExpr, restrictions: &mut Vec<CarrierRestrictionCode>)
    ensures
        final(restrictions)@ == expr_restrictions(old(restrictions)@, expr.model()),
    decreases expr,
{
    match expr {
        BoundExpr::Binary { left, right, .. } => {
            collect_expr_restrictions(left, restrictions);
            collect_expr_restrictions(right, restrictions);
        },
        BoundExpr::Unary { expr: inner, .. } => collect_expr_restrictions(inner, restrictions),
        BoundExpr::FunctionCall { args, .. } => collect_args_restrictions(args, restrictions),
        BoundExpr::Invocation { args, .. } => collect_args_restrictions(args, restrictions),
        BoundExpr::Reference(reference) => collect_reference_restrictions(reference, restrictions),
        BoundExpr::ImplicitIntersection(inner) => collect_expr_restrictions(inner, restrictions),
        _ => {},
    }
}

fn collect_args_restrictions(args: &Vec<BoundExpr>, restrictions: &mut Vec<CarrierRestrictionCode>)
    ensures
        final(restrictions)@ == args_restrictions(old(restrictions)@, expr_models(args@), 0),
    decreases args,
{
    let ghost m = expr_models(args@);
    let ghost start = restrictions@;
    let mut i: usize = 0;
    while i < args.len()
        invariant
            i <= args@.len(),
            m == expr_models(args@),
            args_restrictions(start, m, 0) == args_restrictions(restrictions@, m, i as int),
        decreases args.len() - i,
    {
        proof {
            assert(decreases_to!(args => args@));
            assert(decreases_to!(args@ => args@[i as int]));
        }
        assert(m[i as int] == args@[i as int].model());
        collect_expr_restrictions(&args[i], restrictions);
        i = i + 1;
    }
}

fn collect_reference_restrictions(reference: &ReferenceExpr, restrictions: &mut Vec<CarrierRestrictionCode>)
    ensures
        final(restrictions)@ == ref_restrictions(old(restrictions)@, reference.model()),
    decreases reference,
{
    match reference {
        ReferenceExpr::Union { left, right } => {
            push_unique(restrictions, CarrierRestrictionCode::UnionReferenceOperatorNotAdmitted);
            collect_reference_restrictions(left, restrictions);
            collect_reference_restrictions(right, restrictions);
        },
        ReferenceExpr::Intersection { left, right } => {
            push_unique(restrictions, CarrierRestrictionCode::IntersectionReferenceOperatorNotAdmitted);
            collect_reference_restrictions(left, restrictions);
            collect_reference_restrictions(right, restrictions);
        },
        ReferenceExpr::Spill { anchor } => {
            push_unique(restrictions, CarrierRestrictionCode::SpillReferenceOperatorNotAdmitted);
            collect_reference_restrictions(anchor, restrictions);
        },
        ReferenceExpr::Range { start, end } => {
            collect_reference_restrictions(start, restrictions);
            collect_reference_restrictions(end, restrictions);
        },
        ReferenceExpr::Atom(_) => {},
    }
}

fn push_unique(restrictions: &mut Vec<CarrierRestrictionCode>, restriction: CarrierRestrictionCode)
    ensures
        final(restrictions)@ == push_unique_spec(old(restrictions)@, restriction),
{
    let mut i: usize = 0;
    while i < restrictions.len()
        invariant
            i <= restrictions@.len(),
            forall|j: int| 0 <= j < i ==> restrictions@[j] != restriction,
        decreases restrictions.len() - i,
    {
        if restrictions[i] == restriction {
            assert(restrictions@.contains(restriction));
            return;
        }
        i = i + 1;
    }
    restrictions.push(restriction);
}

/// What a walk keeps: no code twice, the codes already found stay first,
/// and only operator restrictions are added.
pub open spec fn walk_keeps(acc: Seq<CarrierRestrictionCode>, out: Seq<CarrierRestrictionCode>) -> bool {
    &&& out.no_duplicates()
    &&& acc.len() <= out.len()
    &&& out.subrange(0, acc.len() as int) == acc
    &&& forall|i: int| acc.len() <= i < out.len() ==> out[i] != CarrierRestrictionCode::ExternalReferenceNotAdmitted
}

proof fn lemma_walk_keeps_trans(a: Seq<CarrierRestrictionCode>, b: Seq<CarrierRestrictionCode>, c: Seq<CarrierRestrictionCode>)
    requires
        walk_keeps(a, b),
        walk_keeps(b, c),
    ensures
        walk_keeps(a, c),
{
    assert(c.subrange(0, a.len() as int) =~= b.subrange(0, a.len() as int));
    assert forall|i: int| a.len() <= i < c.len() implies c[i] != CarrierRestrictionCode::ExternalReferenceNotAdmitted by {
        if i < b.len() {
            assert(c[i] == c.subrange(0, b.len() as int)[i]);
        }
    }
}

proof fn lemma_push_unique_keeps(acc: Seq<CarrierRestrictionCode>, c: CarrierRestrictionCode)
    requires
        acc.no_duplicates(),
        c != CarrierRestrictionCode::ExternalReferenceNotAdmitted,
    ensures
        walk_keeps(acc, push_unique_spec(acc, c)),
{
    assert(push_unique_spec(acc, c).subrange(0, acc.len() as int) =~= acc);
}

proof fn lemma_ref_walk(acc: Seq<CarrierRestrictionCode>, r: ReferenceExprModel)
    requires
        acc.no_duplicates(),
    ensures
        walk_keeps(acc, ref_restrictions(acc, r)),
    decreases r,
{
    assert(acc.subrange(0, acc.len() as int) =~= acc);
    match r {
        ReferenceExprModel::Union { left, right } => {
            let a1 = push_unique_spec(acc, CarrierRestrictionCode::UnionReferenceOperatorNotAdmitted);
            lemma_push_unique_keeps(acc, CarrierRestrictionCode::UnionReferenceOperatorNotAdmitted);
            lemma_ref_walk(a1, *left);
            lemma_walk_keeps_trans(acc, a1, ref_restrictions(a1, *left));
            lemma_ref_walk(ref_restrictions(a1, *left), *right);
            lemma_walk_keeps_trans(acc, ref_restrictions(a1, *left), ref_restrictions(ref_restrictions(a1, *left), *right));
        },
        ReferenceExprModel::Intersection { left, right } => {
            let a1 = push_unique_spec(acc, CarrierRestrictionCode::IntersectionReferenceOperatorNotAdmitted);
            lemma_push_unique_keeps(acc, CarrierRestrictionCode::IntersectionReferenceOperatorNotAdmitted);
            lemma_ref_walk(a1, *left);
            lemma_walk_keeps_trans(acc, a1, ref_restrictions(a1, *left));
            lemma_ref_walk(ref_restrictions(a1, *left), *right);
            lemma_walk_keeps_trans(acc, ref_restrictions(a1, *left), ref_restrictions(ref_restrictions(a1, *left), *right));
        },
        ReferenceExprModel::Spill { anchor } => {
            let a1 = push_unique_spec(acc, CarrierRestrictionCode::SpillReferenceOperatorNotAdmitted);
            lemma_push_unique_keeps(acc, CarrierRestrictionCode::SpillReferenceOperatorNotAdmitted);
            lemma_ref_walk(a1, *anchor);
            lemma_walk_keeps_trans(acc, a1, ref_restrictions(a1, *anchor));
        },
        ReferenceExprModel::Range { start, end } => {
            lemma_ref_walk(acc, *start);
            lemma_ref_walk(ref_restrictions(acc, *start), *end);
            lemma_walk_keeps_trans(acc, ref_restrictions(acc, *start), ref_restrictions(ref_restrictions(acc, *start), *end));
        },
        ReferenceExprModel::Atom(_) => {},
    }
}

proof fn lemma_expr_walk(acc: Seq<CarrierRestrictionCode>, e: BoundExprModel)
    requires
        acc.no_duplicates(),
    ensures
        walk_keeps(acc, expr_restrictions(acc, e)),
    decreases e, 0int,
{
    assert(acc.subrange(0, acc.len() as int) =~= acc);
    match e {
        BoundExprModel::Binary { left, right, .. } => {
            lemma_expr_walk(acc, *left);
            lemma_expr_walk(expr_restrictions(acc, *left), *right);
            lemma_walk_keeps_trans(acc, expr_restrictions(acc, *left), expr_restrictions(expr_restrictions(acc, *left), *right));
        },
        BoundExprModel::Unary { expr, .. } => lemma_expr_walk(acc, *expr),
        BoundExprModel::FunctionCall { args, .. } => lemma_args_walk(acc, args, 0),
        BoundExprModel::Invocation { args, .. } => lemma_args_walk(acc, args, 0),
        BoundExprModel::Reference(r) => lemma_ref_walk(acc, r),
        BoundExprModel::ImplicitIntersection(inner) => lemma_expr_walk(acc, *inner),
        _ => {},
    }
}

proof fn lemma_args_walk(acc: Seq<CarrierRestrictionCode>, args: Seq<BoundExprModel>, i: int)
    requires
        acc.no_duplicates(),
    ensures
        walk_keeps(acc, args_restrictions(acc, args, i)),
    decreases args, args.len() - i,
{
    assert(acc.subrange(0, acc.len() as int) =~= acc);
    if 0 <= i < args.len() {
        let a1 = expr_restrictions(acc, args[i]);
        lemma_expr_walk(acc, args[i]);
        lemma_args_walk(a1, args, i + 1);
        lemma_walk_keeps_trans(acc, a1, args_restrictions(a1, args, i + 1));
    }
}

/// No restriction code is reported twice.
pub proof fn lemma_restriction_codes_unique(f: BoundFormulaModel)
    ensures
        restrictions_spec(f).no_duplicates(),
{
    let base = expr_restrictions(Seq::empty(), f.root);
    lemma_expr_walk(Seq::empty(), f.root);
    if has_external(f.normalized_references) && !base.contains(CarrierRestrictionCode::ExternalReferenceNotAdmitted) {
        assert forall|i: int, j: int| 0 <= i < j < base.len() + 1 implies
            base.push(CarrierRestrictionCode::ExternalReferenceNotAdmitted)[i]
                != base.push(CarrierRestrictionCode::ExternalReferenceNotAdmitted)[j] by {
            if j == base.len() {
                assert(base.contains(base[i]));
            }
        }
    }
}

/// The external-reference restriction is reported exactly when some
/// normalized reference of the formula is external.
pub proof fn lemma_external_restriction(f: BoundFormulaModel)
    ensures
        restrictions_spec(f).contains(CarrierRestrictionCode::ExternalReferenceNotAdmitted) <==> has_external(f.normalized_references),
{
    let base = expr_restrictions(Seq::empty(), f.root);
    lemma_expr_walk(Seq::empty(), f.root);
    if has_external(f.normalized_references) {
        if !base.contains(CarrierRestrictionCode::ExternalReferenceNotAdmitted) {
            assert(restrictions_spec(f).last() == CarrierRestrictionCode::ExternalReferenceNotAdmitted);
        }
    } else {
        assert forall|i: int| 0 <= i < base.len() implies base[i] != CarrierRestrictionCode::ExternalReferenceNotAdmitted by {}
    }
}

} // verus!
