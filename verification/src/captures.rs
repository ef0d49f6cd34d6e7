//! The free references of a bound expression: the reference atoms it reads
//! that no enclosing `LAMBDA` parameter or `LET` name shadows, each once, in
//! the order they are first met. A host builds invalidation edges for a
//! callable from them.

use vstd::prelude::*;

use crate::binding::binder_spec::norm_models;
use crate::binding::profile::ProfileReferenceRecord;
use crate::binding::reference::{
    copy_strings, opt_view, CellRef, NameKind, NormalizedReference, NormalizedReferenceModel, ReferenceExpr, ReferenceExprModel,
    StructuredRef, StructuredResolvedRef, StructuredSectionKind,
};
use crate::binding::{expr_models, row_models, BinaryOp, BoundExpr, BoundExprModel, UnaryOp};
use crate::eval::helper_name_key;
use crate::text::{chars_eq_ignore_case, chars_of, eq_ignore_case, string_views, upper_seq};

verus! {

fn opt_string_eq(a: &Option<String>, b: &Option<String>) -> (r: bool)
    ensures
        r == (opt_view(*a) == opt_view(*b)),
{
    match (a, b) {
        (Some(x), Some(y)) => *x == *y,
        (None, None) => true,
        _ => false,
    }
}

fn strings_eq(a: &Vec<String>, b: &Vec<String>) -> (r: bool)
    ensures
        r == (string_views(a@) == string_views(b@)),
{
    if a.len() != b.len() {
        assert(string_views(a@).len() != string_views(b@).len());
        return false;
    }
    let mut i: usize = 0;
    while i < a.len()
        invariant
            i <= a@.len(),
            a@.len() == b@.len(),
            forall|k: int| 0 <= k < i ==> (#[trigger] a@[k])@ == b@[k]@,
        decreases a.len() - i,
    {
        if a[i] != b[i] {
            assert(string_views(a@)[i as int] != string_views(b@)[i as int]);
            return false;
        }
        i = i + 1;
    }
    assert(string_views(a@) =~= string_views(b@));
    true
}

fn sections_eq(a: &Vec<StructuredSectionKind>, b: &Vec<StructuredSectionKind>) -> (r: bool)
    ensures
        r == (a@ == b@),
{
    if a.len() != b.len() {
        return false;
    }
    let mut i: usize = 0;
    while i < a.len()
        invariant
            i <= a@.len(),
            a@.len() == b@.len(),
            forall|k: int| 0 <= k < i ==> a@[k] == b@[k],
        decreases a.len() - i,
    {
        if a[i] != b[i] {
            return false;
        }
        i = i + 1;
    }
    assert(a@ =~= b@);
    true
}

fn cell_eq(a: &CellRef, b: &CellRef) -> (r: bool)
    ensures
        r == (a.model() == b.model()),
{
    a.workbook_id == b.workbook_id && a.sheet_id == b.sheet_id && a.coord == b.coord && a.address_mode == b.address_mode
        && a.caller_anchor_used == b.caller_anchor_used
}

fn resolved_eq(a: &StructuredResolvedRef, b: &StructuredResolvedRef) -> (r: bool)
    ensures
        r == (a.model() == b.model()),
{
    match (a, b) {
        (StructuredResolvedRef::Cell(x), StructuredResolvedRef::Cell(y)) => cell_eq(x, y),
        (StructuredResolvedRef::Area(x), StructuredResolvedRef::Area(y)) => {
            x.workbook_id == y.workbook_id && x.sheet_id == y.sheet_id && x.top_left == y.top_left && x.height == y.height
                && x.width == y.width && x.address_mode == y.address_mode && x.caller_anchor_used == y.caller_anchor_used
        },
        (StructuredResolvedRef::EmptyArea(x), StructuredResolvedRef::EmptyArea(y)) => {
            x.workbook_id == y.workbook_id && x.sheet_id == y.sheet_id && x.section_kind == y.section_kind
                && strings_eq(&x.selected_column_ids, &y.selected_column_ids) && x.column_count == y.column_count
                && opt_string_eq(&x.row_membership_identity, &y.row_membership_identity)
                && opt_string_eq(&x.row_order_identity, &y.row_order_identity)
        },
        _ => false,
    }
}

fn structured_eq(a: &StructuredRef, b: &StructuredRef) -> (r: bool)
    ensures
        r == (a.model() == b.model()),
{
    a.table_id == b.table_id && a.table_name == b.table_name && a.selector_kind == b.selector_kind
        && sections_eq(&a.section_qualifiers, &b.section_qualifiers)
        && strings_eq(&a.selected_column_ids, &b.selected_column_ids) && a.caller_row_sensitive == b.caller_row_sensitive
        && a.workbook_scope_ref == b.workbook_scope_ref && a.sheet_scope_ref == b.sheet_scope_ref
        && resolved_eq(&a.resolved_reference, &b.resolved_reference)
}

fn profile_record_eq(a: &ProfileReferenceRecord, b: &ProfileReferenceRecord) -> (r: bool)
    ensures
        r == (a.model() == b.model()),
{
    a.profile_id == b.profile_id && a.profile_version.0 == b.profile_version.0
        && a.source_info.source_channel == b.source_info.source_channel
        && a.source_info.source_span == b.source_info.source_span
        && a.source_info.source_text == b.source_info.source_text
        && opt_string_eq(&a.source_info.parsed_qualifier, &b.source_info.parsed_qualifier)
        && opt_string_eq(&a.source_info.address_fidelity, &b.source_info.address_fidelity)
        && a.profile_payload.payload_kind == b.profile_payload.payload_kind
        && a.profile_payload.encoding == b.profile_payload.encoding
        && a.profile_payload.data == b.profile_payload.data
        && a.normal_form_key.0 == b.normal_form_key.0
        && opt_string_eq(&a.render_hint, &b.render_hint) && a.validity == b.validity
}

/// Whether two normalized references are the same reference, field by field.
pub fn same_normalized_reference(a: &NormalizedReference, b: &NormalizedReference) -> (r: bool)
    ensures
        r == (a.model() == b.model()),
{
    match (a, b) {
        (NormalizedReference::Cell(x), NormalizedReference::Cell(y)) => cell_eq(x, y),
        (NormalizedReference::Area(x), NormalizedReference::Area(y)) => {
            x.workbook_id == y.workbook_id && x.sheet_id == y.sheet_id && x.top_left == y.top_left && x.height == y.height
                && x.width == y.width && x.address_mode == y.address_mode && x.caller_anchor_used == y.caller_anchor_used
        },
        (NormalizedReference::WholeRow(x), NormalizedReference::WholeRow(y)) => {
            x.workbook_id == y.workbook_id && x.sheet_id == y.sheet_id && x.row_start == y.row_start
                && x.row_count == y.row_count && x.address_mode == y.address_mode
        },
        (NormalizedReference::WholeColumn(x), NormalizedReference::WholeColumn(y)) => {
            x.workbook_id == y.workbook_id && x.sheet_id == y.sheet_id && x.col_start == y.col_start
                && x.col_count == y.col_count && x.address_mode == y.address_mode
        },
        (NormalizedReference::Name(x), NormalizedReference::Name(y)) => {
            x.name == y.name && x.workbook_id == y.workbook_id && x.sheet_id == y.sheet_id && x.kind == y.kind
                && x.caller_context_dependent == y.caller_context_dependent
        },
        (NormalizedReference::External(x), NormalizedReference::External(y)) => {
            x.external_target_id == y.external_target_id && x.sheet_selector_summary == y.sheet_selector_summary
                && x.capability_requirement == y.capability_requirement
                && x.external_reference_class == y.external_reference_class && x.target_summary == y.target_summary
        },
        (NormalizedReference::Structured(x), NormalizedReference::Structured(y)) => structured_eq(x, y),
        (NormalizedReference::ProfileSymbolic(x), NormalizedReference::ProfileSymbolic(y)) => profile_record_eq(x, y),
        (NormalizedReference::Error(x), NormalizedReference::Error(y)) => {
            x.error_class == y.error_class && x.source_text == y.source_text
        },
        _ => false,
    }
}


/// `out` with `a` added, unless `a` is there already.
pub open spec fn add_unique(out: Seq<NormalizedReferenceModel>, a: NormalizedReferenceModel) -> Seq<NormalizedReferenceModel> {
    if out.contains(a) {
        out
    } else {
        out.push(a)
    }
}

/// A helper-local name that a bound parameter (by its upper-case key) shadows.
pub open spec fn shadowed(a: NormalizedReferenceModel, bound: Seq<Seq<char>>) -> bool {
    a matches NormalizedReferenceModel::Name(n) && n.kind == NameKind::HelperLocal && bound.contains(upper_seq(n.name))
}

/// The free atoms of a reference expression, added to `out` left to right.
pub open spec fn free_atoms(r: ReferenceExprModel, bound: Seq<Seq<char>>, out: Seq<NormalizedReferenceModel>) -> Seq<NormalizedReferenceModel>
    decreases r,
{
    match r {
        ReferenceExprModel::Atom(a) => if shadowed(a, bound) {
            out
        } else {
            add_unique(out, a)
        },
        ReferenceExprModel::Spill { anchor } => free_atoms(*anchor, bound, out),
        ReferenceExprModel::Range { start, end } => free_atoms(*end, bound, free_atoms(*start, bound, out)),
        ReferenceExprModel::Union { left, right } => free_atoms(*right, bound, free_atoms(*left, bound, out)),
        ReferenceExprModel::Intersection { left, right } => free_atoms(*right, bound, free_atoms(*left, bound, out)),
    }
}

/// The keys of the parameters named in a `LAMBDA` head.
pub open spec fn lambda_keys(head: Seq<BoundExprModel>) -> Seq<Seq<char>>
    decreases head.len(),
{
    if head.len() == 0 {
        Seq::empty()
    } else {
        let k = lambda_keys(head.drop_last());
        match head.last() {
            BoundExprModel::HelperParameterName(n) => k.push(upper_seq(n)),
            BoundExprModel::HelperOptionalParameterName(n) => k.push(upper_seq(n)),
            _ => k,
        }
    }
}

/// The free references of a bound expression, added to `out` in the order
/// they are met: a `LAMBDA` body sees its parameters bound; a `LET` binds
/// each name for the values and the body after it.
pub open spec fn free_refs(e: BoundExprModel, bound: Seq<Seq<char>>, out: Seq<NormalizedReferenceModel>) -> Seq<NormalizedReferenceModel>
    decreases e, 0int,
{
    match e {
        BoundExprModel::ArrayLiteral(rows) => free_rows(rows, bound, out, 0),
        BoundExprModel::Binary { left, right, .. } => free_refs(*right, bound, free_refs(*left, bound, out)),
        BoundExprModel::Unary { expr, .. } => free_refs(*expr, bound, out),
        BoundExprModel::ImplicitIntersection(inner) => free_refs(*inner, bound, out),
        BoundExprModel::FunctionCall { function_name, args } => if eq_ignore_case(function_name, "LAMBDA"@) && args.len() > 0 {
            free_last(args, bound + lambda_keys(args.drop_last()), out)
        } else if eq_ignore_case(function_name, "LET"@) && args.len() >= 3 {
            free_let(args, bound, out, 0)
        } else {
            free_list(args, bound, out, 0)
        },
        BoundExprModel::Invocation { callee, args } => free_list(args, bound, free_refs(*callee, bound, out), 0),
        BoundExprModel::Reference(r) => free_atoms(r, bound, out),
        _ => out,
    }
}

/// The free references of the last argument.
pub open spec fn free_last(args: Seq<BoundExprModel>, bound: Seq<Seq<char>>, out: Seq<NormalizedReferenceModel>) -> Seq<NormalizedReferenceModel>
    decreases args, 0int,
{
    if args.len() > 0 {
        free_refs(args[args.len() - 1], bound, out)
    } else {
        out
    }
}

/// The free references of `args[i..]`, one argument after another.
pub open spec fn free_list(args: Seq<BoundExprModel>, bound: Seq<Seq<char>>, out: Seq<NormalizedReferenceModel>, i: int) -> Seq<NormalizedReferenceModel>
    decreases args, args.len() - i,
{
    if 0 <= i < args.len() {
        free_list(args, bound, free_refs(args[i], bound, out), i + 1)
    } else {
        out
    }
}

/// The free references of the rows `rows[i..]`.
pub open spec fn free_rows(rows: Seq<Seq<BoundExprModel>>, bound: Seq<Seq<char>>, out: Seq<NormalizedReferenceModel>, i: int) -> Seq<NormalizedReferenceModel>
    decreases rows, rows.len() - i,
{
    if 0 <= i < rows.len() {
        free_rows(rows, bound, free_list(rows[i], bound, out, 0), i + 1)
    } else {
        out
    }
}

/// The free references of a `LET` from the name at `i` on: each value is
/// read before its name is bound; the body is read with all names bound.
pub open spec fn free_let(args: Seq<BoundExprModel>, bound: Seq<Seq<char>>, out: Seq<NormalizedReferenceModel>, i: int) -> Seq<NormalizedReferenceModel>
    decreases args, args.len() - i,
{
    if 0 <= i && i + 1 < args.len() - 1 {
        let out2 = free_refs(args[i + 1], bound, out);
        let bound2 = match args[i] {
            BoundExprModel::HelperParameterName(n) => bound.push(upper_seq(n)),
            _ => bound,
        };
        free_let(args, bound2, out2, i + 2)
    } else if args.len() > 0 {
        free_refs(args[args.len() - 1], bound, out)
    } else {
        out
    }
}

/// The free references of an expression, as a set.
pub open spec fn free_set(e: BoundExprModel, bound: Seq<Seq<char>>) -> Set<NormalizedReferenceModel> {
    free_refs(e, bound, Seq::empty()).to_set()
}

/// The free atoms of a reference expression, as a set.
pub open spec fn atom_set(r: ReferenceExprModel, bound: Seq<Seq<char>>) -> Set<NormalizedReferenceModel> {
    free_atoms(r, bound, Seq::empty()).to_set()
}

proof fn lemma_add_unique_set(out: Seq<NormalizedReferenceModel>, a: NormalizedReferenceModel)
    ensures
        add_unique(out, a).to_set() == out.to_set().insert(a),
{
    if out.contains(a) {
        assert(out.to_set() =~= out.to_set().insert(a));
    } else {
        assert forall|x: NormalizedReferenceModel| out.push(a).contains(x) <==> out.to_set().insert(a).contains(x) by {
            if out.contains(x) {
                let k = choose|k: int| 0 <= k < out.len() && out[k] == x;
                assert(out.push(a)[k] == x);
            }
            if out.push(a).contains(x) {
                let k = choose|k: int| 0 <= k < out.push(a).len() && out.push(a)[k] == x;
                if k < out.len() {
                    assert(out[k] == x);
                }
            }
            if x == a {
                assert(out.push(a)[out.len() as int] == a);
            }
        }
        assert(out.push(a).to_set() =~= out.to_set().insert(a));
    }
}

proof fn lemma_atoms_union(r: ReferenceExprModel, bound: Seq<Seq<char>>, out: Seq<NormalizedReferenceModel>)
    ensures
        free_atoms(r, bound, out).to_set() == out.to_set() + atom_set(r, bound),
    decreases r,
{
    let e = Seq::<NormalizedReferenceModel>::empty();
    assert(e.to_set() =~= Set::<NormalizedReferenceModel>::empty());
    match r {
        ReferenceExprModel::Atom(a) => {
            lemma_add_unique_set(out, a);
            lemma_add_unique_set(e, a);
        },
        ReferenceExprModel::Spill { anchor } => {
            lemma_atoms_union(*anchor, bound, out);
        },
        ReferenceExprModel::Range { start: x, end: y } => {
            lemma_atoms_union(*x, bound, out);
            lemma_atoms_union(*y, bound, free_atoms(*x, bound, out));
            lemma_atoms_union(*y, bound, free_atoms(*x, bound, e));
        },
        ReferenceExprModel::Union { left: x, right: y } => {
            lemma_atoms_union(*x, bound, out);
            lemma_atoms_union(*y, bound, free_atoms(*x, bound, out));
            lemma_atoms_union(*y, bound, free_atoms(*x, bound, e));
        },
        ReferenceExprModel::Intersection { left: x, right: y } => {
            lemma_atoms_union(*x, bound, out);
            lemma_atoms_union(*y, bound, free_atoms(*x, bound, out));
            lemma_atoms_union(*y, bound, free_atoms(*x, bound, e));
        },
    }
    assert(free_atoms(r, bound, out).to_set() =~= out.to_set() + atom_set(r, bound));
}

proof fn lemma_refs_union(x: BoundExprModel, bound: Seq<Seq<char>>, out: Seq<NormalizedReferenceModel>)
    ensures
        free_refs(x, bound, out).to_set() == out.to_set() + free_set(x, bound),
    decreases x, 0int,
{
    let e = Seq::<NormalizedReferenceModel>::empty();
    assert(e.to_set() =~= Set::<NormalizedReferenceModel>::empty());
    match x {
        BoundExprModel::ArrayLiteral(rows) => {
            lemma_rows_union(rows, bound, out, 0);
            lemma_rows_union(rows, bound, e, 0);
        },
        BoundExprModel::Binary { left, right, .. } => {
            lemma_refs_union(*left, bound, out);
            lemma_refs_union(*right, bound, free_refs(*left, bound, out));
            lemma_refs_union(*right, bound, free_refs(*left, bound, e));
        },
        BoundExprModel::Unary { expr, .. } => {
            lemma_refs_union(*expr, bound, out);
        },
        BoundExprModel::ImplicitIntersection(inner) => {
            lemma_refs_union(*inner, bound, out);
        },
        BoundExprModel::FunctionCall { function_name, args } => {
            if eq_ignore_case(function_name, "LAMBDA"@) && args.len() > 0 {
                lemma_last_union(args, bound + lambda_keys(args.drop_last()), out);
                lemma_last_union(args, bound + lambda_keys(args.drop_last()), e);
            } else if eq_ignore_case(function_name, "LET"@) && args.len() >= 3 {
                lemma_let_union(args, bound, out, 0);
                lemma_let_union(args, bound, e, 0);
            } else {
                lemma_list_union(args, bound, out, 0);
                lemma_list_union(args, bound, e, 0);
            }
        },
        BoundExprModel::Invocation { callee, args } => {
            lemma_refs_union(*callee, bound, out);
            lemma_list_union(args, bound, free_refs(*callee, bound, out), 0);
            lemma_list_union(args, bound, free_refs(*callee, bound, e), 0);
        },
        BoundExprModel::Reference(r) => {
            lemma_atoms_union(r, bound, out);
        },
        _ => {},
    }
    assert(free_refs(x, bound, out).to_set() =~= out.to_set() + free_set(x, bound));
}

proof fn lemma_last_union(args: Seq<BoundExprModel>, bound: Seq<Seq<char>>, out: Seq<NormalizedReferenceModel>)
    ensures
        free_last(args, bound, out).to_set() == out.to_set() + free_last(args, bound, Seq::empty()).to_set(),
    decreases args, 0int,
{
    let e = Seq::<NormalizedReferenceModel>::empty();
    assert(e.to_set() =~= Set::<NormalizedReferenceModel>::empty());
    if args.len() > 0 {
        lemma_refs_union(args[args.len() - 1], bound, out);
    }
    assert(free_last(args, bound, out).to_set() =~= out.to_set() + free_last(args, bound, e).to_set());
}

proof fn lemma_list_union(args: Seq<BoundExprModel>, bound: Seq<Seq<char>>, out: Seq<NormalizedReferenceModel>, i: int)
    ensures
        free_list(args, bound, out, i).to_set() == out.to_set() + free_list(args, bound, Seq::empty(), i).to_set(),
    decreases args, args.len() - i,
{
    let e = Seq::<NormalizedReferenceModel>::empty();
    assert(e.to_set() =~= Set::<NormalizedReferenceModel>::empty());
    if 0 <= i < args.len() {
        lemma_refs_union(args[i], bound, out);
        lemma_list_union(args, bound, free_refs(args[i], bound, out), i + 1);
        lemma_list_union(args, bound, free_refs(args[i], bound, e), i + 1);
    }
    assert(free_list(args, bound, out, i).to_set() =~= out.to_set() + free_list(args, bound, e, i).to_set());
}

proof fn lemma_rows_union(rows: Seq<Seq<BoundExprModel>>, bound: Seq<Seq<char>>, out: Seq<NormalizedReferenceModel>, i: int)
    ensures
        free_rows(rows, bound, out, i).to_set() == out.to_set() + free_rows(rows, bound, Seq::empty(), i).to_set(),
    decreases rows, rows.len() - i,
{
    let e = Seq::<NormalizedReferenceModel>::empty();
    assert(e.to_set() =~= Set::<NormalizedReferenceModel>::empty());
    if 0 <= i < rows.len() {
        lemma_list_union(rows[i], bound, out, 0);
        lemma_list_union(rows[i], bound, e, 0);
        lemma_rows_union(rows, bound, free_list(rows[i], bound, out, 0), i + 1);
        lemma_rows_union(rows, bound, free_list(rows[i], bound, e, 0), i + 1);
    }
    assert(free_rows(rows, bound, out, i).to_set() =~= out.to_set() + free_rows(rows, bound, e, i).to_set());
}

proof fn lemma_let_union(args: Seq<BoundExprModel>, bound: Seq<Seq<char>>, out: Seq<NormalizedReferenceModel>, i: int)
    ensures
        free_let(args, bound, out, i).to_set() == out.to_set() + free_let(args, bound, Seq::empty(), i).to_set(),
    decreases args, args.len() - i,
{
    let e = Seq::<NormalizedReferenceModel>::empty();
    assert(e.to_set() =~= Set::<NormalizedReferenceModel>::empty());
    if 0 <= i && i + 1 < args.len() - 1 {
        let bound2 = match args[i] {
            BoundExprModel::HelperParameterName(n) => bound.push(upper_seq(n)),
            _ => bound,
        };
        lemma_refs_union(args[i + 1], bound, out);
        lemma_let_union(args, bound2, free_refs(args[i + 1], bound, out), i + 2);
        lemma_let_union(args, bound2, free_refs(args[i + 1], bound, e), i + 2);
    } else if args.len() > 0 {
        lemma_refs_union(args[args.len() - 1], bound, out);
    }
    assert(free_let(args, bound, out, i).to_set() =~= out.to_set() + free_let(args, bound, e, i).to_set());
}

/// Free references compose: the references already collected are kept; an
/// operator's operands keep all their free references (those of a unary or
/// intersected operand are exactly the operand's, those of a binary
/// expression both operands'); an invocation keeps its callee's; and a
/// reference atom is free exactly when no bound helper key shadows it.
pub proof fn lemma_free_references_compose(
    left: BoundExprModel,
    right: BoundExprModel,
    op: BinaryOp,
    unary: UnaryOp,
    args: Seq<BoundExprModel>,
    atom: NormalizedReferenceModel,
    bound: Seq<Seq<char>>,
    out: Seq<NormalizedReferenceModel>,
)
    ensures
        out.to_set().subset_of(free_refs(left, bound, out).to_set()),
        free_refs(left, bound, out).to_set() == out.to_set() + free_set(left, bound),
        free_set(BoundExprModel::Unary { op: unary, expr: Box::new(left) }, bound) == free_set(left, bound),
        free_set(BoundExprModel::ImplicitIntersection(Box::new(left)), bound) == free_set(left, bound),
        free_set(BoundExprModel::Binary { op, left: Box::new(left), right: Box::new(right) }, bound)
            == free_set(left, bound) + free_set(right, bound),
        free_set(left, bound).subset_of(free_set(BoundExprModel::Invocation { callee: Box::new(left), args }, bound)),
        !shadowed(atom, bound) ==> free_set(BoundExprModel::Reference(ReferenceExprModel::Atom(atom)), bound) == set![atom],
        shadowed(atom, bound) ==> free_set(BoundExprModel::Reference(ReferenceExprModel::Atom(atom)), bound).len() == 0,
{
    let e = Seq::<NormalizedReferenceModel>::empty();
    assert(e.to_set() =~= Set::<NormalizedReferenceModel>::empty());
    lemma_refs_union(left, bound, out);
    lemma_refs_union(left, bound, e);
    lemma_refs_union(right, bound, free_refs(left, bound, e));
    assert(free_set(BoundExprModel::Binary { op, left: Box::new(left), right: Box::new(right) }, bound)
        =~= free_set(left, bound) + free_set(right, bound));
    lemma_list_union(args, bound, free_refs(left, bound, e), 0);
    lemma_add_unique_set(e, atom);
    assert(set![atom] =~= e.to_set().insert(atom));
    assert(Set::<NormalizedReferenceModel>::empty().len() == 0);
}

proof fn lemma_list_contains(args: Seq<BoundExprModel>, bound: Seq<Seq<char>>, i: int, j: int)
    requires
        0 <= i <= j < args.len(),
    ensures
        free_set(args[j], bound).subset_of(free_list(args, bound, Seq::empty(), i).to_set()),
    decreases j - i,
{
    let e = Seq::<NormalizedReferenceModel>::empty();
    lemma_list_union(args, bound, free_refs(args[i], bound, e), i + 1);
    lemma_refs_union(args[i], bound, e);
    assert(e.to_set() =~= Set::<NormalizedReferenceModel>::empty());
    if i < j {
        lemma_list_contains(args, bound, i + 1, j);
    }
}

/// The arguments of an invocation, and of a call that is neither `LAMBDA`
/// nor `LET`, keep all their free references.
pub proof fn lemma_free_references_of_arguments(
    callee: BoundExprModel,
    name: Seq<char>,
    args: Seq<BoundExprModel>,
    bound: Seq<Seq<char>>,
)
    requires
        !eq_ignore_case(name, "LAMBDA"@),
        !eq_ignore_case(name, "LET"@),
    ensures
        forall|j: int| 0 <= j < args.len() ==> free_set(#[trigger] args[j], bound).subset_of(
            free_set(BoundExprModel::FunctionCall { function_name: name, args }, bound)),
        forall|j: int| 0 <= j < args.len() ==> free_set(#[trigger] args[j], bound).subset_of(
            free_set(BoundExprModel::Invocation { callee: Box::new(callee), args }, bound)),
{
    let e = Seq::<NormalizedReferenceModel>::empty();
    assert forall|j: int| 0 <= j < args.len() implies free_set(#[trigger] args[j], bound).subset_of(
        free_set(BoundExprModel::FunctionCall { function_name: name, args }, bound)) by {
        lemma_list_contains(args, bound, 0, j);
    }
    assert forall|j: int| 0 <= j < args.len() implies free_set(#[trigger] args[j], bound).subset_of(
        free_set(BoundExprModel::Invocation { callee: Box::new(callee), args }, bound)) by {
        lemma_list_contains(args, bound, 0, j);
        lemma_list_union(args, bound, free_refs(callee, bound, e), 0);
    }
}

fn contains_key(bound: &Vec<String>, key: &String) -> (r: bool)
    ensures
        r == string_views(bound@).contains(key@),
{
    let mut i: usize = 0;
    while i < bound.len()
        invariant
            i <= bound@.len(),
            forall|k: int| 0 <= k < i ==> (#[trigger] bound@[k])@ != key@,
        decreases bound.len() - i,
    {
        if bound[i] == *key {
            assert(string_views(bound@)[i as int] == key@);
            return true;
        }
        i = i + 1;
    }
    assert forall|k: int| 0 <= k < string_views(bound@).len() implies string_views(bound@)[k] != key@ by {
        assert(string_views(bound@)[k] == bound@[k]@);
    }
    false
}

fn contains_reference(out: &Vec<NormalizedReference>, a: &NormalizedReference) -> (r: bool)
    ensures
        r == norm_models(out@).contains(a.model()),
{
    let mut i: usize = 0;
    while i < out.len()
        invariant
            i <= out@.len(),
            forall|k: int| 0 <= k < i ==> (#[trigger] out@[k]).model() != a.model(),
        decreases out.len() - i,
    {
        if same_normalized_reference(&out[i], a) {
            assert(norm_models(out@)[i as int] == a.model());
            return true;
        }
        i = i + 1;
    }
    assert forall|k: int| 0 <= k < norm_models(out@).len() implies norm_models(out@)[k] != a.model() by {
        assert(norm_models(out@)[k] == out@[k].model());
    }
    false
}

fn collect_free_reference_atoms(reference: &ReferenceExpr, bound_names: &Vec<String>, out: &mut Vec<NormalizedReference>)
    ensures
        norm_models(final(out)@) == free_atoms(reference.model(), string_views(bound_names@), norm_models(old(out)@)),
    decreases reference,
{
    match reference {
        ReferenceExpr::Atom(atom) => {
            if let NormalizedReference::Name(name) = atom {
                if name.kind == NameKind::HelperLocal && contains_key(bound_names, &helper_name_key(name.name.as_str())) {
                    return;
                }
            }
            if !contains_reference(out, atom) {
                let ghost before = norm_models(out@);
                out.push(atom.duplicate());
                assert(norm_models(out@) =~= before.push(atom.model()));
            }
        },
        ReferenceExpr::Spill { anchor } => collect_free_reference_atoms(anchor, bound_names, out),
        ReferenceExpr::Range { start, end } => {
            collect_free_reference_atoms(start, bound_names, out);
            collect_free_reference_atoms(end, bound_names, out);
        },
        ReferenceExpr::Union { left, right } => {
            collect_free_reference_atoms(left, bound_names, out);
            collect_free_reference_atoms(right, bound_names, out);
        },
        ReferenceExpr::Intersection { left, right } => {
            collect_free_reference_atoms(left, bound_names, out);
            collect_free_reference_atoms(right, bound_names, out);
        },
    }
}

/// Adds to `out` the references `expr` reads that no parameter in
/// `bound_names` (upper-case helper keys) or in an enclosing `LAMBDA` or
/// `LET` shadows, each reference once, in the order first met.
pub fn collect_free_bound_references(expr: &BoundExpr, bound_names: &Vec<String>, out: &mut Vec<NormalizedReference>)
    ensures
        norm_models(final(out)@) == free_refs(expr.model(), string_views(bound_names@), norm_models(old(out)@)),
    decreases expr,
{
    match expr {
        BoundExpr::ArrayLiteral(rows) => collect_rows(rows, bound_names, out),
        BoundExpr::Binary { left, right, .. } => {
            collect_free_bound_references(left, bound_names, out);
            collect_free_bound_references(right, bound_names, out);
        },
        BoundExpr::Unary { expr, .. } => collect_free_bound_references(expr, bound_names, out),
        BoundExpr::ImplicitIntersection(inner) => collect_free_bound_references(inner, bound_names, out),
        BoundExpr::FunctionCall { function_name, args } => {
            let name = chars_of(function_name.as_str());
            if chars_eq_ignore_case(&name, &chars_of("LAMBDA")) && args.len() > 0 {
                collect_free_bound_references_in_nested_lambda(args, bound_names, out);
            } else if chars_eq_ignore_case(&name, &chars_of("LET")) && args.len() >= 3 {
                collect_free_bound_references_in_let(args, bound_names, out);
            } else {
                collect_list(args, bound_names, out);
            }
        },
        BoundExpr::Invocation { callee, args } => {
            collect_free_bound_references(callee, bound_names, out);
            collect_list(args, bound_names, out);
        },
        BoundExpr::Reference(reference) => collect_free_reference_atoms(reference, bound_names, out),
        _ => {},
    }
}

fn collect_list(args: &Vec<BoundExpr>, bound_names: &Vec<String>, out: &mut Vec<NormalizedReference>)
    ensures
        norm_models(final(out)@) == free_list(expr_models(args@), string_views(bound_names@), norm_models(old(out)@), 0),
    decreases args,
{
    let ghost m = expr_models(args@);
    let ghost b = string_views(bound_names@);
    let ghost target = free_list(m, b, norm_models(out@), 0);
    let mut i: usize = 0;
    while i < args.len()
        invariant
            i <= args@.len(),
            m == expr_models(args@),
            b == string_views(bound_names@),
            free_list(m, b, norm_models(out@), i as int) == target,
        decreases args.len() - i,
    {
        proof {
            assert(decreases_to!(args => args@));
            assert(decreases_to!(args@ => args@[i as int]));
        }
        assert(m[i as int] == args@[i as int].model());
        collect_free_bound_references(&args[i], bound_names, out);
        i = i + 1;
    }
}

fn collect_rows(rows: &Vec<Vec<BoundExpr>>, bound_names: &Vec<String>, out: &mut Vec<NormalizedReference>)
    ensures
        norm_models(final(out)@) == free_rows(row_models(rows@), string_views(bound_names@), norm_models(old(out)@), 0),
    decreases rows,
{
    let ghost m = row_models(rows@);
    let ghost b = string_views(bound_names@);
    let ghost target = free_rows(m, b, norm_models(out@), 0);
    let mut i: usize = 0;
    while i < rows.len()
        invariant
            i <= rows@.len(),
            m == row_models(rows@),
            b == string_views(bound_names@),
            free_rows(m, b, norm_models(out@), i as int) == target,
        decreases rows.len() - i,
    {
        proof {
            assert(decreases_to!(rows => rows@));
            assert(decreases_to!(rows@ => rows@[i as int]));
        }
        assert(m[i as int] == expr_models(rows@[i as int]@));
        collect_list(&rows[i], bound_names, out);
        i = i + 1;
    }
}

/// A `LAMBDA`: its body, with the parameters of its head bound as well.
fn collect_free_bound_references_in_nested_lambda(args: &Vec<BoundExpr>, bound_names: &Vec<String>, out: &mut Vec<NormalizedReference>)
    requires
        args@.len() > 0,
    ensures
        norm_models(final(out)@) == free_last(
            expr_models(args@),
            string_views(bound_names@) + lambda_keys(expr_models(args@).drop_last()),
            norm_models(old(out)@),
        ),
    decreases args,
{
    let ghost m = expr_models(args@);
    let body_index = args.len() - 1;
    let mut nested: Vec<String> = copy_strings(bound_names);
    let mut i: usize = 0;
    assert(m.drop_last().take(0) =~= Seq::<BoundExprModel>::empty());
    assert(string_views(nested@) =~= string_views(bound_names@) + lambda_keys(m.drop_last().take(0)));
    while i < body_index
        invariant
            body_index == args@.len() - 1,
            i <= body_index,
            m == expr_models(args@),
            string_views(nested@) == string_views(bound_names@) + lambda_keys(m.drop_last().take(i as int)),
        decreases body_index - i,
    {
        let ghost before = string_views(nested@);
        assert(m.drop_last().take(i + 1).drop_last() =~= m.drop_last().take(i as int));
        assert(m.drop_last().take(i + 1).last() == args@[i as int].model());
        match &args[i] {
            BoundExpr::HelperParameterName(name) => {
                nested.push(helper_name_key(name.as_str()));
                assert(string_views(nested@) =~= before.push(upper_seq(name@)));
            },
            BoundExpr::HelperOptionalParameterName(name) => {
                nested.push(helper_name_key(name.as_str()));
                assert(string_views(nested@) =~= before.push(upper_seq(name@)));
            },
            _ => {},
        }
        i = i + 1;
        assert(string_views(nested@) =~= string_views(bound_names@) + lambda_keys(m.drop_last().take(i as int)));
    }
    assert(m.drop_last().take(body_index as int) =~= m.drop_last());
    proof {
        assert(decreases_to!(args => args@));
        assert(decreases_to!(args@ => args@[body_index as int]));
    }
    assert(m[body_index as int] == args@[body_index as int].model());
    collect_free_bound_references(&args[body_index], &nested, out);
}

/// A `LET`: each value read before its name is bound, then the body.
fn collect_free_bound_references_in_let(args: &Vec<BoundExpr>, bound_names: &Vec<String>, out: &mut Vec<NormalizedReference>)
    requires
        args@.len() >= 3,
    ensures
        norm_models(final(out)@) == free_let(expr_models(args@), string_views(bound_names@), norm_models(old(out)@), 0),
    decreases args,
{
    let ghost m = expr_models(args@);
    let ghost target = free_let(m, string_views(bound_names@), norm_models(out@), 0);
    let last_index = args.len() - 1;
    let mut local: Vec<String> = copy_strings(bound_names);
    let mut index: usize = 0;
    while index + 1 < last_index
        invariant
            last_index == args@.len() - 1,
            last_index < usize::MAX,
            index <= last_index,
            m == expr_models(args@),
            free_let(m, string_views(local@), norm_models(out@), index as int) == target,
        decreases last_index - index,
    {
        proof {
            assert(decreases_to!(args => args@));
            assert(decreases_to!(args@ => args@[index + 1]));
        }
        assert(m[index + 1] == args@[index + 1].model());
        assert(m[index as int] == args@[index as int].model());
        collect_free_bound_references(&args[index + 1], &local, out);
        if let BoundExpr::HelperParameterName(name) = &args[index] {
            let ghost before = string_views(local@);
            local.push(helper_name_key(name.as_str()));
            assert(string_views(local@) =~= before.push(upper_seq(name@)));
        }
        index = index + 2;
    }
    proof {
        assert(decreases_to!(args => args@));
        assert(decreases_to!(args@ => args@[last_index as int]));
    }
    assert(m[last_index as int] == args@[last_index as int].model());
    collect_free_bound_references(&args[last_index], &local, out);
}

} // verus!
