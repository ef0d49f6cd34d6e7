//! What binding a green tree yields, stated over plain values: the bound
//! expression and the records the binder accumulates on the way.

use vstd::prelude::*;

use crate::binding::parse::{
    area_between, cell_reference_spec, column_reference_spec, max_u32, min_u32, qualifier_spec, row_reference_spec,
    span_count, default_mode, QualifierModel,
};
use crate::binding::reference::{
    ErrorRefModel, ExternalRefModel, NameKind, NameRefModel, NormalizedReferenceModel, ReferenceExprModel,
    WholeColumnRefModel, WholeRowRefModel, render_reference, CellRefModel,
};
use crate::binding::structured::{build_structured_spec, first_where, structured_table_spec, structured_text_spec};
use crate::binding::{
    BindContext, BindDiagnostic, BinaryOp, BoundExprModel, BuiltinFunctionMeta, DefinedName, DependencySeed, UnaryOp,
    UnresolvedReferenceRecord,
};
use crate::binding::reference::NormalizedReference;
use crate::source::{FormulaChannelKind, TextSpan};
use crate::syntax::{
    first_node_index, first_token_text_spec, has_token_text, lemma_child_smaller, node_count_from, second_node_index,
    GreenChild, GreenNode, SyntaxKind, TokenKind,
};
use crate::text::{decimal, eq_ignore_case, is_alnum, is_alpha, upper_seq};

verus! {

/// What the binder reads: the context, the grammar channel and the built-in catalog.
pub struct BindEnv {
    pub ctx: BindContext,
    pub channel: FormulaChannelKind,
    pub builtins: Seq<BuiltinFunctionMeta>,
}

#[verifier::ext_equal]
pub struct DiagModel {
    pub message: Seq<char>,
    pub span: TextSpan,
}

/// What the binder has accumulated: diagnostics, normalized references with
/// their dependency summaries, unresolved references, capability needs, and
/// the helper names (LET and LAMBDA parameters) in scope.
#[verifier::ext_equal]
pub struct BinderModel {
    pub diagnostics: Seq<DiagModel>,
    pub normalized: Seq<NormalizedReferenceModel>,
    pub seeds: Seq<Seq<char>>,
    pub unresolved: Seq<(Seq<char>, Seq<char>)>,
    pub capabilities: Seq<Seq<char>>,
    pub helpers: Seq<Seq<char>>,
}

/// Models of the diagnostics.
pub open spec fn diag_models(s: Seq<BindDiagnostic>) -> Seq<DiagModel> {
    s.map_values(|d: BindDiagnostic| DiagModel { message: d.message@, span: d.span })
}

/// Models of the normalized references.
pub open spec fn norm_models(s: Seq<NormalizedReference>) -> Seq<NormalizedReferenceModel> {
    s.map_values(|r: NormalizedReference| r.model())
}

/// Texts of the dependency seeds.
pub open spec fn seed_texts(s: Seq<DependencySeed>) -> Seq<Seq<char>> {
    s.map_values(|d: DependencySeed| d.summary@)
}

/// Source texts and reasons of the unresolved references.
pub open spec fn unresolved_models(s: Seq<UnresolvedReferenceRecord>) -> Seq<(Seq<char>, Seq<char>)> {
    s.map_values(|u: UnresolvedReferenceRecord| (u.source_text@, u.reason@))
}

/// The state before anything is bound.
pub open spec fn empty_state() -> BinderModel {
    BinderModel {
        diagnostics: Seq::empty(),
        normalized: Seq::empty(),
        seeds: Seq::empty(),
        unresolved: Seq::empty(),
        capabilities: Seq::empty(),
        helpers: Seq::empty(),
    }
}

/// Each dependency summary is the rendering of the normalized reference at
/// the same position.
pub open spec fn seeds_summarize(normalized: Seq<NormalizedReferenceModel>, seeds: Seq<Seq<char>>) -> bool {
    &&& seeds.len() == normalized.len()
    &&& forall|i: int| 0 <= i < seeds.len() ==> #[trigger] seeds[i] == render_reference(normalized[i])
}

pub open spec fn seeds_ok(st: BinderModel) -> bool {
    seeds_summarize(st.normalized, st.seeds)
}

pub open spec fn with_diag(st: BinderModel, message: Seq<char>, span: TextSpan) -> BinderModel {
    BinderModel { diagnostics: st.diagnostics.push(DiagModel { message, span }), ..st }
}

/// Records a normalized reference and its dependency summary.
pub open spec fn with_seed(st: BinderModel, r: NormalizedReferenceModel) -> BinderModel {
    BinderModel { normalized: st.normalized.push(r), seeds: st.seeds.push(render_reference(r)), ..st }
}

/// Forgets the most recent reference and summary, if any.
pub open spec fn pop_seed(st: BinderModel) -> BinderModel {
    BinderModel {
        normalized: if st.normalized.len() > 0 { st.normalized.drop_last() } else { st.normalized },
        seeds: if st.seeds.len() > 0 { st.seeds.drop_last() } else { st.seeds },
        ..st
    }
}

pub open spec fn with_unresolved(st: BinderModel, text: Seq<char>, reason: Seq<char>) -> BinderModel {
    BinderModel { unresolved: st.unresolved.push((text, reason)), ..st }
}

pub open spec fn with_capability(st: BinderModel, c: Seq<char>) -> BinderModel {
    BinderModel { capabilities: st.capabilities.push(c), ..st }
}

pub open spec fn with_helper(st: BinderModel, name: Seq<char>) -> BinderModel {
    BinderModel { helpers: st.helpers.push(name), ..st }
}

/// Drops the `n` most recently scoped helper names.
pub open spec fn pop_helpers(st: BinderModel, n: nat) -> BinderModel {
    BinderModel {
        helpers: if n <= st.helpers.len() { st.helpers.subrange(0, st.helpers.len() - n) } else { Seq::empty() },
        ..st
    }
}

pub open spec fn atom(r: NormalizedReferenceModel) -> BoundExprModel {
    BoundExprModel::Reference(ReferenceExprModel::Atom(r))
}

pub open spec fn error_ref(class: Seq<char>, source: Seq<char>) -> NormalizedReferenceModel {
    NormalizedReferenceModel::Error(ErrorRefModel { error_class: class, source_text: source })
}

pub open spec fn name_ref(env: BindEnv, name: Seq<char>, kind: NameKind) -> NormalizedReferenceModel {
    NormalizedReferenceModel::Name(NameRefModel {
        name,
        workbook_id: env.ctx.workbook_id@,
        sheet_id: env.ctx.sheet_id@,
        kind,
        caller_context_dependent: false,
    })
}

/// Whether `text` matches a helper name in scope, without case.
pub open spec fn is_helper_name(st: BinderModel, text: Seq<char>) -> bool {
    exists|i: int| 0 <= i < st.helpers.len() && eq_ignore_case(#[trigger] st.helpers[i], text)
}

/// Whether `text` matches a defined name of the context, without case.
pub open spec fn is_context_name(ctx: BindContext, text: Seq<char>) -> bool {
    exists|i: int| 0 <= i < ctx.names@.len() && eq_ignore_case((#[trigger] ctx.names@[i]).name@, text)
}

pub open spec fn defined_name_pred(text: Seq<char>) -> spec_fn(DefinedName) -> bool {
    |d: DefinedName| d.name@ == text
}

/// The kind of the defined name spelled exactly `text`.
pub open spec fn name_kind_of(ctx: BindContext, text: Seq<char>) -> Option<NameKind> {
    match first_where(ctx.names@, defined_name_pred(text)) {
        Some(i) => Some(ctx.names@[i].kind),
        None => None,
    }
}

/// The worksheet error literals, compared without case.
pub open spec fn is_error_literal(text: Seq<char>) -> bool {
    let u = upper_seq(text);
    u == "#NULL!"@ || u == "#DIV/0!"@ || u == "#VALUE!"@ || u == "#REF!"@ || u == "#NAME?"@ || u == "#NUM!"@
        || u == "#N/A"@ || u == "#BUSY!"@ || u == "#GETTING_DATA"@ || u == "#SPILL!"@ || u == "#CALC!"@
        || u == "#FIELD!"@ || u == "#BLOCKED!"@ || u == "#CONNECT!"@
}

/// Binding `text` as a structured reference on `sheet`: `None` when it is
/// not one; a failure records the reason as unresolved and as a diagnostic
/// and yields a `#REF!` error reference.
pub open spec fn structured_step(env: BindEnv, st: BinderModel, text: Seq<char>, sheet: Seq<char>, span: TextSpan) -> Option<(BinderModel, NormalizedReferenceModel)> {
    match structured_text_spec(text) {
        None => None,
        Some(p) => match structured_table_spec(p.table_name, sheet, env.ctx) {
            Err(m) => Some((with_diag(with_unresolved(st, text, m), m, span), error_ref("#REF!"@, text))),
            Ok(t) => match build_structured_spec(p, env.ctx.table_catalog@[t], env.ctx, env.channel) {
                Err(m) => Some((with_diag(with_unresolved(st, text, m), m, span), error_ref("#REF!"@, text))),
                Ok(s) => Some((st, NormalizedReferenceModel::Structured(s))),
            },
        },
    }
}

pub open spec fn cell_step(env: BindEnv, text: Seq<char>, sheet: Seq<char>) -> Option<CellRefModel> {
    cell_reference_spec(text, sheet, env.ctx.workbook_id@, env.ctx.caller_row, env.ctx.caller_col, env.channel)
}

/// An unknown identifier: recorded as unresolved, diagnosed, bound to `#NAME?`.
pub open spec fn unresolved_identifier(st: BinderModel, text: Seq<char>, span: TextSpan) -> (BinderModel, BoundExprModel) {
    (with_diag(with_unresolved(st, text, "unknown identifier or name"@), "unresolved identifier '"@ + text + "'"@, span),
        atom(error_ref("#NAME?"@, text)))
}

/// An identifier: a logical literal, an error literal, a structured
/// reference, a helper name in scope, a cell, a defined name, or unresolved.
pub open spec fn bind_identifier_spec(env: BindEnv, st: BinderModel, text: Seq<char>, span: TextSpan) -> (BinderModel, BoundExprModel) {
    if eq_ignore_case(text, "TRUE"@) {
        (st, BoundExprModel::LogicalLiteral(true))
    } else if eq_ignore_case(text, "FALSE"@) {
        (st, BoundExprModel::LogicalLiteral(false))
    } else if is_error_literal(text) {
        (st, atom(error_ref(text, text)))
    } else {
        match structured_step(env, st, text, env.ctx.sheet_id@, span) {
            Some((st2, r)) => (with_seed(st2, r), atom(r)),
            None => if is_helper_name(st, text) {
                let r = name_ref(env, text, NameKind::HelperLocal);
                (with_seed(st, r), atom(r))
            } else {
                match cell_step(env, text, env.ctx.sheet_id@) {
                    Some(c) => {
                        let r = NormalizedReferenceModel::Cell(c);
                        (with_seed(st, r), atom(r))
                    },
                    None => match name_kind_of(env.ctx, text) {
                        Some(k) => {
                            let r = name_ref(env, text, k);
                            (with_seed(st, r), atom(r))
                        },
                        None => unresolved_identifier(st, text, span),
                    },
                }
            },
        }
    }
}

/// The callee of a call that binds as an invocation: a helper name, a
/// structured reference, a cell, a defined name, or unresolved.
pub open spec fn bind_name_callee_spec(env: BindEnv, st: BinderModel, text: Seq<char>) -> (BinderModel, BoundExprModel) {
    let span = TextSpan { start: 0, len: 0 };
    if is_helper_name(st, text) {
        let r = name_ref(env, text, NameKind::HelperLocal);
        (with_seed(st, r), atom(r))
    } else {
        match structured_step(env, st, text, env.ctx.sheet_id@, span) {
            Some((st2, r)) => (with_seed(st2, r), atom(r)),
            None => match cell_step(env, text, env.ctx.sheet_id@) {
                Some(c) => {
                    let r = NormalizedReferenceModel::Cell(c);
                    (with_seed(st, r), atom(r))
                },
                None => match name_kind_of(env.ctx, text) {
                    Some(k) => {
                        let r = name_ref(env, text, k);
                        (with_seed(st, r), atom(r))
                    },
                    None => unresolved_identifier(st, text, span),
                },
            },
        }
    }
}

/// Text of the first identifier, quoted-identifier or bracketed-qualifier token from `from` on.
pub open spec fn qualifier_token_from(children: Seq<GreenChild>, from: int) -> Option<Seq<char>>
    decreases children.len() - from,
{
    if from < 0 || from >= children.len() {
        None
    } else if children[from] is Token && (children[from]->Token_0.kind == TokenKind::Identifier
        || children[from]->Token_0.kind == TokenKind::QuotedIdentifier
        || children[from]->Token_0.kind == TokenKind::BracketedQualifier) {
        Some(children[from]->Token_0.text@)
    } else {
        qualifier_token_from(children, from + 1)
    }
}

pub open spec fn unwrap_text(o: Option<Seq<char>>) -> Seq<char> {
    match o {
        Some(t) => t,
        None => Seq::empty(),
    }
}

pub open spec fn is_identifier_kind(k: SyntaxKind) -> bool {
    k == SyntaxKind::IdentifierExpr || k == SyntaxKind::QuotedIdentifierExpr
}

/// The node child at position `k`.
pub open spec fn child_node(node: GreenNode, k: int) -> GreenNode {
    *node.children@[k]->Node_0
}

/// A qualified reference `qualifier!target`: external workbook references,
/// then structured, cell and sheet-scoped name references on the qualifier's sheet.
pub open spec fn bind_qualified_spec(env: BindEnv, st: BinderModel, node: GreenNode) -> (BinderModel, BoundExprModel) {
    let q = qualifier_spec(unwrap_text(qualifier_token_from(node.children@, 0)));
    let target = child_node(node, first_node_index(node)->0);
    if is_identifier_kind(target.kind) {
        let text = unwrap_text(first_token_text_spec(target));
        if q.is_external {
            let r = NormalizedReferenceModel::External(ExternalRefModel {
                external_target_id: match q.external_target_id {
                    Some(e) => e,
                    None => q.raw,
                },
                sheet_selector_summary: q.sheet_id,
                capability_requirement: "external_reference"@,
                external_reference_class: "workbook_sheet_qualified"@,
                target_summary: q.raw + "!"@ + text,
            });
            (with_seed(with_capability(st, "external_reference"@), r), atom(r))
        } else {
            match structured_step(env, st, text, q.sheet_id, node.span) {
                Some((st2, r)) => (with_seed(st2, r), atom(r)),
                None => match cell_step(env, text, q.sheet_id) {
                    Some(c) => {
                        let r = NormalizedReferenceModel::Cell(c);
                        (with_seed(st, r), atom(r))
                    },
                    None => {
                        let r = NormalizedReferenceModel::Name(NameRefModel {
                            name: q.sheet_id + "!"@ + text,
                            workbook_id: env.ctx.workbook_id@,
                            sheet_id: q.sheet_id,
                            kind: NameKind::ReferenceLike,
                            caller_context_dependent: false,
                        });
                        (with_seed(st, r), atom(r))
                    },
                }
            }
        }
    } else {
        (with_diag(st, "qualified reference target did not bind as identifier"@, node.span), atom(error_ref("#REF!"@, q.raw)))
    }
}

/// A range endpoint that is a bare or qualified name, number or identifier:
/// its qualifier and target text.
pub open spec fn simple_fragment_spec(env: BindEnv, node: GreenNode) -> Option<(QualifierModel, Seq<char>)> {
    if is_identifier_kind(node.kind) || node.kind == SyntaxKind::NumberLiteralExpr {
        match first_token_text_spec(node) {
            Some(t) => Some((QualifierModel {
                raw: env.ctx.sheet_id@,
                sheet_id: env.ctx.sheet_id@,
                external_target_id: None,
                is_external: false,
                explicit: false,
            }, t)),
            None => None,
        }
    } else if node.kind == SyntaxKind::QualifiedReferenceExpr {
        match first_token_text_spec(node) {
            None => None,
            Some(qt) => match first_node_index(node) {
                None => None,
                Some(k) => {
                    let target = child_node(node, k);
                    if is_identifier_kind(target.kind) || target.kind == SyntaxKind::NumberLiteralExpr {
                        match first_token_text_spec(target) {
                            Some(t) => Some((qualifier_spec(qt), t)),
                            None => None,
                        }
                    } else {
                        None
                    }
                },
            },
        }
    } else {
        None
    }
}

/// Both range endpoints as fragments, with an implicit qualifier taking
/// the explicit qualifier of the other side.
pub open spec fn harmonize_spec(env: BindEnv, left: GreenNode, right: GreenNode) -> Option<((QualifierModel, Seq<char>), (QualifierModel, Seq<char>))> {
    match (simple_fragment_spec(env, left), simple_fragment_spec(env, right)) {
        (Some(l), Some(r)) => {
            if l.0.is_external || r.0.is_external {
                if l.0.raw == r.0.raw { Some((l, r)) } else { None }
            } else if l.0.raw == r.0.raw {
                Some((l, r))
            } else if l.0.explicit && !r.0.explicit {
                Some((l, (l.0, r.1)))
            } else if !l.0.explicit && r.0.explicit {
                Some(((r.0, l.1), r))
            } else {
                None
            }
        },
        _ => None,
    }
}

/// A range between two simple endpoints: whole rows, whole columns, or an
/// area between two cells of one sheet.
pub open spec fn simple_range_spec(env: BindEnv, left: GreenNode, right: GreenNode) -> Option<NormalizedReferenceModel> {
    match harmonize_spec(env, left, right) {
        None => None,
        Some((l, r)) => {
            match (row_reference_spec(l.1, env.channel), row_reference_spec(r.1, env.channel)) {
                (Some(a), Some(b)) => Some(NormalizedReferenceModel::WholeRow(WholeRowRefModel {
                    workbook_id: env.ctx.workbook_id@,
                    sheet_id: l.0.sheet_id,
                    row_start: min_u32(a, b),
                    row_count: span_count(min_u32(a, b), max_u32(a, b)),
                    address_mode: default_mode(),
                })),
                _ => match (column_reference_spec(l.1, env.channel), column_reference_spec(r.1, env.channel)) {
                    (Some(a), Some(b)) => Some(NormalizedReferenceModel::WholeColumn(WholeColumnRefModel {
                        workbook_id: env.ctx.workbook_id@,
                        sheet_id: l.0.sheet_id,
                        col_start: min_u32(a, b),
                        col_count: span_count(min_u32(a, b), max_u32(a, b)),
                        address_mode: default_mode(),
                    })),
                    _ => match (cell_step(env, l.1, l.0.sheet_id), cell_step(env, r.1, r.0.sheet_id)) {
                        (Some(s), Some(e)) => if s.workbook_id == e.workbook_id && s.sheet_id == e.sheet_id {
                            Some(NormalizedReferenceModel::Area(area_between(s.workbook_id, s.sheet_id, s.coord, e.coord,
                                s.caller_anchor_used || e.caller_anchor_used)))
                        } else {
                            None
                        },
                        _ => None,
                    },
                }
            }
        },
    }
}

/// A sheet id that reads as itself when written as a qualifier is no
/// external workbook qualifier.
proof fn lemma_self_qualifier_not_external(s: Seq<char>)
    requires
        qualifier_spec(s).sheet_id == s,
    ensures
        !qualifier_spec(s).is_external,
{
    reveal_strlit("sheet:external");
    let rest = s.drop_first();
    if s.len() > 0 && s[0] == '[' && crate::text::first_index_of(rest, ']') is Some {
        let k = crate::text::first_index_of(rest, ']')->0;
        crate::text::lemma_first_index_of(rest, ']');
        let sheet = rest.skip(k + 1);
        if sheet.len() == 0 {
            assert("sheet:external"@[0] != s[0]);
        } else {
            assert(sheet.len() < s.len());
        }
    }
}

/// Harmonizing the endpoints the other way round gives the same endpoints
/// swapped, and both endpoints end up on one sheet.
proof fn lemma_harmonize_swap(env: BindEnv, left: GreenNode, right: GreenNode)
    requires
        qualifier_spec(env.ctx.sheet_id@).sheet_id == env.ctx.sheet_id@,
    ensures
        match harmonize_spec(env, left, right) {
            Some((l, r)) => harmonize_spec(env, right, left) == Some((r, l)) && l.0.sheet_id == r.0.sheet_id,
            None => harmonize_spec(env, right, left) is None,
        },
{
    lemma_self_qualifier_not_external(env.ctx.sheet_id@);
}

/// The text of a simple range endpoint, qualifier aside.
pub open spec fn endpoint_text(env: BindEnv, node: GreenNode) -> Seq<char> {
    (simple_fragment_spec(env, node)->0).1
}

/// The area between two endpoint cells, on the first one's sheet.
pub open spec fn cell_box(s: CellRefModel, e: CellRefModel) -> crate::binding::reference::AreaRefModel {
    area_between(s.workbook_id, s.sheet_id, s.coord, e.coord, s.caller_anchor_used || e.caller_anchor_used)
}

/// The law of `Binder::try_bind_simple_reference_range`, whose result is
/// `simple_range_spec`: a simple range reads the same with its endpoints
/// swapped, and it spans from the lesser endpoint to the greater. Whole
/// rows and whole columns start at the lesser of the two endpoints and
/// count to the greater, that count included; an area's top left corner
/// takes the lesser row and the lesser column of its two cells, and its
/// height and width count to the greater ones.
/// The context's sheet id must read as itself when written as a qualifier
/// (it is not wrapped in quotes and names no external workbook), since an
/// explicit qualifier equal to it stands for the same sheet.
pub proof fn lemma_simple_range_symmetric(env: BindEnv, left: GreenNode, right: GreenNode)
    requires
        qualifier_spec(env.ctx.sheet_id@).sheet_id == env.ctx.sheet_id@,
    ensures
        simple_range_spec(env, left, right) == simple_range_spec(env, right, left),
        simple_range_spec(env, left, right) matches Some(NormalizedReferenceModel::WholeRow(w)) ==> {
            &&& row_reference_spec(endpoint_text(env, left), env.channel) matches Some(a)
            &&& row_reference_spec(endpoint_text(env, right), env.channel) matches Some(b)
            &&& w.row_start == min_u32(a, b)
            &&& w.row_count == span_count(min_u32(a, b), max_u32(a, b))
        },
        simple_range_spec(env, left, right) matches Some(NormalizedReferenceModel::WholeColumn(w)) ==> {
            &&& column_reference_spec(endpoint_text(env, left), env.channel) matches Some(a)
            &&& column_reference_spec(endpoint_text(env, right), env.channel) matches Some(b)
            &&& w.col_start == min_u32(a, b)
            &&& w.col_count == span_count(min_u32(a, b), max_u32(a, b))
        },
        simple_range_spec(env, left, right) matches Some(NormalizedReferenceModel::Area(x)) ==> {
            &&& cell_step(env, endpoint_text(env, left), x.sheet_id) matches Some(s)
            &&& cell_step(env, endpoint_text(env, right), x.sheet_id) matches Some(e)
            &&& x == cell_box(s, e)
            &&& x.top_left.row == min_u32(s.coord.row, e.coord.row)
            &&& x.top_left.col == min_u32(s.coord.col, e.coord.col)
            &&& x.height == span_count(min_u32(s.coord.row, e.coord.row), max_u32(s.coord.row, e.coord.row))
            &&& x.width == span_count(min_u32(s.coord.col, e.coord.col), max_u32(s.coord.col, e.coord.col))
        },
{
    lemma_harmonize_swap(env, left, right);
    match harmonize_spec(env, left, right) {
        None => {},
        Some((l, r)) => {
            match (row_reference_spec(l.1, env.channel), row_reference_spec(r.1, env.channel)) {
                (Some(a), Some(b)) => {},
                _ => match (column_reference_spec(l.1, env.channel), column_reference_spec(r.1, env.channel)) {
                    (Some(a), Some(b)) => {},
                    _ => match (cell_step(env, l.1, l.0.sheet_id), cell_step(env, r.1, r.0.sheet_id)) {
                        (Some(s), Some(e)) => {
                            if s.workbook_id == e.workbook_id && s.sheet_id == e.sheet_id {
                                assert(simple_range_spec(env, left, right) == Some(NormalizedReferenceModel::Area(cell_box(s, e))));
                                let x = cell_box(s, e);
                                assert(x.top_left.row == min_u32(s.coord.row, e.coord.row));
                                assert(x.height == span_count(min_u32(s.coord.row, e.coord.row), max_u32(s.coord.row, e.coord.row)));
                            }
                        },
                        _ => {},
                    },
                },
            }
        },
    }
}

/// Whether an expression can stand as the reference argument of a
/// caller-context locator function.
pub open spec fn ref_expr_is_reference_like(r: ReferenceExprModel) -> bool
    decreases r,
{
    match r {
        ReferenceExprModel::Atom(a) => match a {
            NormalizedReferenceModel::Name(n) => n.kind == NameKind::ReferenceLike || n.kind == NameKind::MixedOrDeferred,
            NormalizedReferenceModel::Error(_) => false,
            NormalizedReferenceModel::ProfileSymbolic(_) => false,
            _ => true,
        },
        ReferenceExprModel::Spill { anchor } => ref_expr_is_reference_like(*anchor),
        _ => true,
    }
}

pub open spec fn is_reference_like(e: BoundExprModel) -> bool
    decreases e,
{
    match e {
        BoundExprModel::Reference(r) => ref_expr_is_reference_like(r),
        BoundExprModel::ImplicitIntersection(inner) => is_reference_like(*inner),
        _ => false,
    }
}

/// Whether an expression holds a call of `LAMBDA` anywhere inside.
pub open spec fn contains_lambda_call(e: BoundExprModel) -> bool
    decreases e, 0int,
{
    match e {
        BoundExprModel::FunctionCall { function_name, args } => function_name == "LAMBDA"@ || any_lambda_call(args, 0),
        BoundExprModel::Invocation { callee, args } => contains_lambda_call(*callee) || any_lambda_call(args, 0),
        BoundExprModel::ImplicitIntersection(inner) => contains_lambda_call(*inner),
        BoundExprModel::Unary { expr, .. } => contains_lambda_call(*expr),
        BoundExprModel::Binary { left, right, .. } => contains_lambda_call(*left) || contains_lambda_call(*right),
        BoundExprModel::ArrayLiteral(rows) => any_row_lambda_call(rows, 0),
        _ => false,
    }
}

pub open spec fn any_lambda_call(s: Seq<BoundExprModel>, i: int) -> bool
    decreases s, s.len() - i,
{
    if i < 0 || i >= s.len() {
        false
    } else {
        contains_lambda_call(s[i]) || any_lambda_call(s, i + 1)
    }
}

pub open spec fn any_row_lambda_call(rows: Seq<Seq<BoundExprModel>>, i: int) -> bool
    decreases rows, rows.len() - i,
{
    if i < 0 || i >= rows.len() {
        false
    } else {
        any_lambda_call(rows[i], 0) || any_row_lambda_call(rows, i + 1)
    }
}

/// The message rejecting a call of a built-in with a wrong number of
/// arguments.
pub open spec fn arity_diagnostic_spec(name: Seq<char>, min: nat, max: nat, actual: nat) -> Seq<char> {
    "built-in function call '"@ + name + "' rejects "@ + decimal(actual) + " arguments at the authoring boundary (expected "@
        + decimal(min) + "..="@ + decimal(max) + ")"@
}

/// A caller-context locator built-in (no or one argument, references
/// visible to its adapter) called with one argument that is no reference.
pub open spec fn locator_reject_spec(meta: BuiltinFunctionMeta, args: Seq<BoundExprModel>) -> bool {
    meta.caller_context_dependency && meta.refs_visible_in_adapter && meta.min_arity == 0 && meta.max_arity == 1
        && args.len() == 1 && !is_reference_like(args[0])
}

/// The message rejecting a non-reference argument to a locator built-in.
pub open spec fn locator_diagnostic_spec(name: Seq<char>) -> Seq<char> {
    "built-in function call '"@ + name
        + "' rejects non-reference arguments at the authoring boundary for caller-context locator functions"@
}

/// The authoring diagnostic for a call of a built-in: a wrong number of
/// arguments, or a non-reference argument to a caller-context locator.
pub open spec fn call_diagnostic_spec(name: Seq<char>, meta: BuiltinFunctionMeta, args: Seq<BoundExprModel>) -> Option<Seq<char>> {
    let n = args.len();
    if !(meta.min_arity <= n && n <= meta.max_arity) {
        Some(arity_diagnostic_spec(name, meta.min_arity as nat, meta.max_arity as nat, n))
    } else if locator_reject_spec(meta, args) {
        Some(locator_diagnostic_spec(name))
    } else {
        None
    }
}

pub open spec fn builtin_pred(name: Seq<char>) -> spec_fn(BuiltinFunctionMeta) -> bool {
    |m: BuiltinFunctionMeta| m.surface_name@ == name
}

/// The catalog entry spelled exactly `name`.
pub open spec fn builtin_lookup(env: BindEnv, name: Seq<char>) -> Option<BuiltinFunctionMeta> {
    match first_where(env.builtins, builtin_pred(name)) {
        Some(i) => Some(env.builtins[i]),
        None => None,
    }
}

/// `[name]` as an optional LAMBDA parameter: a letter, `_` or `$`, then
/// letters, digits, `_`, `.` or `$`.
pub open spec fn optional_parameter_spec(text: Seq<char>) -> Option<Seq<char>> {
    if text.len() >= 2 && text[0] == '[' && text.last() == ']' {
        let inner = text.subrange(1, text.len() - 1);
        if inner.len() > 0 && (is_alpha(inner[0]) || inner[0] == '_' || inner[0] == '$')
            && forall|i: int| 1 <= i < inner.len() ==> (is_alnum(#[trigger] inner[i]) || inner[i] == '_' || inner[i] == '.' || inner[i] == '$') {
            Some(inner)
        } else {
            None
        }
    } else {
        None
    }
}

/// Index of the first child node that is an argument list, from `from` on.
pub open spec fn arglist_index_from(children: Seq<GreenChild>, from: int) -> Option<int>
    decreases children.len() - from,
{
    if from < 0 || from >= children.len() {
        None
    } else if children[from] is Node && children[from]->Node_0.kind == SyntaxKind::ArgumentList {
        Some(from)
    } else {
        arglist_index_from(children, from + 1)
    }
}

/// The operator a binary expression's token spells.
pub open spec fn binary_op_spec(node: GreenNode) -> BinaryOp {
    if has_token_text(node, "+"@) {
        BinaryOp::Add
    } else if has_token_text(node, "-"@) {
        BinaryOp::Subtract
    } else if has_token_text(node, "^"@) {
        BinaryOp::Power
    } else if has_token_text(node, "*"@) {
        BinaryOp::Multiply
    } else if has_token_text(node, "&"@) {
        BinaryOp::Concat
    } else if has_token_text(node, "<>"@) {
        BinaryOp::NotEqual
    } else if has_token_text(node, "<="@) {
        BinaryOp::LessEqual
    } else if has_token_text(node, ">="@) {
        BinaryOp::GreaterEqual
    } else if has_token_text(node, "<"@) {
        BinaryOp::LessThan
    } else if has_token_text(node, ">"@) {
        BinaryOp::GreaterThan
    } else if has_token_text(node, "="@) {
        BinaryOp::Equal
    } else {
        BinaryOp::Divide
    }
}

/// The operator tokens a binary expression can carry.
pub open spec fn operator_texts() -> Seq<Seq<char>> {
    seq!["+"@, "-"@, "^"@, "*"@, "/"@, "&"@, "="@, "<>"@, "<"@, "<="@, ">"@, ">="@]
}

/// The node carries the operator token `t` and no other operator token.
pub open spec fn only_operator(node: GreenNode, t: Seq<char>) -> bool {
    &&& has_token_text(node, t)
    &&& forall|i: int| 0 <= i < operator_texts().len() && operator_texts()[i] != t
        ==> !has_token_text(node, #[trigger] operator_texts()[i])
}

/// The operator of a bound binary expression.
pub open spec fn bound_operator(e: BoundExprModel) -> Option<BinaryOp> {
    match e {
        BoundExprModel::Binary { op, .. } => Some(op),
        _ => None,
    }
}

/// Each operator token binds to its own operator: a binary expression
/// whose only operator token is `+` adds, `-` subtracts, `*` multiplies,
/// `/` divides, `^` raises to a power, `&` concatenates, and `=`, `<>`,
/// `<`, `<=`, `>`, `>=` compare as they read; its operands are bound in
/// order, left then right.
pub proof fn lemma_binary_operator_tokens(env: BindEnv, st: BinderModel, node: GreenNode)
    ensures
        only_operator(node, "+"@) ==> bound_operator(bind_binary_spec(env, st, node).1) == Some(BinaryOp::Add),
        only_operator(node, "-"@) ==> bound_operator(bind_binary_spec(env, st, node).1) == Some(BinaryOp::Subtract),
        only_operator(node, "^"@) ==> bound_operator(bind_binary_spec(env, st, node).1) == Some(BinaryOp::Power),
        only_operator(node, "*"@) ==> bound_operator(bind_binary_spec(env, st, node).1) == Some(BinaryOp::Multiply),
        only_operator(node, "/"@) ==> bound_operator(bind_binary_spec(env, st, node).1) == Some(BinaryOp::Divide),
        only_operator(node, "&"@) ==> bound_operator(bind_binary_spec(env, st, node).1) == Some(BinaryOp::Concat),
        only_operator(node, "="@) ==> bound_operator(bind_binary_spec(env, st, node).1) == Some(BinaryOp::Equal),
        only_operator(node, "<>"@) ==> bound_operator(bind_binary_spec(env, st, node).1) == Some(BinaryOp::NotEqual),
        only_operator(node, "<"@) ==> bound_operator(bind_binary_spec(env, st, node).1) == Some(BinaryOp::LessThan),
        only_operator(node, "<="@) ==> bound_operator(bind_binary_spec(env, st, node).1) == Some(BinaryOp::LessEqual),
        only_operator(node, ">"@) ==> bound_operator(bind_binary_spec(env, st, node).1) == Some(BinaryOp::GreaterThan),
        only_operator(node, ">="@) ==> bound_operator(bind_binary_spec(env, st, node).1) == Some(BinaryOp::GreaterEqual),
{
    reveal_strlit("+");
    reveal_strlit("-");
    reveal_strlit("^");
    reveal_strlit("*");
    reveal_strlit("/");
    reveal_strlit("&");
    reveal_strlit("=");
    reveal_strlit("<>");
    reveal_strlit("<");
    reveal_strlit("<=");
    reveal_strlit(">");
    reveal_strlit(">=");
    let ops = operator_texts();
    assert(ops[0] == "+"@ && ops[1] == "-"@ && ops[2] == "^"@ && ops[3] == "*"@ && ops[4] == "/"@ && ops[5] == "&"@);
    assert(ops[6] == "="@ && ops[7] == "<>"@ && ops[8] == "<"@ && ops[9] == "<="@ && ops[10] == ">"@ && ops[11] == ">="@);
    assert forall|i: int, j: int| 0 <= i < 12 && 0 <= j < 12 && i != j implies #[trigger] ops[i] != #[trigger] ops[j] by {
        assert(ops[i].len() != ops[j].len() || ops[i][0] != ops[j][0] || ops[i][ops[i].len() - 1] != ops[j][ops[j].len() - 1]);
    }
}

/// Binding of one expression node.
pub open spec fn bind_expr_spec(env: BindEnv, st: BinderModel, node: GreenNode) -> (BinderModel, BoundExprModel)
    decreases node, 3int, 0int,
{
    match node.kind {
        SyntaxKind::FormulaRoot | SyntaxKind::GroupingExpr => match first_node_index(node) {
            Some(k) => if 0 <= k < node.children@.len() && node.children@[k] is Node {
                proof { lemma_child_smaller(node, k); }
                bind_expr_spec(env, st, child_node(node, k))
            } else {
                (st, BoundExprModel::OmittedArgument)
            },
            None => (st, BoundExprModel::OmittedArgument),
        },
        SyntaxKind::NumberLiteralExpr => (st, BoundExprModel::NumberLiteral(unwrap_text(first_token_text_spec(node)))),
        SyntaxKind::StringLiteralExpr => (st, BoundExprModel::StringLiteral(unwrap_text(first_token_text_spec(node)))),
        SyntaxKind::ArrayLiteralExpr => {
            let (st2, rows, saw) = fold_array_spec(env, st, node, 0, seq![Seq::empty()], false);
            (if saw { with_diag(st2, "LAMBDA cannot appear inside array constants"@, node.span) } else { st2 },
                BoundExprModel::ArrayLiteral(rows))
        },
        SyntaxKind::OmittedArgExpr => (st, BoundExprModel::OmittedArgument),
        SyntaxKind::IdentifierExpr | SyntaxKind::QuotedIdentifierExpr =>
            bind_identifier_spec(env, st, unwrap_text(first_token_text_spec(node)), node.span),
        SyntaxKind::QualifiedReferenceExpr => bind_qualified_spec(env, st, node),
        SyntaxKind::RangeExpr => bind_range_spec(env, st, node),
        SyntaxKind::UnionExpr | SyntaxKind::IntersectionExpr => bind_pair_spec(env, st, node),
        SyntaxKind::PrefixExpr | SyntaxKind::PostfixExpr => bind_affix_spec(env, st, node),
        SyntaxKind::BinaryExpr => bind_binary_spec(env, st, node),
        SyntaxKind::CallExpr => bind_call_spec(env, st, node),
        SyntaxKind::InvokeExpr => bind_invoke_spec(env, st, node),
        SyntaxKind::MissingExpr => (with_diag(st, "missing expression cannot be bound"@, node.span), atom(error_ref("#PARSE!"@, Seq::empty()))),
        SyntaxKind::ArgumentList => (with_diag(st, "argument list is not a standalone expression"@, node.span), atom(error_ref("#ARG!"@, Seq::empty()))),
    }
}

/// Binds the node child at position `k`, if it is one.
pub open spec fn bind_child_spec(env: BindEnv, st: BinderModel, node: GreenNode, k: int) -> (BinderModel, BoundExprModel)
    decreases node, 1int, 0int,
{
    if 0 <= k < node.children@.len() && node.children@[k] is Node {
        proof { lemma_child_smaller(node, k); }
        bind_expr_spec(env, st, child_node(node, k))
    } else {
        (st, BoundExprModel::OmittedArgument)
    }
}

/// Prefix `@`, `-`, `+` and postfix `#`, `%`.
pub open spec fn bind_affix_spec(env: BindEnv, st: BinderModel, node: GreenNode) -> (BinderModel, BoundExprModel)
    decreases node, 2int, 0int,
{
    let (st2, bound) = bind_child_spec(env, st, node, first_node_index(node)->0);
    if node.kind == SyntaxKind::PrefixExpr {
        if has_token_text(node, "@"@) {
            (st2, BoundExprModel::ImplicitIntersection(Box::new(bound)))
        } else if has_token_text(node, "-"@) {
            (st2, BoundExprModel::Unary { op: UnaryOp::Negate, expr: Box::new(bound) })
        } else if has_token_text(node, "+"@) {
            (st2, BoundExprModel::Unary { op: UnaryOp::Plus, expr: Box::new(bound) })
        } else {
            (with_diag(st2, "unsupported prefix operator"@, node.span), bound)
        }
    } else if has_token_text(node, "#"@) {
        match bound {
            BoundExprModel::Reference(r) => (st2, BoundExprModel::Reference(ReferenceExprModel::Spill { anchor: Box::new(r) })),
            other => (with_diag(st2, "spill suffix applied to non-reference expression"@, node.span), other),
        }
    } else if has_token_text(node, "%"@) {
        (st2, BoundExprModel::Unary { op: UnaryOp::Percent, expr: Box::new(bound) })
    } else {
        (with_diag(st2, "unsupported postfix operator"@, node.span), bound)
    }
}

pub open spec fn bind_binary_spec(env: BindEnv, st: BinderModel, node: GreenNode) -> (BinderModel, BoundExprModel)
    decreases node, 2int, 0int,
{
    let (st2, left) = bind_child_spec(env, st, node, first_node_index(node)->0);
    let (st3, right) = bind_child_spec(env, st2, node, second_node_index(node)->0);
    (st3, BoundExprModel::Binary { op: binary_op_spec(node), left: Box::new(left), right: Box::new(right) })
}

/// A range: simple endpoints bind directly; two cells of one sheet become
/// an area; other references a range expression; anything else `#REF!`.
pub open spec fn bind_range_spec(env: BindEnv, st: BinderModel, node: GreenNode) -> (BinderModel, BoundExprModel)
    decreases node, 2int, 0int,
{
    let lk = first_node_index(node)->0;
    let rk = second_node_index(node)->0;
    match simple_range_spec(env, child_node(node, lk), child_node(node, rk)) {
        Some(r) => (with_seed(st, r), atom(r)),
        None => {
            let (st2, left) = bind_child_spec(env, st, node, lk);
            let (st3, right) = bind_child_spec(env, st2, node, rk);
            match (left, right) {
                (BoundExprModel::Reference(ReferenceExprModel::Atom(NormalizedReferenceModel::Cell(s))),
                 BoundExprModel::Reference(ReferenceExprModel::Atom(NormalizedReferenceModel::Cell(e)))) =>
                    if s.workbook_id == e.workbook_id && s.sheet_id == e.sheet_id {
                        let area = NormalizedReferenceModel::Area(area_between(s.workbook_id, s.sheet_id, s.coord, e.coord,
                            s.caller_anchor_used || e.caller_anchor_used));
                        (with_seed(pop_seed(pop_seed(st3)), area), atom(area))
                    } else {
                        (st3, BoundExprModel::Reference(ReferenceExprModel::Range {
                            start: Box::new(ReferenceExprModel::Atom(NormalizedReferenceModel::Cell(s))),
                            end: Box::new(ReferenceExprModel::Atom(NormalizedReferenceModel::Cell(e))),
                        }))
                    },
                (BoundExprModel::Reference(s), BoundExprModel::Reference(e)) =>
                    (st3, BoundExprModel::Reference(ReferenceExprModel::Range { start: Box::new(s), end: Box::new(e) })),
                _ => (with_diag(st3, "range operands did not both bind as references"@, node.span), atom(error_ref("#REF!"@, "range"@))),
            }
        },
    }
}

/// Union and intersection: both operands must bind as references.
pub open spec fn bind_pair_spec(env: BindEnv, st: BinderModel, node: GreenNode) -> (BinderModel, BoundExprModel)
    decreases node, 2int, 0int,
{
    let label = if node.kind == SyntaxKind::UnionExpr { "union"@ } else { "intersection"@ };
    let (st2, left) = bind_child_spec(env, st, node, first_node_index(node)->0);
    let (st3, right) = bind_child_spec(env, st2, node, second_node_index(node)->0);
    let st4 = if left is Reference { st3 } else { with_diag(st3, label + " left operand did not bind as reference"@, node.span) };
    let st5 = if right is Reference { st4 } else { with_diag(st4, label + " right operand did not bind as reference"@, node.span) };
    match (left, right) {
        (BoundExprModel::Reference(l), BoundExprModel::Reference(r)) => (st5, BoundExprModel::Reference(
            if node.kind == SyntaxKind::UnionExpr {
                ReferenceExprModel::Union { left: Box::new(l), right: Box::new(r) }
            } else {
                ReferenceExprModel::Intersection { left: Box::new(l), right: Box::new(r) }
            })),
        _ => (st5, atom(if node.kind == SyntaxKind::UnionExpr { error_ref("#REF!"@, "union"@) } else { error_ref("#NULL!"@, "intersection"@) })),
    }
}

/// An invocation `callee(args)`: the callee, then each node of the argument list.
pub open spec fn bind_invoke_spec(env: BindEnv, st: BinderModel, node: GreenNode) -> (BinderModel, BoundExprModel)
    decreases node, 2int, 0int,
{
    let (st2, callee) = bind_child_spec(env, st, node, first_node_index(node)->0);
    let ak = second_node_index(node)->0;
    if 0 <= ak < node.children@.len() && node.children@[ak] is Node {
        proof { lemma_child_smaller(node, ak); }
        let (st3, args) = fold_args_spec(env, st2, child_node(node, ak), 0, Seq::empty());
        (st3, BoundExprModel::Invocation { callee: Box::new(callee), args })
    } else {
        (st2, BoundExprModel::Invocation { callee: Box::new(callee), args: Seq::empty() })
    }
}

/// Binds every node child of `parent` from `i` on, in order.
pub open spec fn fold_args_spec(env: BindEnv, st: BinderModel, parent: GreenNode, i: int, acc: Seq<BoundExprModel>) -> (BinderModel, Seq<BoundExprModel>)
    decreases parent, 1int, parent.children@.len() - i,
{
    if i < 0 || i >= parent.children@.len() {
        (st, acc)
    } else if parent.children@[i] is Node {
        proof { lemma_child_smaller(parent, i); }
        let (st2, e) = bind_expr_spec(env, st, child_node(parent, i));
        fold_args_spec(env, st2, parent, i + 1, acc.push(e))
    } else {
        fold_args_spec(env, st, parent, i + 1, acc)
    }
}

/// Array constants: node children fill the current row, `;` starts a new one.
pub open spec fn fold_array_spec(env: BindEnv, st: BinderModel, parent: GreenNode, i: int, rows: Seq<Seq<BoundExprModel>>, saw: bool) -> (BinderModel, Seq<Seq<BoundExprModel>>, bool)
    decreases parent, 1int, parent.children@.len() - i,
{
    if i < 0 || i >= parent.children@.len() {
        (st, rows, saw)
    } else if parent.children@[i] is Node {
        proof { lemma_child_smaller(parent, i); }
        let (st2, e) = bind_expr_spec(env, st, child_node(parent, i));
        let new_rows = if rows.len() > 0 { rows.update(rows.len() - 1, rows.last().push(e)) } else { rows };
        fold_array_spec(env, st2, parent, i + 1, new_rows, saw || contains_lambda_call(e))
    } else if parent.children@[i]->Token_0.kind == TokenKind::Semicolon {
        fold_array_spec(env, st, parent, i + 1, rows.push(Seq::empty()), saw)
    } else {
        fold_array_spec(env, st, parent, i + 1, rows, saw)
    }
}

/// A helper parameter name: an identifier's text.
pub open spec fn helper_name_spec(node: GreenNode) -> Option<Seq<char>> {
    if node.kind == SyntaxKind::IdentifierExpr { first_token_text_spec(node) } else { None }
}

/// `LET(name1, value1, ..., body)`: names at even positions before the last
/// come into scope for what follows; duplicates are diagnosed.
pub open spec fn fold_let_spec(
    env: BindEnv,
    st: BinderModel,
    parent: GreenNode,
    i: int,
    pos: nat,
    last: nat,
    seen: Seq<Seq<char>>,
    pushed: nat,
    acc: Seq<BoundExprModel>,
) -> (BinderModel, Seq<BoundExprModel>)
    decreases parent, 1int, parent.children@.len() - i,
{
    if i < 0 || i >= parent.children@.len() {
        (pop_helpers(st, pushed), acc)
    } else if parent.children@[i] is Node {
        proof { lemma_child_smaller(parent, i); }
        let arg = child_node(parent, i);
        if pos < last && pos % 2 == 0 {
            match helper_name_spec(arg) {
                Some(name) => {
                    let norm = upper_seq(name);
                    if !seen.contains(norm) {
                        fold_let_spec(env, with_helper(st, name), parent, i + 1, pos + 1, last, seen.push(norm), pushed + 1,
                            acc.push(BoundExprModel::HelperParameterName(name)))
                    } else {
                        fold_let_spec(env, with_diag(st, "duplicate LET binding name '"@ + name + "'"@, arg.span), parent, i + 1,
                            pos + 1, last, seen, pushed, acc.push(BoundExprModel::HelperParameterName(name)))
                    }
                },
                None => {
                    let (st2, e) = bind_expr_spec(env, with_diag(st, "LET binding name did not bind as helper parameter"@, arg.span), arg);
                    fold_let_spec(env, st2, parent, i + 1, pos + 1, last, seen, pushed, acc.push(e))
                },
            }
        } else {
            let (st2, e) = bind_expr_spec(env, st, arg);
            fold_let_spec(env, st2, parent, i + 1, pos + 1, last, seen, pushed, acc.push(e))
        }
    } else {
        fold_let_spec(env, st, parent, i + 1, pos, last, seen, pushed, acc)
    }
}

/// A LAMBDA parameter: an identifier, optional when written `[name]`.
pub open spec fn lambda_param_spec(node: GreenNode) -> Option<(Seq<char>, bool)> {
    if node.kind != SyntaxKind::IdentifierExpr {
        None
    } else {
        match first_token_text_spec(node) {
            None => None,
            Some(text) => match optional_parameter_spec(text) {
                Some(inner) => Some((inner, true)),
                None => Some((text, false)),
            },
        }
    }
}

/// `LAMBDA(p1, ..., body)`: parameters before the last argument come into
/// scope for the body; duplicates and required-after-optional are diagnosed.
pub open spec fn fold_lambda_spec(
    env: BindEnv,
    st: BinderModel,
    parent: GreenNode,
    i: int,
    pos: nat,
    body: nat,
    seen: Seq<Seq<char>>,
    pushed: nat,
    saw_optional: bool,
    acc: Seq<BoundExprModel>,
) -> (BinderModel, Seq<BoundExprModel>)
    decreases parent, 1int, parent.children@.len() - i,
{
    if i < 0 || i >= parent.children@.len() {
        (pop_helpers(st, pushed), acc)
    } else if parent.children@[i] is Node {
        proof { lemma_child_smaller(parent, i); }
        let arg = child_node(parent, i);
        if pos < body {
            match lambda_param_spec(arg) {
                Some((name, optional)) => {
                    let norm = upper_seq(name);
                    let e = if optional { BoundExprModel::HelperOptionalParameterName(name) } else { BoundExprModel::HelperParameterName(name) };
                    if !seen.contains(norm) {
                        let st2 = if !optional && saw_optional {
                            with_diag(st, "required LAMBDA parameter '"@ + name + "' cannot follow optional parameter"@, arg.span)
                        } else {
                            st
                        };
                        fold_lambda_spec(env, with_helper(st2, name), parent, i + 1, pos + 1, body, seen.push(norm), pushed + 1,
                            saw_optional || optional, acc.push(e))
                    } else {
                        fold_lambda_spec(env, with_diag(st, "duplicate LAMBDA parameter name '"@ + name + "'"@, arg.span), parent,
                            i + 1, pos + 1, body, seen, pushed, saw_optional, acc.push(e))
                    }
                },
                None => {
                    let (st2, e) = bind_expr_spec(env, with_diag(st, "LAMBDA parameter did not bind as helper parameter"@, arg.span), arg);
                    fold_lambda_spec(env, st2, parent, i + 1, pos + 1, body, seen, pushed, saw_optional, acc.push(e))
                },
            }
        } else {
            let (st2, e) = bind_expr_spec(env, st, arg);
            fold_lambda_spec(env, st2, parent, i + 1, pos + 1, body, seen, pushed, saw_optional, acc.push(e))
        }
    } else {
        fold_lambda_spec(env, st, parent, i + 1, pos, body, seen, pushed, saw_optional, acc)
    }
}

/// The arguments of a call: LET and LAMBDA scope their helper names.
pub open spec fn bind_call_args_spec(env: BindEnv, st: BinderModel, node: GreenNode, upper: Seq<char>) -> (BinderModel, Seq<BoundExprModel>)
    decreases node, 1int, 0int,
{
    match arglist_index_from(node.children@, 0) {
        None => (st, Seq::empty()),
        Some(k) => if 0 <= k < node.children@.len() && node.children@[k] is Node {
            proof { lemma_child_smaller(node, k); }
            let al = child_node(node, k);
            let n = node_count_from(al.children@, 0);
            let last: nat = if n == 0 { 0 } else { (n - 1) as nat };
            if upper == "LET"@ {
                fold_let_spec(env, st, al, 0, 0, last, Seq::empty(), 0, Seq::empty())
            } else if upper == "LAMBDA"@ {
                fold_lambda_spec(env, st, al, 0, 0, last, Seq::empty(), 0, false, Seq::empty())
            } else {
                fold_args_spec(env, st, al, 0, Seq::empty())
            }
        } else {
            (st, Seq::empty())
        },
    }
}

/// A call `NAME(args)`: a built-in call (upper-cased, with its authoring
/// diagnostic) unless the name is a defined name or a helper that is not
/// a built-in, in which case it is an invocation of that name.
pub open spec fn bind_call_spec(env: BindEnv, st: BinderModel, node: GreenNode) -> (BinderModel, BoundExprModel)
    decreases node, 2int, 0int,
{
    let fname = unwrap_text(first_token_text_spec(node));
    let upper = upper_seq(fname);
    let (st1, args) = bind_call_args_spec(env, st, node, upper);
    let meta = builtin_lookup(env, upper);
    let invocation = (is_helper_name(st1, fname) && meta is None) || is_context_name(env.ctx, fname);
    let st2 = if !invocation && meta is Some && call_diagnostic_spec(upper, meta->0, args) is Some {
        with_diag(st1, call_diagnostic_spec(upper, meta->0, args)->0, node.span)
    } else {
        st1
    };
    if invocation {
        let (st3, callee) = bind_name_callee_spec(env, st2, fname);
        (st3, BoundExprModel::Invocation { callee: Box::new(callee), args })
    } else {
        (st2, BoundExprModel::FunctionCall { function_name: upper, args })
    }
}

} // verus!
