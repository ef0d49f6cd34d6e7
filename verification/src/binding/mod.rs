//! Binding: turning a green syntax tree into a bound formula whose
//! references are normalized against a workbook, a sheet and a caller cell.

pub(crate) mod binder;
pub mod binder_spec;
pub mod fingerprint;
pub mod parse;
pub mod profile;
pub mod reference;
pub mod structured;

use vstd::prelude::*;

pub use reference::{
    AddressMode, AreaRef, CellCoord, CellRef, ErrorRef, ExternalRef, NameKind, NameRef,
    NormalizedReference, ReferenceExpr, StructuredRef, StructuredResolvedRef,
    StructuredSectionKind, StructuredSelectorKind, WholeColumnRef, WholeRowRef,
};
pub use profile::{ProfilePayload, ProfileReferenceRecord, ReferenceBindProfile};

use crate::interface::{TableCallerRegion, TableDescriptor, TableRef};
use crate::source::{FormulaSourceRecord, FormulaToken, StructureContextVersion, TextSpan};
use crate::syntax::GreenTreeRoot;
use reference::{NormalizedReferenceModel, ReferenceExprModel};
use crate::text::{chars_of, string_of, string_views};
use crate::syntax::{first_node_index, first_node_position, tree_wf, GreenChild, GreenNode, SyntaxKind};
use binder::Binder;
use binder_spec::{
    child_node, bind_expr_spec, diag_models, empty_state, norm_models, seed_texts, seeds_summarize, unresolved_models,
    BindEnv, DiagModel,
};
use fingerprint::{context_fingerprint, context_fingerprint_of, expression_hash, expression_hash_of};
use reference::copy_strings;
use crate::consumer::runtime::versions::{lex_lt, lemma_lex_irreflexive};
use crate::binding::structured::lemma_first_where_at;
use crate::binding::binder_spec::{name_kind_of, defined_name_pred};

verus! {

/// A defined name visible to the formula and the kind of value it denotes.
#[derive(Debug, Clone, PartialEq, Eq, Hash)]
pub struct DefinedName {
    pub name: String,
    pub kind: NameKind,
}

#[derive(Debug, Clone, PartialEq, Eq, Hash)]
pub struct BindContext {
    pub workbook_id: String,
    pub sheet_id: String,
    pub caller_row: u32,
    pub caller_col: u32,
    pub formula_token: FormulaToken,
    pub structure_context_version: StructureContextVersion,
    pub names: Vec<DefinedName>,
    pub table_catalog: Vec<TableDescriptor>,
    pub enclosing_table_ref: Option<TableRef>,
    pub caller_table_region: Option<TableCallerRegion>,
}

impl Default for BindContext {
    fn default() -> (r: BindContext)
        ensures
            r.workbook_id@ == "book:default"@,
            r.sheet_id@ == "sheet:default"@,
            r.caller_row == 1,
            r.caller_col == 1,
            r.formula_token.0@ == "fixture"@,
            r.structure_context_version.0@ == "struct:v1"@,
            r.names@.len() == 0,
            r.table_catalog@.len() == 0,
            r.enclosing_table_ref is None,
            r.caller_table_region is None,
    {
        BindContext {
            workbook_id: string_of(&chars_of("book:default")),
            sheet_id: string_of(&chars_of("sheet:default")),
            caller_row: 1,
            caller_col: 1,
            formula_token: FormulaToken(string_of(&chars_of("fixture"))),
            structure_context_version: StructureContextVersion(string_of(&chars_of("struct:v1"))),
            names: Vec::new(),
            table_catalog: Vec::new(),
            enclosing_table_ref: None,
            caller_table_region: None,
        }
    }
}


#[derive(Debug, Clone, PartialEq, Eq, Hash)]
pub struct BindDiagnostic {
    pub message: String,
    pub span: TextSpan,
}

#[derive(Debug, Clone, Copy, PartialEq, Eq, Structural, Hash)]
pub enum BinaryOp {
    Add,
    Subtract,
    Power,
    Multiply,
    Divide,
    Concat,
    Equal,
    NotEqual,
    LessThan,
    LessEqual,
    GreaterThan,
    GreaterEqual,
}

#[derive(Debug, Clone, Copy, PartialEq, Eq, Structural, Hash)]
pub enum UnaryOp {
    Plus,
    Negate,
    Percent,
}

#[derive(Debug, PartialEq, Eq, Hash)]
pub enum BoundExpr {
    NumberLiteral(String),
    StringLiteral(String),
    LogicalLiteral(bool),
    ArrayLiteral(Vec<Vec<BoundExpr>>),
    OmittedArgument,
    HelperParameterName(String),
    HelperOptionalParameterName(String),
    Binary { op: BinaryOp, left: Box<BoundExpr>, right: Box<BoundExpr> },
    Unary { op: UnaryOp, expr: Box<BoundExpr> },
    FunctionCall { function_name: String, args: Vec<BoundExpr> },
    Invocation { callee: Box<BoundExpr>, args: Vec<BoundExpr> },
    Reference(ReferenceExpr),
    ImplicitIntersection(Box<BoundExpr>),
}

pub enum BoundExprModel {
    NumberLiteral(Seq<char>),
    StringLiteral(Seq<char>),
    LogicalLiteral(bool),
    ArrayLiteral(Seq<Seq<BoundExprModel>>),
    OmittedArgument,
    HelperParameterName(Seq<char>),
    HelperOptionalParameterName(Seq<char>),
    Binary { op: BinaryOp, left: Box<BoundExprModel>, right: Box<BoundExprModel> },
    Unary { op: UnaryOp, expr: Box<BoundExprModel> },
    FunctionCall { function_name: Seq<char>, args: Seq<BoundExprModel> },
    Invocation { callee: Box<BoundExprModel>, args: Seq<BoundExprModel> },
    Reference(ReferenceExprModel),
    ImplicitIntersection(Box<BoundExprModel>),
}

impl BoundExpr {
    pub open spec fn model(&self) -> BoundExprModel
        decreases self,
    {
        match self {
            BoundExpr::NumberLiteral(t) => BoundExprModel::NumberLiteral(t@),
            BoundExpr::StringLiteral(t) => BoundExprModel::StringLiteral(t@),
            BoundExpr::LogicalLiteral(b) => BoundExprModel::LogicalLiteral(*b),
            BoundExpr::ArrayLiteral(rows) => BoundExprModel::ArrayLiteral(row_models(rows@)),
            BoundExpr::OmittedArgument => BoundExprModel::OmittedArgument,
            BoundExpr::HelperParameterName(n) => BoundExprModel::HelperParameterName(n@),
            BoundExpr::HelperOptionalParameterName(n) => BoundExprModel::HelperOptionalParameterName(n@),
            BoundExpr::Binary { op, left, right } => BoundExprModel::Binary {
                op: *op,
                left: Box::new(left.model()),
                right: Box::new(right.model()),
            },
            BoundExpr::Unary { op, expr } => BoundExprModel::Unary { op: *op, expr: Box::new(expr.model()) },
            BoundExpr::FunctionCall { function_name, args } => BoundExprModel::FunctionCall {
                function_name: function_name@,
                args: expr_models(args@),
            },
            BoundExpr::Invocation { callee, args } => BoundExprModel::Invocation {
                callee: Box::new(callee.model()),
                args: expr_models(args@),
            },
            BoundExpr::Reference(r) => BoundExprModel::Reference(r.model()),
            BoundExpr::ImplicitIntersection(e) => BoundExprModel::ImplicitIntersection(Box::new(e.model())),
        }
    }
}

impl BoundExpr {
    /// A copy with the same model.
    pub fn duplicate(&self) -> (r: BoundExpr)
        ensures
            r.model() == self.model(),
        decreases self,
    {
        match self {
            BoundExpr::NumberLiteral(t) => BoundExpr::NumberLiteral(t.clone()),
            BoundExpr::StringLiteral(t) => BoundExpr::StringLiteral(t.clone()),
            BoundExpr::LogicalLiteral(b) => BoundExpr::LogicalLiteral(*b),
            BoundExpr::ArrayLiteral(rows) => {
                let mut out: Vec<Vec<BoundExpr>> = Vec::new();
                let mut i: usize = 0;
                while i < rows.len()
                    invariant
                        i <= rows@.len(),
                        self is ArrayLiteral,
                        self->ArrayLiteral_0 == *rows,
                        row_models(out@) == row_models(rows@.take(i as int)),
                    decreases rows.len() - i,
                {
                    proof {
                        assert(decreases_to!(self => rows));
                        assert(decreases_to!(rows => rows@));
                        assert(decreases_to!(rows@ => rows@[i as int]));
                    }
                    let row = duplicate_exprs(&rows[i]);
                    let ghost prev = out@;
                    out.push(row);
                    assert(row_models(out@) =~= row_models(prev).push(expr_models(rows@[i as int]@)));
                    assert(row_models(rows@.take(i + 1)) =~= row_models(rows@.take(i as int)).push(expr_models(rows@[i as int]@)));
                    i = i + 1;
                }
                assert(rows@.take(rows@.len() as int) =~= rows@);
                BoundExpr::ArrayLiteral(out)
            },
            BoundExpr::OmittedArgument => BoundExpr::OmittedArgument,
            BoundExpr::HelperParameterName(n) => BoundExpr::HelperParameterName(n.clone()),
            BoundExpr::HelperOptionalParameterName(n) => BoundExpr::HelperOptionalParameterName(n.clone()),
            BoundExpr::Binary { op, left, right } => BoundExpr::Binary {
                op: *op,
                left: Box::new(left.duplicate()),
                right: Box::new(right.duplicate()),
            },
            BoundExpr::Unary { op, expr } => BoundExpr::Unary { op: *op, expr: Box::new(expr.duplicate()) },
            BoundExpr::FunctionCall { function_name, args } => BoundExpr::FunctionCall {
                function_name: function_name.clone(),
                args: duplicate_exprs(args),
            },
            BoundExpr::Invocation { callee, args } => BoundExpr::Invocation {
                callee: Box::new(callee.duplicate()),
                args: duplicate_exprs(args),
            },
            BoundExpr::Reference(r) => BoundExpr::Reference(r.duplicate()),
            BoundExpr::ImplicitIntersection(e) => BoundExpr::ImplicitIntersection(Box::new(e.duplicate())),
        }
    }
}

/// Copies of a list of bound expressions.
pub fn duplicate_exprs(v: &Vec<BoundExpr>) -> (r: Vec<BoundExpr>)
    ensures
        expr_models(r@) == expr_models(v@),
    decreases v,
{
    let mut out: Vec<BoundExpr> = Vec::new();
    let mut i: usize = 0;
    while i < v.len()
        invariant
            i <= v@.len(),
            expr_models(out@) == expr_models(v@.take(i as int)),
        decreases v.len() - i,
    {
        proof {
            assert(decreases_to!(v => v@));
            assert(decreases_to!(v@ => v@[i as int]));
        }
        let e = v[i].duplicate();
        let ghost prev = out@;
        out.push(e);
        assert(expr_models(out@) =~= expr_models(prev).push(v@[i as int].model()));
        assert(expr_models(v@.take(i + 1)) =~= expr_models(v@.take(i as int)).push(v@[i as int].model()));
        i = i + 1;
    }
    assert(v@.take(v@.len() as int) =~= v@);
    out
}

/// Models of a sequence of bound expressions.
pub open spec fn expr_models(s: Seq<BoundExpr>) -> Seq<BoundExprModel>
    decreases s,
{
    Seq::new(s.len(), |i: int| if 0 <= i < s.len() { s[i].model() } else { BoundExprModel::OmittedArgument })
}

/// Models of the rows of an array literal.
pub open spec fn row_models(s: Seq<Vec<BoundExpr>>) -> Seq<Seq<BoundExprModel>>
    decreases s,
{
    Seq::new(s.len(), |i: int| if 0 <= i < s.len() { expr_models(s[i]@) } else { Seq::empty() })
}

#[derive(Debug, Clone, PartialEq, Eq, Hash)]
pub struct DependencySeed {
    pub summary: String,
}

#[derive(Debug, Clone, PartialEq, Eq, Hash)]
pub struct UnresolvedReferenceRecord {
    pub source_text: String,
    pub reason: String,
}

#[derive(Debug, PartialEq, Eq, Hash)]
pub struct BoundFormula {
    pub formula_stable_id: String,
    pub green_tree_key: String,
    pub structure_context_version: String,
    pub bind_context_fingerprint: String,
    pub bind_hash: String,
    pub root: BoundExpr,
    pub root_expression_is_grouped: bool,
    pub normalized_references: Vec<NormalizedReference>,
    pub dependency_seeds: Vec<DependencySeed>,
    pub unresolved_references: Vec<UnresolvedReferenceRecord>,
    pub capability_requirements: Vec<String>,
    pub diagnostics: Vec<BindDiagnostic>,
}

/// What the binder needs to know of a built-in function.
#[derive(Debug, Clone, PartialEq, Eq, Hash)]
pub struct BuiltinFunctionMeta {
    pub surface_name: String,
    pub min_arity: usize,
    pub max_arity: usize,
    pub caller_context_dependency: bool,
    pub refs_visible_in_adapter: bool,
}

#[derive(Debug, PartialEq, Eq, Hash)]
pub struct BindRequest {
    pub source: FormulaSourceRecord,
    pub green_tree: GreenTreeRoot,
    pub context: BindContext,
    pub builtin_functions: Vec<BuiltinFunctionMeta>,
}

/// What a bound formula holds, as plain values.
pub struct BoundFormulaModel {
    pub formula_stable_id: Seq<char>,
    pub green_tree_key: Seq<char>,
    pub structure_context_version: Seq<char>,
    pub bind_context_fingerprint: Seq<char>,
    pub bind_hash: Seq<char>,
    pub root: BoundExprModel,
    pub root_expression_is_grouped: bool,
    pub normalized_references: Seq<NormalizedReferenceModel>,
    pub dependency_seeds: Seq<Seq<char>>,
    pub unresolved_references: Seq<(Seq<char>, Seq<char>)>,
    pub capability_requirements: Seq<Seq<char>>,
    pub diagnostics: Seq<DiagModel>,
}

impl BoundFormula {
    pub open spec fn model(&self) -> BoundFormulaModel {
        BoundFormulaModel {
            formula_stable_id: self.formula_stable_id@,
            green_tree_key: self.green_tree_key@,
            structure_context_version: self.structure_context_version@,
            bind_context_fingerprint: self.bind_context_fingerprint@,
            bind_hash: self.bind_hash@,
            root: self.root.model(),
            root_expression_is_grouped: self.root_expression_is_grouped,
            normalized_references: norm_models(self.normalized_references@),
            dependency_seeds: seed_texts(self.dependency_seeds@),
            unresolved_references: unresolved_models(self.unresolved_references@),
            capability_requirements: string_views(self.capability_requirements@),
            diagnostics: diag_models(self.diagnostics@),
        }
    }

    /// A copy with the same model.
    pub fn duplicate(&self) -> (r: BoundFormula)
        ensures
            r.model() == self.model(),
    {
        let mut normalized: Vec<NormalizedReference> = Vec::new();
        let mut i: usize = 0;
        while i < self.normalized_references.len()
            invariant
                i <= self.normalized_references@.len(),
                norm_models(normalized@) == norm_models(self.normalized_references@.take(i as int)),
            decreases self.normalized_references.len() - i,
        {
            let ghost prev = normalized@;
            let x = self.normalized_references[i].duplicate();
            normalized.push(x);
            let ghost m = self.normalized_references@[i as int].model();
            assert(norm_models(normalized@) =~= norm_models(prev).push(m));
            assert(norm_models(self.normalized_references@.take(i + 1)) =~= norm_models(self.normalized_references@.take(i as int)).push(m));
            i = i + 1;
        }
        let mut seeds: Vec<DependencySeed> = Vec::new();
        let mut i: usize = 0;
        while i < self.dependency_seeds.len()
            invariant
                i <= self.dependency_seeds@.len(),
                seed_texts(seeds@) == seed_texts(self.dependency_seeds@.take(i as int)),
            decreases self.dependency_seeds.len() - i,
        {
            let ghost prev = seeds@;
            seeds.push(DependencySeed { summary: self.dependency_seeds[i].summary.clone() });
            let ghost m = self.dependency_seeds@[i as int].summary@;
            assert(seed_texts(seeds@) =~= seed_texts(prev).push(m));
            assert(seed_texts(self.dependency_seeds@.take(i + 1)) =~= seed_texts(self.dependency_seeds@.take(i as int)).push(m));
            i = i + 1;
        }
        let mut unresolved: Vec<UnresolvedReferenceRecord> = Vec::new();
        let mut i: usize = 0;
        while i < self.unresolved_references.len()
            invariant
                i <= self.unresolved_references@.len(),
                unresolved_models(unresolved@) == unresolved_models(self.unresolved_references@.take(i as int)),
            decreases self.unresolved_references.len() - i,
        {
            let u = &self.unresolved_references[i];
            let ghost prev = unresolved@;
            unresolved.push(UnresolvedReferenceRecord { source_text: u.source_text.clone(), reason: u.reason.clone() });
            let ghost m = (u.source_text@, u.reason@);
            assert(unresolved_models(unresolved@) =~= unresolved_models(prev).push(m));
            assert(unresolved_models(self.unresolved_references@.take(i + 1)) =~= unresolved_models(self.unresolved_references@.take(i as int)).push(m));
            i = i + 1;
        }
        let mut diagnostics: Vec<BindDiagnostic> = Vec::new();
        let mut i: usize = 0;
        while i < self.diagnostics.len()
            invariant
                i <= self.diagnostics@.len(),
                diag_models(diagnostics@) == diag_models(self.diagnostics@.take(i as int)),
            decreases self.diagnostics.len() - i,
        {
            let d = &self.diagnostics[i];
            let ghost prev = diagnostics@;
            diagnostics.push(BindDiagnostic { message: d.message.clone(), span: d.span });
            let ghost m = DiagModel { message: d.message@, span: d.span };
            assert(diag_models(diagnostics@) =~= diag_models(prev).push(m));
            assert(diag_models(self.diagnostics@.take(i + 1)) =~= diag_models(self.diagnostics@.take(i as int)).push(m));
            i = i + 1;
        }
        assert(self.normalized_references@.take(self.normalized_references@.len() as int) =~= self.normalized_references@);
        assert(self.dependency_seeds@.take(self.dependency_seeds@.len() as int) =~= self.dependency_seeds@);
        assert(self.unresolved_references@.take(self.unresolved_references@.len() as int) =~= self.unresolved_references@);
        assert(self.diagnostics@.take(self.diagnostics@.len() as int) =~= self.diagnostics@);
        BoundFormula {
            formula_stable_id: self.formula_stable_id.clone(),
            green_tree_key: self.green_tree_key.clone(),
            structure_context_version: self.structure_context_version.clone(),
            bind_context_fingerprint: self.bind_context_fingerprint.clone(),
            bind_hash: self.bind_hash.clone(),
            root: self.root.duplicate(),
            root_expression_is_grouped: self.root_expression_is_grouped,
            normalized_references: normalized,
            dependency_seeds: seeds,
            unresolved_references: unresolved,
            capability_requirements: copy_strings(&self.capability_requirements),
            diagnostics,
        }
    }
}

#[derive(Debug, PartialEq, Eq, Hash)]
pub struct BindResult {
    pub bound_formula: BoundFormula,
}

#[derive(Debug, PartialEq, Eq, Hash)]
pub struct IncrementalBindResult {
    pub bound_formula: BoundFormula,
    pub reused_bound_formula: bool,
}

} // verus!

verus! {

/// What the binder reads from a request.
pub open spec fn request_env(request: BindRequest) -> BindEnv {
    BindEnv {
        ctx: request.context,
        channel: request.source.formula_channel_kind,
        builtins: request.builtin_functions@,
    }
}

/// The expression node of the tree: the root's first node child.
pub open spec fn root_expression(request: BindRequest) -> GreenNode {
    child_node(request.green_tree.root, first_node_index(request.green_tree.root)->0)
}

/// The defined names as the map from name to kind that they stand for:
/// each name once, in rising order of its characters.
pub open spec fn names_well_formed(names: Seq<DefinedName>) -> bool {
    forall|i: int, j: int| 0 <= i < j < names.len() ==> lex_lt(#[trigger] names[i].name@, #[trigger] names[j].name@)
}

/// In a context whose defined names are well formed, looking a name up
/// finds its own entry: the names are keys of a map.
pub proof fn lemma_defined_name_lookup(context: BindContext, i: int)
    requires
        names_well_formed(context.names@),
        0 <= i < context.names@.len(),
    ensures
        name_kind_of(context, context.names@[i].name@) == Some(context.names@[i].kind),
{
    let names = context.names@;
    let p = defined_name_pred(names[i].name@);
    assert forall|j: int| 0 <= j < i implies !p(#[trigger] names[j]) by {
        lemma_lex_irreflexive(names[i].name@);
        assert(lex_lt(names[j].name@, names[i].name@));
    }
    lemma_first_where_at(names, p, i);
}

/// Requests the binder accepts: a well-formed tree whose root holds an
/// expression, in a context whose defined names form a map.
pub open spec fn bindable(request: BindRequest) -> bool {
    &&& tree_wf(request.green_tree.root)
    &&& first_node_index(request.green_tree.root) is Some
    &&& names_well_formed(request.context.names@)
}

/// The bound formula of a request.
pub open spec fn bind_formula_spec(request: BindRequest) -> BoundFormulaModel {
    let expr = root_expression(request);
    let (st, root) = bind_expr_spec(request_env(request), empty_state(), expr);
    let grouped = expr.kind == SyntaxKind::GroupingExpr;
    BoundFormulaModel {
        formula_stable_id: request.source.formula_stable_id.0@,
        green_tree_key: request.green_tree.green_tree_key@,
        structure_context_version: request.context.structure_context_version.0@,
        bind_context_fingerprint: context_fingerprint(request.context),
        bind_hash: expression_hash(grouped, root),
        root,
        root_expression_is_grouped: grouped,
        normalized_references: st.normalized,
        dependency_seeds: st.seeds,
        unresolved_references: st.unresolved,
        capability_requirements: st.capabilities,
        diagnostics: st.diagnostics,
    }
}

/// Binds the expression of a formula's green tree against the request's
/// context, in the grammar of its channel.
pub fn bind_formula(request: BindRequest) -> (r: BindResult)
    requires
        bindable(request),
    ensures
        r.bound_formula.model() == bind_formula_spec(request),
        seeds_summarize(r.bound_formula.model().normalized_references, r.bound_formula.model().dependency_seeds),
{
    let fingerprint = context_fingerprint_of(&request.context);
    let ghost req = request;
    let BindRequest { source, green_tree, context, builtin_functions } = request;
    let mut binder = Binder::new(context, source.formula_channel_kind, builtin_functions);
    let k = match first_node_position(&green_tree.root) {
        Some(k) => k,
        None => vstd::pervasive::unreached(),
    };
    let root_node = match &green_tree.root.children[k] {
        GreenChild::Node(n) => n,
        GreenChild::Token(_) => vstd::pervasive::unreached(),
    };
    let grouped = root_node.kind == SyntaxKind::GroupingExpr;
    let root = binder.bind_expr(root_node);
    let bind_hash = expression_hash_of(grouped, &root);
    let structure_context_version = binder.context.structure_context_version.0.clone();
    let r = BindResult {
        bound_formula: BoundFormula {
            formula_stable_id: source.formula_stable_id.0,
            green_tree_key: green_tree.green_tree_key,
            structure_context_version,
            bind_context_fingerprint: fingerprint,
            bind_hash,
            root,
            root_expression_is_grouped: grouped,
            normalized_references: binder.normalized_references,
            dependency_seeds: binder.dependency_seeds,
            unresolved_references: binder.unresolved_references,
            capability_requirements: binder.capability_requirements,
            diagnostics: binder.diagnostics,
        },
    };
    assert(r.bound_formula.model() =~= bind_formula_spec(req));
    r
}

/// Whether a previous bound formula stands for binding `request`: same
/// formula, same green tree, same context fingerprint.
pub open spec fn reusable(previous: BoundFormulaModel, request: BindRequest) -> bool {
    &&& previous.formula_stable_id == request.source.formula_stable_id.0@
    &&& previous.green_tree_key == request.green_tree.green_tree_key@
    &&& previous.bind_context_fingerprint == context_fingerprint(request.context)
}

/// Binds `request`, or hands back a copy of the previous bound formula when
/// it was bound from the same formula, tree and context.
pub fn bind_formula_incremental(request: BindRequest, previous_bound_formula: Option<&BoundFormula>) -> (r: IncrementalBindResult)
    requires
        (previous_bound_formula matches Some(p) && reusable(p.model(), request)) || bindable(request),
    ensures
        r.reused_bound_formula == (previous_bound_formula matches Some(p) && reusable(p.model(), request)),
        r.reused_bound_formula ==> r.bound_formula.model() == previous_bound_formula->0.model(),
        !r.reused_bound_formula ==> r.bound_formula.model() == bind_formula_spec(request),
{
    let fingerprint = context_fingerprint_of(&request.context);
    if let Some(previous) = previous_bound_formula {
        if previous.formula_stable_id == request.source.formula_stable_id.0
            && previous.green_tree_key == request.green_tree.green_tree_key
            && previous.bind_context_fingerprint == fingerprint {
            return IncrementalBindResult { bound_formula: previous.duplicate(), reused_bound_formula: true };
        }
    }
    let bind = bind_formula(request);
    IncrementalBindResult { bound_formula: bind.bound_formula, reused_bound_formula: false }
}

/// Binding a request incrementally against the formula that `bind_formula`
/// bound from that same request reuses it: the stable id, tree key and
/// context fingerprint all agree, so by `bind_formula_incremental`'s
/// contract the result is marked reused and is that formula.
pub proof fn lemma_rebind_same_request_reuses(request: BindRequest, previous: BoundFormulaModel)
    requires
        previous == bind_formula_spec(request),
    ensures
        reusable(previous, request),
{
}

/// Two requests for the same formula, tree and context share a context
/// fingerprint, so a formula bound from one is reused for the other.
pub proof fn lemma_same_context_reuses(first: BindRequest, second: BindRequest)
    requires
        first.source.formula_stable_id.0@ == second.source.formula_stable_id.0@,
        first.green_tree.green_tree_key@ == second.green_tree.green_tree_key@,
        first.context == second.context,
    ensures
        reusable(bind_formula_spec(first), second),
{
}

} // verus!
