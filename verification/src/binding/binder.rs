//! The binder: walks a green tree and produces the bound expression, while
//! recording diagnostics, normalized references and their dependency
//! summaries, unresolved references and capability needs.

use vstd::prelude::*;

use crate::binding::binder_spec::{
    any_lambda_call, any_row_lambda_call, arglist_index_from, binary_op_spec, call_diagnostic_spec, arity_diagnostic_spec, locator_reject_spec, locator_diagnostic_spec, contains_lambda_call,
    helper_name_spec, is_reference_like, lambda_param_spec, optional_parameter_spec, qualifier_token_from,
    ref_expr_is_reference_like, unwrap_text, bind_call_args_spec, builtin_lookup, builtin_pred, fold_lambda_spec,
    fold_let_spec, bind_expr_spec, bind_affix_spec, bind_binary_spec, bind_range_spec, bind_pair_spec, bind_invoke_spec,
    bind_call_spec, bind_qualified_spec, bind_child_spec, fold_array_spec, fold_args_spec,
    harmonize_spec, simple_fragment_spec, simple_range_spec,
    diag_models, norm_models, seed_texts, unresolved_models, empty_state, atom, seeds_ok, bind_identifier_spec, bind_name_callee_spec, error_ref, is_context_name, is_error_literal,
    is_helper_name, name_kind_of, name_ref, structured_step, unresolved_identifier, with_capability, with_diag,
    with_helper, with_seed, with_unresolved, pop_seed, pop_helpers, defined_name_pred, BindEnv, BinderModel, DiagModel,
};
use crate::binding::parse::{
    area_between_cells, parse_cell_reference, parse_column_reference, parse_reference_qualifier, parse_row_reference,
    span_count_of, ParsedQualifier,
};
use crate::binding::reference::{
    render_reference, AddressMode, ErrorRef, ExternalRef, WholeColumnRef, WholeRowRef, NameKind, NameRef, NormalizedReference, ReferenceExpr,
};
use crate::binding::structured::{
    build_structured_reference, lemma_first_where_at, lemma_first_where_none, parse_structured_reference_text,
    resolve_structured_table,
};
use crate::binding::{
    expr_models, row_models, BinaryOp, BoundExprModel, UnaryOp, BindContext, BindDiagnostic, BoundExpr, BuiltinFunctionMeta, DependencySeed, UnresolvedReferenceRecord,
};
use crate::source::{FormulaChannelKind, TextSpan};
use crate::syntax::{lemma_child_smaller, second_node_position, tree_wf, first_node_position, first_token_text, has_token, node_count_from, GreenChild, GreenNode, SyntaxKind, TokenKind};
use crate::text::{
    char_is_alnum, char_is_alpha, char_vecs, chars_eq, chars_eq_ignore_case, chars_of, eq_ignore_case, is_alnum, push_chars,
    push_decimal, push_str, push_string, upper_seq, slice_chars, string_of, string_views, to_upper,
};

verus! {

pub struct Binder {
    pub context: BindContext,
    pub channel: FormulaChannelKind,
    pub builtins: Vec<BuiltinFunctionMeta>,
    pub diagnostics: Vec<BindDiagnostic>,
    pub normalized_references: Vec<NormalizedReference>,
    pub dependency_seeds: Vec<DependencySeed>,
    pub unresolved_references: Vec<UnresolvedReferenceRecord>,
    pub capability_requirements: Vec<String>,
    pub helper_local_names: Vec<String>,
}

impl Binder {
    pub open spec fn env(&self) -> BindEnv {
        BindEnv { ctx: self.context, channel: self.channel, builtins: self.builtins@ }
    }

    pub open spec fn state(&self) -> BinderModel {
        BinderModel {
            diagnostics: diag_models(self.diagnostics@),
            normalized: norm_models(self.normalized_references@),
            seeds: seed_texts(self.dependency_seeds@),
            unresolved: unresolved_models(self.unresolved_references@),
            capabilities: string_views(self.capability_requirements@),
            helpers: string_views(self.helper_local_names@),
        }
    }

    /// A binder with nothing recorded yet.
    pub fn new(context: BindContext, channel: FormulaChannelKind, builtins: Vec<BuiltinFunctionMeta>) -> (b: Binder)
        ensures
            b.context == context,
            b.channel == channel,
            b.builtins@ == builtins@,
            b.state() == empty_state(),
    {
        let b = Binder {
            context,
            channel,
            builtins,
            diagnostics: Vec::new(),
            normalized_references: Vec::new(),
            dependency_seeds: Vec::new(),
            unresolved_references: Vec::new(),
            capability_requirements: Vec::new(),
            helper_local_names: Vec::new(),
        };
        assert(b.state() =~= empty_state());
        b
    }

    fn push_diag(&mut self, message: String, span: TextSpan)
        ensures
            final(self).env() == old(self).env(),
            final(self).state() == with_diag(old(self).state(), message@, span),
    {
        let ghost m = message@;
        self.diagnostics.push(BindDiagnostic { message, span });
        assert(diag_models(self.diagnostics@) =~= diag_models(old(self).diagnostics@).push(DiagModel { message: m, span }));
        assert(self.state() =~= with_diag(old(self).state(), m, span));
    }

    fn push_unresolved(&mut self, source_text: String, reason: String)
        ensures
            final(self).env() == old(self).env(),
            final(self).state() == with_unresolved(old(self).state(), source_text@, reason@),
    {
        let ghost (a, b) = (source_text@, reason@);
        self.unresolved_references.push(UnresolvedReferenceRecord { source_text, reason });
        assert(unresolved_models(self.unresolved_references@) =~= unresolved_models(old(self).unresolved_references@).push((a, b)));
        assert(self.state() =~= with_unresolved(old(self).state(), a, b));
    }

    fn push_capability(&mut self, c: String)
        ensures
            final(self).env() == old(self).env(),
            final(self).state() == with_capability(old(self).state(), c@),
    {
        let ghost a = c@;
        self.capability_requirements.push(c);
        assert(string_views(self.capability_requirements@) =~= string_views(old(self).capability_requirements@).push(a));
        assert(self.state() =~= with_capability(old(self).state(), a));
    }

    fn push_helper(&mut self, name: String)
        ensures
            final(self).env() == old(self).env(),
            final(self).state() == with_helper(old(self).state(), name@),
    {
        let ghost a = name@;
        self.helper_local_names.push(name);
        assert(string_views(self.helper_local_names@) =~= string_views(old(self).helper_local_names@).push(a));
        assert(self.state() =~= with_helper(old(self).state(), a));
    }

    /// Drops the `n` most recent helper names.
    fn pop_helpers(&mut self, n: usize)
        requires
            n <= old(self).helper_local_names@.len(),
        ensures
            final(self).env() == old(self).env(),
            final(self).state() == pop_helpers(old(self).state(), n as nat),
    {
        let mut k: usize = 0;
        while k < n
            invariant
                k <= n <= old(self).helper_local_names@.len(),
                self.helper_local_names@ == old(self).helper_local_names@.take(old(self).helper_local_names@.len() - k),
                self.env() == old(self).env(),
                self.diagnostics@ == old(self).diagnostics@,
                self.normalized_references@ == old(self).normalized_references@,
                self.dependency_seeds@ == old(self).dependency_seeds@,
                self.unresolved_references@ == old(self).unresolved_references@,
                self.capability_requirements@ == old(self).capability_requirements@,
            decreases n - k,
        {
            self.helper_local_names.pop();
            k = k + 1;
            assert(self.helper_local_names@ =~= old(self).helper_local_names@.take(old(self).helper_local_names@.len() - k));
        }
        let ghost h = old(self).helper_local_names@;
        assert(string_views(self.helper_local_names@) =~= string_views(h).subrange(0, h.len() - n));
        assert(self.state() =~= pop_helpers(old(self).state(), n as nat));
    }

    /// Records a normalized reference and its dependency summary.
    fn push_reference_seed(&mut self, r: &NormalizedReference)
        ensures
            final(self).env() == old(self).env(),
            final(self).state() == with_seed(old(self).state(), r.model()),
    {
        let summary = r.to_string();
        self.normalized_references.push(r.duplicate());
        self.dependency_seeds.push(DependencySeed { summary });
        assert(norm_models(self.normalized_references@) =~= norm_models(old(self).normalized_references@).push(r.model()));
        assert(seed_texts(self.dependency_seeds@) =~= seed_texts(old(self).dependency_seeds@).push(render_reference(r.model())));
        assert(self.state() =~= with_seed(old(self).state(), r.model()));
    }

    /// Forgets the most recent reference and summary.
    fn pop_recent_reference_seed(&mut self)
        ensures
            final(self).env() == old(self).env(),
            final(self).state() == pop_seed(old(self).state()),
    {
        self.normalized_references.pop();
        self.dependency_seeds.pop();
        assert(norm_models(self.normalized_references@) =~= pop_seed(old(self).state()).normalized);
        assert(seed_texts(self.dependency_seeds@) =~= pop_seed(old(self).state()).seeds);
        assert(self.state() =~= pop_seed(old(self).state()));
    }

    /// Whether `text` matches a helper name in scope, without case.
    fn is_helper_local_name(&self, text: &[char]) -> (r: bool)
        ensures
            r == is_helper_name(self.state(), text@),
    {
        let mut i: usize = 0;
        while i < self.helper_local_names.len()
            invariant
                i <= self.helper_local_names@.len(),
                forall|j: int| 0 <= j < i ==> !eq_ignore_case(#[trigger] self.state().helpers[j], text@),
            decreases self.helper_local_names.len() - i,
        {
            if chars_eq_ignore_case(&chars_of(self.helper_local_names[i].as_str()), text) {
                assert(self.state().helpers[i as int] == self.helper_local_names@[i as int]@);
                return true;
            }
            i = i + 1;
        }
        false
    }

    /// Whether `text` matches a defined name of the context, without case.
    fn is_context_name(&self, text: &[char]) -> (r: bool)
        ensures
            r == is_context_name(self.context, text@),
    {
        let names = &self.context.names;
        let mut i: usize = 0;
        while i < names.len()
            invariant
                i <= names@.len(),
                names@ == self.context.names@,
                forall|j: int| 0 <= j < i ==> !eq_ignore_case((#[trigger] names@[j]).name@, text@),
            decreases names.len() - i,
        {
            if chars_eq_ignore_case(&chars_of(names[i].name.as_str()), text) {
                return true;
            }
            i = i + 1;
        }
        false
    }

    /// The kind of the defined name spelled exactly `text`.
    fn name_kind(&self, text: &[char]) -> (r: Option<NameKind>)
        ensures
            r == name_kind_of(self.context, text@),
    {
        let names = &self.context.names;
        let ghost p = defined_name_pred(text@);
        let mut i: usize = 0;
        while i < names.len()
            invariant
                i <= names@.len(),
                names@ == self.context.names@,
                p == defined_name_pred(text@),
                forall|j: int| 0 <= j < i ==> !p(#[trigger] names@[j]),
            decreases names.len() - i,
        {
            if chars_eq(&chars_of(names[i].name.as_str()), text) {
                proof { lemma_first_where_at(names@, p, i as int); }
                return Some(names[i].kind);
            }
            i = i + 1;
        }
        proof { lemma_first_where_none(names@, p); }
        None
    }

    /// A name reference to `text` on the context's sheet.
    fn name_ref(&self, text: &[char], kind: NameKind) -> (r: NormalizedReference)
        ensures
            r.model() == name_ref(self.env(), text@, kind),
    {
        NormalizedReference::Name(NameRef {
            name: string_of(text),
            workbook_id: self.context.workbook_id.clone(),
            sheet_id: self.context.sheet_id.clone(),
            kind,
            caller_context_dependent: false,
        })
    }

    /// Binds `text` as a structured reference on `sheet`, if it is one.
    #[verifier::rlimit(40)]
    /// A structured reference text read against the formula's own sheet.
    fn bind_structured_reference_text(&mut self, text: &[char], span: TextSpan) -> (r: Option<NormalizedReference>)
        ensures
            final(self).env() == old(self).env(),
            match structured_step(old(self).env(), old(self).state(), text@, old(self).context.sheet_id@, span) {
                None => r is None && final(self).state() == old(self).state(),
                Some(p) => r is Some && r->0.model() == p.1 && final(self).state() == p.0,
            },
    {
        let sheet = self.context.sheet_id.clone();
        self.bind_structured_reference_text_with_sheet(text, &sheet, span)
    }

    #[verifier::rlimit(40)]
    fn bind_structured_reference_text_with_sheet(&mut self, text: &[char], sheet: &String, span: TextSpan) -> (r: Option<NormalizedReference>)
        ensures
            final(self).env() == old(self).env(),
            match structured_step(old(self).env(), old(self).state(), text@, sheet@, span) {
                None => r is None && final(self).state() == old(self).state(),
                Some(p) => r is Some && r->0.model() == p.1 && final(self).state() == p.0,
            },
    {
        let p = match parse_structured_reference_text(text) {
            None => return None,
            Some(p) => p,
        };
        let message = match resolve_structured_table(&p.table_name, sheet, &self.context) {
            Err(m) => m,
            Ok(t) => match build_structured_reference(&p, &self.context.table_catalog[t], &self.context, self.channel) {
                Ok(s) => return Some(NormalizedReference::Structured(s)),
                Err(m) => m,
            },
        };
        self.push_unresolved(string_of(text), message.clone());
        self.push_diag(message, span);
        Some(error_reference("#REF!", text))
    }

    /// An unknown identifier: recorded as unresolved, diagnosed, bound to `#NAME?`.
    fn unresolved_identifier(&mut self, text: &[char], span: TextSpan) -> (r: BoundExpr)
        ensures
            final(self).env() == old(self).env(),
            final(self).state() == unresolved_identifier(old(self).state(), text@, span).0,
            r.model() == unresolved_identifier(old(self).state(), text@, span).1,
    {
        self.push_unresolved(string_of(text), string_of(&chars_of("unknown identifier or name")));
        let mut m: Vec<char> = Vec::new();
        push_str(&mut m, "unresolved identifier '");
        push_chars(&mut m, text);
        push_str(&mut m, "'");
        self.push_diag(string_of(&m), span);
        atom_expr(error_reference("#NAME?", text))
    }

    /// Records `r` and yields it as a reference expression.
    fn seeded_atom(&mut self, r: NormalizedReference) -> (e: BoundExpr)
        ensures
            final(self).env() == old(self).env(),
            final(self).state() == with_seed(old(self).state(), r.model()),
            e.model() == atom(r.model()),
    {
        self.push_reference_seed(&r);
        atom_expr(r)
    }

    /// An identifier: a logical literal, an error literal, a structured
    /// reference, a helper name in scope, a cell, a defined name, or unresolved.
    fn bind_identifier(&mut self, text: &[char], span: TextSpan) -> (r: BoundExpr)
        ensures
            final(self).env() == old(self).env(),
            final(self).state() == bind_identifier_spec(old(self).env(), old(self).state(), text@, span).0,
            r.model() == bind_identifier_spec(old(self).env(), old(self).state(), text@, span).1,
    {
        if chars_eq_ignore_case(text, &chars_of("TRUE")) {
            return BoundExpr::LogicalLiteral(true);
        }
        if chars_eq_ignore_case(text, &chars_of("FALSE")) {
            return BoundExpr::LogicalLiteral(false);
        }
        if is_worksheet_error_literal(text) {
            return atom_expr(NormalizedReference::Error(ErrorRef { error_class: string_of(text), source_text: string_of(text) }));
        }
        if let Some(s) = self.bind_structured_reference_text(text, span) {
            return self.seeded_atom(s);
        }
        let sheet = self.context.sheet_id.clone();
        if self.is_helper_local_name(text) {
            let r = self.name_ref(text, NameKind::HelperLocal);
            return self.seeded_atom(r);
        }
        if let Some(c) = parse_cell_reference(text, &sheet, &self.context.workbook_id, self.context.caller_row,
            self.context.caller_col, self.channel) {
            return self.seeded_atom(NormalizedReference::Cell(c));
        }
        if let Some(k) = self.name_kind(text) {
            let r = self.name_ref(text, k);
            return self.seeded_atom(r);
        }
        self.unresolved_identifier(text, span)
    }

    /// The callee of a call that binds as an invocation.
    fn bind_identifier_expr_from_name(&mut self, text: &[char]) -> (r: BoundExpr)
        ensures
            final(self).env() == old(self).env(),
            final(self).state() == bind_name_callee_spec(old(self).env(), old(self).state(), text@).0,
            r.model() == bind_name_callee_spec(old(self).env(), old(self).state(), text@).1,
    {
        let span = TextSpan { start: 0, len: 0 };
        if self.is_helper_local_name(text) {
            let r = self.name_ref(text, NameKind::HelperLocal);
            return self.seeded_atom(r);
        }
        if let Some(s) = self.bind_structured_reference_text(text, span) {
            return self.seeded_atom(s);
        }
        let sheet = self.context.sheet_id.clone();
        if let Some(c) = parse_cell_reference(text, &sheet, &self.context.workbook_id, self.context.caller_row,
            self.context.caller_col, self.channel) {
            return self.seeded_atom(NormalizedReference::Cell(c));
        }
        if let Some(k) = self.name_kind(text) {
            let r = self.name_ref(text, k);
            return self.seeded_atom(r);
        }
        self.unresolved_identifier(text, span)
    }
}

/// An error reference of class `class` for `source`.
fn error_reference(class: &str, source: &[char]) -> (r: NormalizedReference)
    ensures
        r.model() == error_ref(class@, source@),
{
    NormalizedReference::Error(ErrorRef { error_class: string_of(&chars_of(class)), source_text: string_of(source) })
}

/// A reference as an expression.
fn atom_expr(r: NormalizedReference) -> (e: BoundExpr)
    ensures
        e.model() == atom(r.model()),
{
    BoundExpr::Reference(ReferenceExpr::Atom(r))
}

/// Whether `text` is a worksheet error literal, without case.
pub(crate) fn is_worksheet_error_literal(text: &[char]) -> (r: bool)
    ensures
        r == is_error_literal(text@),
{
    let u = to_upper(text);
    chars_eq(&u, &chars_of("#NULL!")) || chars_eq(&u, &chars_of("#DIV/0!")) || chars_eq(&u, &chars_of("#VALUE!"))
        || chars_eq(&u, &chars_of("#REF!")) || chars_eq(&u, &chars_of("#NAME?")) || chars_eq(&u, &chars_of("#NUM!"))
        || chars_eq(&u, &chars_of("#N/A")) || chars_eq(&u, &chars_of("#BUSY!")) || chars_eq(&u, &chars_of("#GETTING_DATA"))
        || chars_eq(&u, &chars_of("#SPILL!")) || chars_eq(&u, &chars_of("#CALC!")) || chars_eq(&u, &chars_of("#FIELD!"))
        || chars_eq(&u, &chars_of("#BLOCKED!")) || chars_eq(&u, &chars_of("#CONNECT!"))
}

/// Text of the first qualifier token (identifier, quoted identifier or
/// bracketed qualifier) from `from` on.
fn qualifier_token_from_pos(node: &GreenNode, from: usize) -> (r: Option<String>)
    ensures
        match r {
            Some(t) => qualifier_token_from(node.children@, from as int) == Some(t@),
            None => qualifier_token_from(node.children@, from as int) is None,
        },
    decreases node.children@.len() - from,
{
    if from >= node.children.len() {
        return None;
    }
    match &node.children[from] {
        GreenChild::Token(t) => {
            if t.kind == TokenKind::Identifier || t.kind == TokenKind::QuotedIdentifier
                || t.kind == TokenKind::BracketedQualifier {
                return Some(t.text.clone());
            }
        },
        GreenChild::Node(_) => {},
    }
    qualifier_token_from_pos(node, from + 1)
}

/// The characters of an optional text, empty when absent.
fn text_or_empty(t: Option<String>) -> (r: Vec<char>)
    ensures
        r@ == unwrap_text(match t { Some(s) => Some(s@), None => None }),
{
    match t {
        Some(s) => chars_of(s.as_str()),
        None => Vec::new(),
    }
}

/// Position of the first argument-list node from `from` on.
fn arglist_position_from(node: &GreenNode, from: usize) -> (r: Option<usize>)
    ensures
        match r {
            Some(k) => arglist_index_from(node.children@, from as int) == Some(k as int) && k < node.children@.len(),
            None => arglist_index_from(node.children@, from as int) is None,
        },
    decreases node.children@.len() - from,
{
    if from >= node.children.len() {
        return None;
    }
    match &node.children[from] {
        GreenChild::Node(c) => {
            if c.kind == SyntaxKind::ArgumentList {
                return Some(from);
            }
        },
        GreenChild::Token(_) => {},
    }
    arglist_position_from(node, from + 1)
}

/// Number of node children from `from` on.
fn count_nodes_from(node: &GreenNode, from: usize) -> (r: usize)
    ensures
        r == node_count_from(node.children@, from as int),
        r <= node.children@.len() - from || from > node.children@.len(),
    decreases node.children@.len() - from,
{
    if from >= node.children.len() {
        return 0;
    }
    let rest = count_nodes_from(node, from + 1);
    match &node.children[from] {
        GreenChild::Node(_) => rest + 1,
        GreenChild::Token(_) => rest,
    }
}

/// The operator a binary expression's token spells.
fn binary_op(node: &GreenNode) -> (r: BinaryOp)
    ensures
        r == binary_op_spec(*node),
{
    if has_token(node, "+") {
        BinaryOp::Add
    } else if has_token(node, "-") {
        BinaryOp::Subtract
    } else if has_token(node, "^") {
        BinaryOp::Power
    } else if has_token(node, "*") {
        BinaryOp::Multiply
    } else if has_token(node, "&") {
        BinaryOp::Concat
    } else if has_token(node, "<>") {
        BinaryOp::NotEqual
    } else if has_token(node, "<=") {
        BinaryOp::LessEqual
    } else if has_token(node, ">=") {
        BinaryOp::GreaterEqual
    } else if has_token(node, "<") {
        BinaryOp::LessThan
    } else if has_token(node, ">") {
        BinaryOp::GreaterThan
    } else if has_token(node, "=") {
        BinaryOp::Equal
    } else {
        BinaryOp::Divide
    }
}

/// Whether an expression holds a call of `LAMBDA` anywhere inside.
fn array_literal_contains_inline_lambda_call(e: &BoundExpr) -> (r: bool)
    ensures
        r == contains_lambda_call(e.model()),
    decreases e,
{
    match e {
        BoundExpr::FunctionCall { function_name, args } => {
            if chars_eq(&chars_of(function_name.as_str()), &chars_of("LAMBDA")) {
                return true;
            }
            any_lambda(args)
        },
        BoundExpr::Invocation { callee, args } => array_literal_contains_inline_lambda_call(callee) || any_lambda(args),
        BoundExpr::ImplicitIntersection(inner) => array_literal_contains_inline_lambda_call(inner),
        BoundExpr::Unary { expr, .. } => array_literal_contains_inline_lambda_call(expr),
        BoundExpr::Binary { left, right, .. } => array_literal_contains_inline_lambda_call(left) || array_literal_contains_inline_lambda_call(right),
        BoundExpr::ArrayLiteral(rows) => {
            let mut i: usize = 0;
            while i < rows.len()
                invariant
                    i <= rows@.len(),
                    e is ArrayLiteral,
                    e->ArrayLiteral_0 == *rows,
                    any_row_lambda_call(row_models(rows@), 0) == any_row_lambda_call(row_models(rows@), i as int),
                decreases rows.len() - i,
            {
                proof {
                    assert(decreases_to!(e => rows));
                    assert(decreases_to!(rows => rows@));
                    assert(decreases_to!(rows@ => rows@[i as int]));
                }
                if any_lambda(&rows[i]) {
                    return true;
                }
                i = i + 1;
            }
            false
        },
        _ => false,
    }
}

/// Whether some argument holds a call of `LAMBDA`.
fn any_lambda(args: &Vec<BoundExpr>) -> (r: bool)
    ensures
        r == any_lambda_call(expr_models(args@), 0),
    decreases args,
{
    let mut i: usize = 0;
    while i < args.len()
        invariant
            i <= args@.len(),
            any_lambda_call(expr_models(args@), 0) == any_lambda_call(expr_models(args@), i as int),
        decreases args.len() - i,
    {
        proof {
            assert(decreases_to!(args => args@));
            assert(decreases_to!(args@ => args@[i as int]));
        }
        if array_literal_contains_inline_lambda_call(&args[i]) {
            return true;
        }
        i = i + 1;
    }
    false
}

/// Whether a reference can stand as the argument of a caller-context locator.
fn ref_is_reference_like(r: &ReferenceExpr) -> (b: bool)
    ensures
        b == ref_expr_is_reference_like(r.model()),
    decreases r,
{
    match r {
        ReferenceExpr::Atom(a) => match a {
            NormalizedReference::Name(n) => n.kind == NameKind::ReferenceLike || n.kind == NameKind::MixedOrDeferred,
            NormalizedReference::Error(_) => false,
            NormalizedReference::ProfileSymbolic(_) => false,
            _ => true,
        },
        ReferenceExpr::Spill { anchor } => ref_is_reference_like(anchor),
        _ => true,
    }
}

fn builtin_reference_locator_argument_is_reference_like(e: &BoundExpr) -> (b: bool)
    ensures
        b == is_reference_like(e.model()),
    decreases e,
{
    match e {
        BoundExpr::Reference(r) => ref_is_reference_like(r),
        BoundExpr::ImplicitIntersection(inner) => builtin_reference_locator_argument_is_reference_like(inner),
        _ => false,
    }
}

/// The authoring diagnostic for a call of a built-in, if any.
fn builtin_function_call_authoring_diagnostic(name: &[char], meta: &BuiltinFunctionMeta, args: &Vec<BoundExpr>) -> (r: Option<String>)
    ensures
        match r {
            Some(m) => call_diagnostic_spec(name@, *meta, expr_models(args@)) == Some(m@),
            None => call_diagnostic_spec(name@, *meta, expr_models(args@)) is None,
        },
{
    let n = args.len();
    if !(meta.min_arity <= n && n <= meta.max_arity) {
        return Some(builtin_function_arity_authoring_diagnostic(name, meta.min_arity, meta.max_arity, n));
    }
    if builtin_requires_reference_locator_authoring_reject(meta, args) {
        return Some(builtin_reference_locator_authoring_diagnostic(name));
    }
    None
}

fn builtin_function_arity_authoring_diagnostic(name: &[char], min_arity: usize, max_arity: usize, actual_arity: usize) -> (r: String)
    ensures
        r@ == arity_diagnostic_spec(name@, min_arity as nat, max_arity as nat, actual_arity as nat),
{
    let mut m: Vec<char> = Vec::new();
    push_str(&mut m, "built-in function call '");
    push_chars(&mut m, name);
    push_str(&mut m, "' rejects ");
    push_decimal(&mut m, actual_arity as u64);
    push_str(&mut m, " arguments at the authoring boundary (expected ");
    push_decimal(&mut m, min_arity as u64);
    push_str(&mut m, "..=");
    push_decimal(&mut m, max_arity as u64);
    push_str(&mut m, ")");
    string_of(&m)
}

fn builtin_requires_reference_locator_authoring_reject(meta: &BuiltinFunctionMeta, args: &Vec<BoundExpr>) -> (r: bool)
    ensures
        r == locator_reject_spec(*meta, expr_models(args@)),
{
    meta.caller_context_dependency && meta.refs_visible_in_adapter && meta.min_arity == 0 && meta.max_arity == 1
        && args.len() == 1 && !builtin_reference_locator_argument_is_reference_like(&args[0])
}

fn builtin_reference_locator_authoring_diagnostic(name: &[char]) -> (r: String)
    ensures
        r@ == locator_diagnostic_spec(name@),
{
    let mut m: Vec<char> = Vec::new();
    push_str(&mut m, "built-in function call '");
    push_chars(&mut m, name);
    push_str(&mut m, "' rejects non-reference arguments at the authoring boundary for caller-context locator functions");
    string_of(&m)
}

/// `[name]` as an optional LAMBDA parameter: the name inside the brackets.
fn strip_optional_lambda_parameter_syntax(text: &[char]) -> (r: Option<Vec<char>>)
    ensures
        match r {
            Some(v) => optional_parameter_spec(text@) == Some(v@),
            None => optional_parameter_spec(text@) is None,
        },
{
    let n = text.len();
    if !(n >= 2 && text[0] == '[' && text[n - 1] == ']') {
        return None;
    }
    let inner = slice_chars(text, 1, n - 1);
    if inner.len() == 0 || !(char_is_alpha(inner[0]) || inner[0] == '_' || inner[0] == '$') {
        return None;
    }
    let mut i: usize = 1;
    while i < inner.len()
        invariant
            1 <= i <= inner@.len(),
            inner@ == text@.subrange(1, text@.len() - 1),
            forall|j: int| 1 <= j < i ==> (is_alnum(#[trigger] inner@[j]) || inner@[j] == '_' || inner@[j] == '.' || inner@[j] == '$'),
        decreases inner.len() - i,
    {
        let c = inner[i];
        if !(char_is_alnum(c) || c == '_' || c == '.' || c == '$') {
            assert(!(is_alnum(inner@[i as int]) || inner@[i as int] == '_' || inner@[i as int] == '.' || inner@[i as int] == '$'));
            return None;
        }
        i = i + 1;
    }
    Some(inner)
}

/// A LET binding name: an identifier's text.
fn try_helper_parameter_name(node: &GreenNode) -> (r: Option<Vec<char>>)
    ensures
        match r {
            Some(v) => helper_name_spec(*node) == Some(v@),
            None => helper_name_spec(*node) is None,
        },
{
    if node.kind == SyntaxKind::IdentifierExpr {
        match first_token_text(node) {
            Some(t) => Some(chars_of(t.as_str())),
            None => None,
        }
    } else {
        None
    }
}

/// A LAMBDA parameter: its name, and whether it is optional.
fn try_lambda_parameter(node: &GreenNode) -> (r: Option<(Vec<char>, bool)>)
    ensures
        match r {
            Some(p) => lambda_param_spec(*node) == Some((p.0@, p.1)),
            None => lambda_param_spec(*node) is None,
        },
{
    if node.kind != SyntaxKind::IdentifierExpr {
        return None;
    }
    let text = match first_token_text(node) {
        Some(t) => chars_of(t.as_str()),
        None => return None,
    };
    match strip_optional_lambda_parameter_syntax(&text) {
        Some(inner) => Some((inner, true)),
        None => Some((text, false)),
    }
}

/// Whether `x` is among `v`.
fn contains_chars(v: &Vec<Vec<char>>, x: &[char]) -> (r: bool)
    ensures
        r == char_vecs(v@).contains(x@),
{
    let mut i: usize = 0;
    while i < v.len()
        invariant
            i <= v@.len(),
            forall|j: int| 0 <= j < i ==> char_vecs(v@)[j] != x@,
        decreases v.len() - i,
    {
        if chars_eq(&v[i], x) {
            assert(char_vecs(v@)[i as int] == x@);
            return true;
        }
        i = i + 1;
    }
    false
}

impl Binder {
    /// A range endpoint that is a bare or qualified name, number or identifier.
    fn try_parse_simple_reference_fragment(&self, node: &GreenNode) -> (r: Option<(ParsedQualifier, Vec<char>)>)
        ensures
            match r {
                Some(p) => simple_fragment_spec(self.env(), *node) == Some((p.0.model(), p.1@)),
                None => simple_fragment_spec(self.env(), *node) is None,
            },
    {
        if node.kind == SyntaxKind::IdentifierExpr || node.kind == SyntaxKind::QuotedIdentifierExpr
            || node.kind == SyntaxKind::NumberLiteralExpr {
            match first_token_text(node) {
                Some(t) => Some((
                    ParsedQualifier {
                        raw: self.context.sheet_id.clone(),
                        sheet_id: self.context.sheet_id.clone(),
                        external_target_id: None,
                        is_external: false,
                        explicit: false,
                    },
                    chars_of(t.as_str()),
                )),
                None => None,
            }
        } else if node.kind == SyntaxKind::QualifiedReferenceExpr {
            let qt = match first_token_text(node) {
                Some(t) => t,
                None => return None,
            };
            let k = match first_node_position(node) {
                Some(k) => k,
                None => return None,
            };
            match &node.children[k] {
                GreenChild::Node(target) => {
                    if target.kind == SyntaxKind::IdentifierExpr || target.kind == SyntaxKind::QuotedIdentifierExpr
                        || target.kind == SyntaxKind::NumberLiteralExpr {
                        match first_token_text(target) {
                            Some(t) => Some((parse_reference_qualifier(&chars_of(qt.as_str())), chars_of(t.as_str()))),
                            None => None,
                        }
                    } else {
                        None
                    }
                },
                GreenChild::Token(_) => None,
            }
        } else {
            None
        }
    }

    /// Both range endpoints as fragments, sharing an explicit qualifier.
    fn harmonize_simple_reference_fragments(&self, left: &GreenNode, right: &GreenNode) -> (r: Option<((ParsedQualifier, Vec<char>), (ParsedQualifier, Vec<char>))>)
        ensures
            match r {
                Some(p) => harmonize_spec(self.env(), *left, *right) == Some(((p.0.0.model(), p.0.1@), (p.1.0.model(), p.1.1@))),
                None => harmonize_spec(self.env(), *left, *right) is None,
            },
    {
        let l = match self.try_parse_simple_reference_fragment(left) {
            Some(x) => x,
            None => return None,
        };
        let r = match self.try_parse_simple_reference_fragment(right) {
            Some(x) => x,
            None => return None,
        };
        if l.0.is_external || r.0.is_external {
            if l.0.raw == r.0.raw { Some((l, r)) } else { None }
        } else if l.0.raw == r.0.raw {
            Some((l, r))
        } else if l.0.explicit && !r.0.explicit {
            let q = l.0.duplicate();
            Some((l, (q, r.1)))
        } else if !l.0.explicit && r.0.explicit {
            let q = r.0.duplicate();
            Some(((q, l.1), r))
        } else {
            None
        }
    }

    /// A range between two simple endpoints.
    fn try_bind_simple_reference_range(&self, left: &GreenNode, right: &GreenNode) -> (r: Option<NormalizedReference>)
        ensures
            match r {
                Some(x) => simple_range_spec(self.env(), *left, *right) == Some(x.model()),
                None => simple_range_spec(self.env(), *left, *right) is None,
            },
    {
        let (l, r) = match self.harmonize_simple_reference_fragments(left, right) {
            Some(p) => p,
            None => return None,
        };
        let ch = self.channel;
        if let (Some(a), Some(b)) = (parse_row_reference(&l.1, ch), parse_row_reference(&r.1, ch)) {
            let lo = if a <= b { a } else { b };
            let hi = if a >= b { a } else { b };
            return Some(NormalizedReference::WholeRow(WholeRowRef {
                workbook_id: self.context.workbook_id.clone(),
                sheet_id: l.0.sheet_id.clone(),
                row_start: lo,
                row_count: span_count_of(lo, hi),
                address_mode: AddressMode { row_absolute: false, col_absolute: false },
            }));
        }
        if let (Some(a), Some(b)) = (parse_column_reference(&l.1, ch), parse_column_reference(&r.1, ch)) {
            let lo = if a <= b { a } else { b };
            let hi = if a >= b { a } else { b };
            return Some(NormalizedReference::WholeColumn(WholeColumnRef {
                workbook_id: self.context.workbook_id.clone(),
                sheet_id: l.0.sheet_id.clone(),
                col_start: lo,
                col_count: span_count_of(lo, hi),
                address_mode: AddressMode { row_absolute: false, col_absolute: false },
            }));
        }
        let wb = &self.context.workbook_id;
        let start = parse_cell_reference(&l.1, &l.0.sheet_id, wb, self.context.caller_row, self.context.caller_col, ch);
        let end = parse_cell_reference(&r.1, &r.0.sheet_id, wb, self.context.caller_row, self.context.caller_col, ch);
        match (start, end) {
            (Some(s), Some(e)) => {
                if s.workbook_id == e.workbook_id && s.sheet_id == e.sheet_id {
                    Some(NormalizedReference::Area(area_between_cells(&s.workbook_id, &s.sheet_id, s.coord, e.coord,
                        s.caller_anchor_used || e.caller_anchor_used)))
                } else {
                    None
                }
            },
            _ => None,
        }
    }
}

impl Binder {
    /// Binds one expression node.
    pub(crate) fn bind_expr(&mut self, node: &GreenNode) -> (r: BoundExpr)
        requires
            tree_wf(*node),
        ensures
            final(self).env() == old(self).env(),
            seeds_ok(old(self).state()) ==> seeds_ok(final(self).state()),
            final(self).state().helpers == old(self).state().helpers,
            final(self).state() == bind_expr_spec(old(self).env(), old(self).state(), *node).0,
            r.model() == bind_expr_spec(old(self).env(), old(self).state(), *node).1,
        decreases node, 3int, 0int,
    {
        match node.kind {
            SyntaxKind::FormulaRoot | SyntaxKind::GroupingExpr => match first_node_position(node) {
                Some(k) => self.bind_child(node, k),
                None => BoundExpr::OmittedArgument,
            },
            SyntaxKind::NumberLiteralExpr => BoundExpr::NumberLiteral(string_of(&text_or_empty(first_token_text(node)))),
            SyntaxKind::StringLiteralExpr => BoundExpr::StringLiteral(string_of(&text_or_empty(first_token_text(node)))),
            SyntaxKind::ArrayLiteralExpr => self.bind_array_literal(node),
            SyntaxKind::OmittedArgExpr => BoundExpr::OmittedArgument,
            SyntaxKind::IdentifierExpr | SyntaxKind::QuotedIdentifierExpr => {
                let text = text_or_empty(first_token_text(node));
                self.bind_identifier(&text, node.span)
            },
            SyntaxKind::QualifiedReferenceExpr => self.bind_qualified_reference(node),
            SyntaxKind::RangeExpr => self.bind_range(node),
            SyntaxKind::UnionExpr | SyntaxKind::IntersectionExpr => self.bind_reference_pair(node),
            SyntaxKind::PrefixExpr | SyntaxKind::PostfixExpr => self.bind_affix(node),
            SyntaxKind::BinaryExpr => self.bind_binary(node),
            SyntaxKind::CallExpr => self.bind_call(node),
            SyntaxKind::InvokeExpr => self.bind_invoke(node),
            SyntaxKind::MissingExpr => {
                self.push_diag(string_of(&chars_of("missing expression cannot be bound")), node.span);
                let empty: Vec<char> = Vec::new();
                atom_expr(error_reference("#PARSE!", &empty))
            },
            SyntaxKind::ArgumentList => {
                self.push_diag(string_of(&chars_of("argument list is not a standalone expression")), node.span);
                let empty: Vec<char> = Vec::new();
                atom_expr(error_reference("#ARG!", &empty))
            },
        }
    }

    /// Binds the node child at position `k`, if it is one.
    fn bind_child(&mut self, node: &GreenNode, k: usize) -> (r: BoundExpr)
        requires
            tree_wf(*node),
        ensures
            final(self).env() == old(self).env(),
            seeds_ok(old(self).state()) ==> seeds_ok(final(self).state()),
            final(self).state().helpers == old(self).state().helpers,
            final(self).state() == bind_child_spec(old(self).env(), old(self).state(), *node, k as int).0,
            r.model() == bind_child_spec(old(self).env(), old(self).state(), *node, k as int).1,
        decreases node, 1int, 0int,
    {
        if k < node.children.len() {
            match &node.children[k] {
                GreenChild::Node(c) => {
                    proof {
                        lemma_child_smaller(*node, k as int);
                    }
                    return self.bind_expr(c);
                },
                GreenChild::Token(_) => {},
            }
        }
        BoundExpr::OmittedArgument
    }

    /// Array constants: node children fill the current row, `;` starts a new one.
    fn bind_array_literal(&mut self, node: &GreenNode) -> (r: BoundExpr)
        requires
            tree_wf(*node),
            node.kind == SyntaxKind::ArrayLiteralExpr,
        ensures
            final(self).env() == old(self).env(),
            seeds_ok(old(self).state()) ==> seeds_ok(final(self).state()),
            final(self).state().helpers == old(self).state().helpers,
            final(self).state() == bind_expr_spec(old(self).env(), old(self).state(), *node).0,
            r.model() == bind_expr_spec(old(self).env(), old(self).state(), *node).1,
        decreases node, 2int, 0int,
    {
        let ghost env = self.env();
        let ghost st0 = self.state();
        let mut done: Vec<Vec<BoundExpr>> = Vec::new();
        let mut cur: Vec<BoundExpr> = Vec::new();
        let mut saw = false;
        let mut i: usize = 0;
        assert(expr_models(cur@) =~= Seq::<BoundExprModel>::empty());
        assert(row_models(done@).push(expr_models(cur@)) =~= seq![Seq::<BoundExprModel>::empty()]);
        while i < node.children.len()
            invariant
                i <= node.children@.len(),
                tree_wf(*node),
                self.env() == env,
                self.state().helpers == st0.helpers,
                seeds_ok(st0) ==> seeds_ok(self.state()),
                fold_array_spec(env, st0, *node, 0, seq![Seq::empty()], false)
                    == fold_array_spec(env, self.state(), *node, i as int, row_models(done@).push(expr_models(cur@)), saw),
            decreases node.children.len() - i,
        {
            let ghost rows = row_models(done@).push(expr_models(cur@));
            match &node.children[i] {
                GreenChild::Node(c) => {
                    proof {
                        lemma_child_smaller(*node, i as int);
                    }
                    let e = self.bind_expr(c);
                    let l = array_literal_contains_inline_lambda_call(&e);
                    saw = saw || l;
                    let ghost em = e.model();
                    let ghost prev = cur@;
                    cur.push(e);
                    assert(expr_models(cur@) =~= expr_models(prev).push(em));
                    assert(row_models(done@).push(expr_models(cur@)) =~= rows.update(rows.len() - 1, rows.last().push(em)));
                },
                GreenChild::Token(t) => {
                    if t.kind == TokenKind::Semicolon {
                        let ghost prev = done@;
                        done.push(cur);
                        cur = Vec::new();
                        assert(row_models(done@) =~= row_models(prev).push(rows.last()));
                        assert(expr_models(cur@) =~= Seq::<BoundExprModel>::empty());
                        assert(row_models(done@).push(expr_models(cur@)) =~= rows.push(Seq::empty()));
                    }
                },
            }
            i = i + 1;
        }
        let ghost rows = row_models(done@).push(expr_models(cur@));
        done.push(cur);
        assert(row_models(done@) =~= rows);
        if saw {
            self.push_diag(string_of(&chars_of("LAMBDA cannot appear inside array constants")), node.span);
        }
        BoundExpr::ArrayLiteral(done)
    }

    /// Binds every node child of `parent`, in order.
    fn bind_args(&mut self, parent: &GreenNode) -> (r: Vec<BoundExpr>)
        requires
            tree_wf(*parent),
        ensures
            final(self).env() == old(self).env(),
            seeds_ok(old(self).state()) ==> seeds_ok(final(self).state()),
            final(self).state().helpers == old(self).state().helpers,
            final(self).state() == fold_args_spec(old(self).env(), old(self).state(), *parent, 0, Seq::empty()).0,
            expr_models(r@) == fold_args_spec(old(self).env(), old(self).state(), *parent, 0, Seq::empty()).1,
        decreases parent, 1int, 0int,
    {
        let ghost env = self.env();
        let ghost st0 = self.state();
        let mut args: Vec<BoundExpr> = Vec::new();
        let mut i: usize = 0;
        assert(expr_models(args@) =~= Seq::<BoundExprModel>::empty());
        while i < parent.children.len()
            invariant
                i <= parent.children@.len(),
                tree_wf(*parent),
                self.env() == env,
                self.state().helpers == st0.helpers,
                seeds_ok(st0) ==> seeds_ok(self.state()),
                fold_args_spec(env, st0, *parent, 0, Seq::empty())
                    == fold_args_spec(env, self.state(), *parent, i as int, expr_models(args@)),
            decreases parent.children.len() - i,
        {
            match &parent.children[i] {
                GreenChild::Node(c) => {
                    proof {
                        lemma_child_smaller(*parent, i as int);
                    }
                    let e = self.bind_expr(c);
                    let ghost em = e.model();
                    let ghost prev = args@;
                    args.push(e);
                    assert(expr_models(args@) =~= expr_models(prev).push(em));
                },
                GreenChild::Token(_) => {},
            }
            i = i + 1;
        }
        args
    }

    /// Prefix `@`, `-`, `+` and postfix `#`, `%`.
    fn bind_affix(&mut self, node: &GreenNode) -> (r: BoundExpr)
        requires
            tree_wf(*node),
            node.kind == SyntaxKind::PrefixExpr || node.kind == SyntaxKind::PostfixExpr,
        ensures
            final(self).env() == old(self).env(),
            seeds_ok(old(self).state()) ==> seeds_ok(final(self).state()),
            final(self).state().helpers == old(self).state().helpers,
            final(self).state() == bind_affix_spec(old(self).env(), old(self).state(), *node).0,
            r.model() == bind_affix_spec(old(self).env(), old(self).state(), *node).1,
        decreases node, 2int, 0int,
    {
        let k = match first_node_position(node) {
            Some(k) => k,
            None => return BoundExpr::OmittedArgument,
        };
        let bound = self.bind_child(node, k);
        if node.kind == SyntaxKind::PrefixExpr {
            if has_token(node, "@") {
                BoundExpr::ImplicitIntersection(Box::new(bound))
            } else if has_token(node, "-") {
                BoundExpr::Unary { op: UnaryOp::Negate, expr: Box::new(bound) }
            } else if has_token(node, "+") {
                BoundExpr::Unary { op: UnaryOp::Plus, expr: Box::new(bound) }
            } else {
                self.push_diag(string_of(&chars_of("unsupported prefix operator")), node.span);
                bound
            }
        } else if has_token(node, "#") {
            match bound {
                BoundExpr::Reference(r) => BoundExpr::Reference(ReferenceExpr::Spill { anchor: Box::new(r) }),
                other => {
                    self.push_diag(string_of(&chars_of("spill suffix applied to non-reference expression")), node.span);
                    other
                },
            }
        } else if has_token(node, "%") {
            BoundExpr::Unary { op: UnaryOp::Percent, expr: Box::new(bound) }
        } else {
            self.push_diag(string_of(&chars_of("unsupported postfix operator")), node.span);
            bound
        }
    }

    fn bind_binary(&mut self, node: &GreenNode) -> (r: BoundExpr)
        requires
            tree_wf(*node),
            node.kind == SyntaxKind::BinaryExpr,
        ensures
            final(self).env() == old(self).env(),
            seeds_ok(old(self).state()) ==> seeds_ok(final(self).state()),
            final(self).state().helpers == old(self).state().helpers,
            final(self).state() == bind_binary_spec(old(self).env(), old(self).state(), *node).0,
            r.model() == bind_binary_spec(old(self).env(), old(self).state(), *node).1,
        decreases node, 2int, 0int,
    {
        let lk = match first_node_position(node) {
            Some(k) => k,
            None => return BoundExpr::OmittedArgument,
        };
        let rk = match second_node_position(node) {
            Some(k) => k,
            None => return BoundExpr::OmittedArgument,
        };
        let left = self.bind_child(node, lk);
        let right = self.bind_child(node, rk);
        BoundExpr::Binary { op: binary_op(node), left: Box::new(left), right: Box::new(right) }
    }

    fn range_error(&mut self, node: &GreenNode) -> (r: BoundExpr)
        ensures
            final(self).env() == old(self).env(),
            final(self).state() == with_diag(old(self).state(), "range operands did not both bind as references"@, node.span),
            r.model() == atom(error_ref("#REF!"@, "range"@)),
    {
        self.push_diag(string_of(&chars_of("range operands did not both bind as references")), node.span);
        atom_expr(error_reference("#REF!", &chars_of("range")))
    }

    /// A range: simple endpoints bind directly; two cells of one sheet become
    /// an area; other references a range expression; anything else `#REF!`.
    fn bind_range(&mut self, node: &GreenNode) -> (r: BoundExpr)
        requires
            tree_wf(*node),
            node.kind == SyntaxKind::RangeExpr,
        ensures
            final(self).env() == old(self).env(),
            seeds_ok(old(self).state()) ==> seeds_ok(final(self).state()),
            final(self).state().helpers == old(self).state().helpers,
            final(self).state() == bind_range_spec(old(self).env(), old(self).state(), *node).0,
            r.model() == bind_range_spec(old(self).env(), old(self).state(), *node).1,
        decreases node, 2int, 0int,
    {
        let lk = match first_node_position(node) {
            Some(k) => k,
            None => return BoundExpr::OmittedArgument,
        };
        let rk = match second_node_position(node) {
            Some(k) => k,
            None => return BoundExpr::OmittedArgument,
        };
        let simple = match (&node.children[lk], &node.children[rk]) {
            (GreenChild::Node(l), GreenChild::Node(r)) => self.try_bind_simple_reference_range(l, r),
            _ => None,
        };
        if let Some(r) = simple {
            return self.seeded_atom(r);
        }
        let left = self.bind_child(node, lk);
        let right = self.bind_child(node, rk);
        match left {
            BoundExpr::Reference(ReferenceExpr::Atom(NormalizedReference::Cell(s))) => match right {
                BoundExpr::Reference(ReferenceExpr::Atom(NormalizedReference::Cell(e))) => {
                    if s.workbook_id == e.workbook_id && s.sheet_id == e.sheet_id {
                        self.pop_recent_reference_seed();
                        self.pop_recent_reference_seed();
                        let area = NormalizedReference::Area(area_between_cells(&s.workbook_id, &s.sheet_id, s.coord, e.coord,
                            s.caller_anchor_used || e.caller_anchor_used));
                        self.seeded_atom(area)
                    } else {
                        BoundExpr::Reference(ReferenceExpr::Range {
                            start: Box::new(ReferenceExpr::Atom(NormalizedReference::Cell(s))),
                            end: Box::new(ReferenceExpr::Atom(NormalizedReference::Cell(e))),
                        })
                    }
                },
                BoundExpr::Reference(e) => BoundExpr::Reference(ReferenceExpr::Range {
                    start: Box::new(ReferenceExpr::Atom(NormalizedReference::Cell(s))),
                    end: Box::new(e),
                }),
                _ => self.range_error(node),
            },
            BoundExpr::Reference(s) => match right {
                BoundExpr::Reference(e) => BoundExpr::Reference(ReferenceExpr::Range { start: Box::new(s), end: Box::new(e) }),
                _ => self.range_error(node),
            },
            _ => self.range_error(node),
        }
    }

    /// Union and intersection: both operands must bind as references.
    fn bind_reference_pair(&mut self, node: &GreenNode) -> (r: BoundExpr)
        requires
            tree_wf(*node),
            node.kind == SyntaxKind::UnionExpr || node.kind == SyntaxKind::IntersectionExpr,
        ensures
            final(self).env() == old(self).env(),
            seeds_ok(old(self).state()) ==> seeds_ok(final(self).state()),
            final(self).state().helpers == old(self).state().helpers,
            final(self).state() == bind_pair_spec(old(self).env(), old(self).state(), *node).0,
            r.model() == bind_pair_spec(old(self).env(), old(self).state(), *node).1,
        decreases node, 2int, 0int,
    {
        let lk = match first_node_position(node) {
            Some(k) => k,
            None => return BoundExpr::OmittedArgument,
        };
        let rk = match second_node_position(node) {
            Some(k) => k,
            None => return BoundExpr::OmittedArgument,
        };
        let union = node.kind == SyntaxKind::UnionExpr;
        let label: &str = if union { "union" } else { "intersection" };
        let left = self.bind_child(node, lk);
        let right = self.bind_child(node, rk);
        let left_ok = match &left {
            BoundExpr::Reference(_) => true,
            _ => false,
        };
        let right_ok = match &right {
            BoundExpr::Reference(_) => true,
            _ => false,
        };
        if !left_ok {
            let mut m: Vec<char> = Vec::new();
            push_str(&mut m, label);
            push_str(&mut m, " left operand did not bind as reference");
            self.push_diag(string_of(&m), node.span);
        }
        if !right_ok {
            let mut m: Vec<char> = Vec::new();
            push_str(&mut m, label);
            push_str(&mut m, " right operand did not bind as reference");
            self.push_diag(string_of(&m), node.span);
        }
        match left {
            BoundExpr::Reference(l) => match right {
                BoundExpr::Reference(r) => BoundExpr::Reference(
                    if union {
                        ReferenceExpr::Union { left: Box::new(l), right: Box::new(r) }
                    } else {
                        ReferenceExpr::Intersection { left: Box::new(l), right: Box::new(r) }
                    },
                ),
                _ => atom_expr(if union { error_reference("#REF!", &chars_of("union")) } else { error_reference("#NULL!", &chars_of("intersection")) }),
            },
            _ => atom_expr(if union { error_reference("#REF!", &chars_of("union")) } else { error_reference("#NULL!", &chars_of("intersection")) }),
        }
    }

    /// An invocation `callee(args)`.
    fn bind_invoke(&mut self, node: &GreenNode) -> (r: BoundExpr)
        requires
            tree_wf(*node),
            node.kind == SyntaxKind::InvokeExpr,
        ensures
            final(self).env() == old(self).env(),
            seeds_ok(old(self).state()) ==> seeds_ok(final(self).state()),
            final(self).state().helpers == old(self).state().helpers,
            final(self).state() == bind_invoke_spec(old(self).env(), old(self).state(), *node).0,
            r.model() == bind_invoke_spec(old(self).env(), old(self).state(), *node).1,
        decreases node, 2int, 0int,
    {
        let lk = match first_node_position(node) {
            Some(k) => k,
            None => return BoundExpr::OmittedArgument,
        };
        let ak = match second_node_position(node) {
            Some(k) => k,
            None => return BoundExpr::OmittedArgument,
        };
        let callee = self.bind_child(node, lk);
        match &node.children[ak] {
            GreenChild::Node(al) => {
                proof {
                    lemma_child_smaller(*node, ak as int);
                }
                let args = self.bind_args(al);
                BoundExpr::Invocation { callee: Box::new(callee), args }
            },
            GreenChild::Token(_) => BoundExpr::Invocation { callee: Box::new(callee), args: Vec::new() },
        }
    }
}

impl Binder {
    /// Position in the catalog of the built-in spelled exactly `name`.
    fn builtin_position(&self, name: &[char]) -> (r: Option<usize>)
        ensures
            match r {
                Some(i) => i < self.builtins@.len() && builtin_lookup(self.env(), name@) == Some(self.builtins@[i as int]),
                None => builtin_lookup(self.env(), name@) is None,
            },
    {
        let ghost p = builtin_pred(name@);
        let mut i: usize = 0;
        while i < self.builtins.len()
            invariant
                i <= self.builtins@.len(),
                p == builtin_pred(name@),
                forall|j: int| 0 <= j < i ==> !p(#[trigger] self.builtins@[j]),
            decreases self.builtins.len() - i,
        {
            if chars_eq(&chars_of(self.builtins[i].surface_name.as_str()), name) {
                proof { lemma_first_where_at(self.builtins@, p, i as int); }
                return Some(i);
            }
            i = i + 1;
        }
        proof { lemma_first_where_none(self.builtins@, p); }
        None
    }

    /// A qualified reference `qualifier!target`.
    fn bind_qualified_reference(&mut self, node: &GreenNode) -> (r: BoundExpr)
        requires
            tree_wf(*node),
            node.kind == SyntaxKind::QualifiedReferenceExpr,
        ensures
            final(self).env() == old(self).env(),
            seeds_ok(old(self).state()) ==> seeds_ok(final(self).state()),
            final(self).state().helpers == old(self).state().helpers,
            final(self).state() == bind_qualified_spec(old(self).env(), old(self).state(), *node).0,
            r.model() == bind_qualified_spec(old(self).env(), old(self).state(), *node).1,
    {
        let qtext = text_or_empty(qualifier_token_from_pos(node, 0));
        let q = parse_reference_qualifier(&qtext);
        let k = match first_node_position(node) {
            Some(k) => k,
            None => return BoundExpr::OmittedArgument,
        };
        let target = match &node.children[k] {
            GreenChild::Node(t) => t,
            GreenChild::Token(_) => return BoundExpr::OmittedArgument,
        };
        if target.kind == SyntaxKind::IdentifierExpr || target.kind == SyntaxKind::QuotedIdentifierExpr {
            let text = text_or_empty(first_token_text(target));
            if q.is_external {
                let mut summary: Vec<char> = Vec::new();
                push_string(&mut summary, &q.raw);
                push_str(&mut summary, "!");
                push_chars(&mut summary, &text);
                let r = NormalizedReference::External(ExternalRef {
                    external_target_id: match &q.external_target_id {
                        Some(e) => e.clone(),
                        None => q.raw.clone(),
                    },
                    sheet_selector_summary: q.sheet_id.clone(),
                    capability_requirement: string_of(&chars_of("external_reference")),
                    external_reference_class: string_of(&chars_of("workbook_sheet_qualified")),
                    target_summary: string_of(&summary),
                });
                self.push_capability(string_of(&chars_of("external_reference")));
                return self.seeded_atom(r);
            }
            if let Some(s) = self.bind_structured_reference_text_with_sheet(&text, &q.sheet_id, node.span) {
                return self.seeded_atom(s);
            }
            if let Some(c) = parse_cell_reference(&text, &q.sheet_id, &self.context.workbook_id, self.context.caller_row,
                self.context.caller_col, self.channel) {
                return self.seeded_atom(NormalizedReference::Cell(c));
            }
            let mut name: Vec<char> = Vec::new();
            push_string(&mut name, &q.sheet_id);
            push_str(&mut name, "!");
            push_chars(&mut name, &text);
            let r = NormalizedReference::Name(NameRef {
                name: string_of(&name),
                workbook_id: self.context.workbook_id.clone(),
                sheet_id: q.sheet_id.clone(),
                kind: NameKind::ReferenceLike,
                caller_context_dependent: false,
            });
            self.seeded_atom(r)
        } else {
            self.push_diag(string_of(&chars_of("qualified reference target did not bind as identifier")), node.span);
            atom_expr(NormalizedReference::Error(ErrorRef { error_class: string_of(&chars_of("#REF!")), source_text: q.raw.clone() }))
        }
    }

    /// `LET(name1, value1, ..., body)`.
    fn bind_let_args(&mut self, al: &GreenNode, last: usize) -> (r: Vec<BoundExpr>)
        requires
            tree_wf(*al),
        ensures
            final(self).env() == old(self).env(),
            seeds_ok(old(self).state()) ==> seeds_ok(final(self).state()),
            final(self).state().helpers == old(self).state().helpers,
            final(self).state() == fold_let_spec(old(self).env(), old(self).state(), *al, 0, 0, last as nat, Seq::empty(), 0,
                Seq::empty()).0,
            expr_models(r@) == fold_let_spec(old(self).env(), old(self).state(), *al, 0, 0, last as nat, Seq::empty(), 0,
                Seq::empty()).1,
        decreases al, 1int, 0int,
    {
        let ghost env = self.env();
        let ghost st0 = self.state();
        let mut args: Vec<BoundExpr> = Vec::new();
        let mut seen: Vec<Vec<char>> = Vec::new();
        let mut pushed: usize = 0;
        let mut pos: usize = 0;
        let mut i: usize = 0;
        assert(expr_models(args@) =~= Seq::<BoundExprModel>::empty());
        assert(char_vecs(seen@) =~= Seq::<Seq<char>>::empty());
        assert(self.state().helpers.subrange(0, st0.helpers.len() as int) =~= st0.helpers);
        while i < al.children.len()
            invariant
                i <= al.children@.len(),
                pushed <= pos <= i,
                tree_wf(*al),
                self.env() == env,
                seeds_ok(st0) ==> seeds_ok(self.state()),
                self.state().helpers.len() == st0.helpers.len() + pushed,
                self.state().helpers.subrange(0, st0.helpers.len() as int) == st0.helpers,
                fold_let_spec(env, st0, *al, 0, 0, last as nat, Seq::empty(), 0, Seq::empty())
                    == fold_let_spec(env, self.state(), *al, i as int, pos as nat, last as nat, char_vecs(seen@), pushed as nat,
                    expr_models(args@)),
            decreases al.children.len() - i,
        {
            match &al.children[i] {
                GreenChild::Node(c) => {
                    proof {
                        lemma_child_smaller(*al, i as int);
                    }
                    let ghost prev = args@;
                    if pos < last && pos % 2 == 0 {
                        match try_helper_parameter_name(c) {
                            Some(name) => {
                                let norm = to_upper(&name);
                                if !contains_chars(&seen, &norm) {
                                    let ghost hs = self.state().helpers;
                                    self.push_helper(string_of(&name));
                                    assert(self.state().helpers.subrange(0, st0.helpers.len() as int) =~= hs.subrange(0, st0.helpers.len() as int));
                                    let ghost prev_seen = seen@;
                                    seen.push(norm);
                                    assert(char_vecs(seen@) =~= char_vecs(prev_seen).push(upper_seq(name@)));
                                    pushed = pushed + 1;
                                } else {
                                    let mut m: Vec<char> = Vec::new();
                                    push_str(&mut m, "duplicate LET binding name '");
                                    push_chars(&mut m, &name);
                                    push_str(&mut m, "'");
                                    self.push_diag(string_of(&m), c.span);
                                }
                                let h = BoundExpr::HelperParameterName(string_of(&name));
                                let ghost hm = h.model();
                                args.push(h);
                                assert(expr_models(args@) =~= expr_models(prev).push(hm));
                            },
                            None => {
                                self.push_diag(string_of(&chars_of("LET binding name did not bind as helper parameter")), c.span);
                                let e = self.bind_expr(c);
                                let ghost em = e.model();
                                args.push(e);
                                assert(expr_models(args@) =~= expr_models(prev).push(em));
                            },
                        }
                    } else {
                        let e = self.bind_expr(c);
                        let ghost em = e.model();
                        args.push(e);
                        assert(expr_models(args@) =~= expr_models(prev).push(em));
                    }
                    pos = pos + 1;
                },
                GreenChild::Token(_) => {},
            }
            i = i + 1;
        }
        self.pop_helpers(pushed);
        assert(self.state().helpers =~= st0.helpers);
        args
    }

    /// `LAMBDA(p1, ..., body)`.
    fn bind_lambda_args(&mut self, al: &GreenNode, body: usize) -> (r: Vec<BoundExpr>)
        requires
            tree_wf(*al),
        ensures
            final(self).env() == old(self).env(),
            seeds_ok(old(self).state()) ==> seeds_ok(final(self).state()),
            final(self).state().helpers == old(self).state().helpers,
            final(self).state() == fold_lambda_spec(old(self).env(), old(self).state(), *al, 0, 0, body as nat, Seq::empty(), 0,
                false, Seq::empty()).0,
            expr_models(r@) == fold_lambda_spec(old(self).env(), old(self).state(), *al, 0, 0, body as nat, Seq::empty(), 0,
                false, Seq::empty()).1,
        decreases al, 1int, 0int,
    {
        let ghost env = self.env();
        let ghost st0 = self.state();
        let mut args: Vec<BoundExpr> = Vec::new();
        let mut seen: Vec<Vec<char>> = Vec::new();
        let mut pushed: usize = 0;
        let mut pos: usize = 0;
        let mut saw_optional = false;
        let mut i: usize = 0;
        assert(expr_models(args@) =~= Seq::<BoundExprModel>::empty());
        assert(char_vecs(seen@) =~= Seq::<Seq<char>>::empty());
        assert(self.state().helpers.subrange(0, st0.helpers.len() as int) =~= st0.helpers);
        while i < al.children.len()
            invariant
                i <= al.children@.len(),
                pushed <= pos <= i,
                tree_wf(*al),
                self.env() == env,
                seeds_ok(st0) ==> seeds_ok(self.state()),
                self.state().helpers.len() == st0.helpers.len() + pushed,
                self.state().helpers.subrange(0, st0.helpers.len() as int) == st0.helpers,
                fold_lambda_spec(env, st0, *al, 0, 0, body as nat, Seq::empty(), 0, false, Seq::empty())
                    == fold_lambda_spec(env, self.state(), *al, i as int, pos as nat, body as nat, char_vecs(seen@),
                    pushed as nat, saw_optional, expr_models(args@)),
            decreases al.children.len() - i,
        {
            match &al.children[i] {
                GreenChild::Node(c) => {
                    proof {
                        lemma_child_smaller(*al, i as int);
                    }
                    let ghost prev = args@;
                    if pos < body {
                        match try_lambda_parameter(c) {
                            Some((name, optional)) => {
                                let norm = to_upper(&name);
                                if !contains_chars(&seen, &norm) {
                                    if !optional && saw_optional {
                                        let mut m: Vec<char> = Vec::new();
                                        push_str(&mut m, "required LAMBDA parameter '");
                                        push_chars(&mut m, &name);
                                        push_str(&mut m, "' cannot follow optional parameter");
                                        self.push_diag(string_of(&m), c.span);
                                    }
                                    let ghost hs = self.state().helpers;
                                    self.push_helper(string_of(&name));
                                    assert(self.state().helpers.subrange(0, st0.helpers.len() as int) =~= hs.subrange(0, st0.helpers.len() as int));
                                    let ghost prev_seen = seen@;
                                    seen.push(norm);
                                    assert(char_vecs(seen@) =~= char_vecs(prev_seen).push(upper_seq(name@)));
                                    pushed = pushed + 1;
                                    saw_optional = saw_optional || optional;
                                } else {
                                    let mut m: Vec<char> = Vec::new();
                                    push_str(&mut m, "duplicate LAMBDA parameter name '");
                                    push_chars(&mut m, &name);
                                    push_str(&mut m, "'");
                                    self.push_diag(string_of(&m), c.span);
                                }
                                let h = if optional {
                                    BoundExpr::HelperOptionalParameterName(string_of(&name))
                                } else {
                                    BoundExpr::HelperParameterName(string_of(&name))
                                };
                                let ghost hm = h.model();
                                args.push(h);
                                assert(expr_models(args@) =~= expr_models(prev).push(hm));
                            },
                            None => {
                                self.push_diag(string_of(&chars_of("LAMBDA parameter did not bind as helper parameter")), c.span);
                                let e = self.bind_expr(c);
                                let ghost em = e.model();
                                args.push(e);
                                assert(expr_models(args@) =~= expr_models(prev).push(em));
                            },
                        }
                    } else {
                        let e = self.bind_expr(c);
                        let ghost em = e.model();
                        args.push(e);
                        assert(expr_models(args@) =~= expr_models(prev).push(em));
                    }
                    pos = pos + 1;
                },
                GreenChild::Token(_) => {},
            }
            i = i + 1;
        }
        self.pop_helpers(pushed);
        assert(self.state().helpers =~= st0.helpers);
        args
    }

    /// The arguments of a call: LET and LAMBDA scope their helper names.
    fn bind_call_args(&mut self, node: &GreenNode, upper: &[char]) -> (r: Vec<BoundExpr>)
        requires
            tree_wf(*node),
        ensures
            final(self).env() == old(self).env(),
            seeds_ok(old(self).state()) ==> seeds_ok(final(self).state()),
            final(self).state().helpers == old(self).state().helpers,
            final(self).state() == bind_call_args_spec(old(self).env(), old(self).state(), *node, upper@).0,
            expr_models(r@) == bind_call_args_spec(old(self).env(), old(self).state(), *node, upper@).1,
        decreases node, 1int, 0int,
    {
        match arglist_position_from(node, 0) {
            None => {
                let v: Vec<BoundExpr> = Vec::new();
                assert(expr_models(v@) =~= Seq::<BoundExprModel>::empty());
                v
            },
            Some(k) => match &node.children[k] {
                GreenChild::Node(al) => {
                    proof {
                        lemma_child_smaller(*node, k as int);
                    }
                    let n = count_nodes_from(al, 0);
                    let last: usize = if n == 0 { 0 } else { n - 1 };
                    if chars_eq(upper, &chars_of("LET")) {
                        self.bind_let_args(al, last)
                    } else if chars_eq(upper, &chars_of("LAMBDA")) {
                        self.bind_lambda_args(al, last)
                    } else {
                        self.bind_args(al)
                    }
                },
                GreenChild::Token(_) => {
                    let v: Vec<BoundExpr> = Vec::new();
                    assert(expr_models(v@) =~= Seq::<BoundExprModel>::empty());
                    v
                },
            },
        }
    }

    /// A call `NAME(args)`.
    fn bind_call(&mut self, node: &GreenNode) -> (r: BoundExpr)
        requires
            tree_wf(*node),
            node.kind == SyntaxKind::CallExpr,
        ensures
            final(self).env() == old(self).env(),
            seeds_ok(old(self).state()) ==> seeds_ok(final(self).state()),
            final(self).state().helpers == old(self).state().helpers,
            final(self).state() == bind_call_spec(old(self).env(), old(self).state(), *node).0,
            r.model() == bind_call_spec(old(self).env(), old(self).state(), *node).1,
        decreases node, 2int, 0int,
    {
        let fname = text_or_empty(first_token_text(node));
        let upper = to_upper(&fname);
        let args = self.bind_call_args(node, &upper);
        let meta = self.builtin_position(&upper);
        let invocation = (self.is_helper_local_name(&fname) && meta.is_none()) || self.is_context_name(&fname);
        if !invocation {
            if let Some(mi) = meta {
                if let Some(m) = builtin_function_call_authoring_diagnostic(&upper, &self.builtins[mi], &args) {
                    self.push_diag(m, node.span);
                }
            }
        }
        if invocation {
            let callee = self.bind_identifier_expr_from_name(&fname);
            BoundExpr::Invocation { callee: Box::new(callee), args }
        } else {
            BoundExpr::FunctionCall { function_name: string_of(&upper), args }
        }
    }
}

} // verus!
