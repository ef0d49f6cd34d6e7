//! Formula drill: the light expression reading behind a drill trace, and the
//! vocabulary of drill nodes, argument roles and argument names.
//!
//! The reader splits formula text at a top-level `/`, reads `NAME(args)`
//! calls with top-level commas between arguments, and classifies what is
//! left as a string, logical, number or name. Positions in spans count UTF-8
//! bytes of the formula text; positions handed between the scanners below
//! count characters.

use vstd::prelude::*;

use crate::offsets::{byte_len, byte_offset, char_width, char_width_of, lemma_byte_len_concat, lemma_byte_offset_bound};
use crate::source::TextSpan;
use crate::text::{
    all_digits, chars_eq, chars_eq_ignore_case, chars_of, char_is_alnum, char_is_digit, char_is_ws,
    decimal, eq_ignore_case, first_index_of, find_char, is_alnum, is_digit, is_ws, lead_ws,
    lead_ws_count, lemma_first_index_of, lower_seq, push_decimal, slice_chars,
    string_of, to_lower, trail_ws, trail_ws_count, trim, trim_chars,
};

verus! {

#[derive(Debug, Clone, Copy, PartialEq, Eq)]
pub enum FormulaDrillNodeKind {
    FormulaRoot,
    FunctionCall,
    OperatorCall,
    Argument,
    Literal,
    NameReference,
    LetBinding,
    LambdaBinding,
    ArrayLiteral,
    SpillRange,
    RichValue,
    Error,
    DiagnosticPlaceholder,
}

#[derive(Debug, Clone, Copy, PartialEq, Eq)]
pub enum FormulaDrillEvaluationState {
    Pending,
    Bound,
    Evaluated,
    Skipped,
    ShortCircuited,
    Omitted,
    Blocked,
    Error,
}

#[derive(Debug, Clone, Copy, PartialEq, Eq)]
pub enum FormulaDrillBranchDisposition {
    Taken,
    Skipped,
    NotReached,
    ErrorWhileChoosing,
    ErrorWhileEvaluatingBranch,
}

/// The part an argument plays in its call.
#[derive(Debug, Clone, PartialEq, Eq)]
pub enum FormulaArgumentRole {
    LogicalTest,
    ValueIfTrue,
    ValueIfFalse,
    Number,
    Text,
    NameSlot,
    ValueSlot,
    BodyExpression,
    Array,
    Rows,
    Columns,
    Step,
    Other(String),
}

pub enum FormulaArgumentRoleModel {
    LogicalTest,
    ValueIfTrue,
    ValueIfFalse,
    Number,
    Text,
    NameSlot,
    ValueSlot,
    BodyExpression,
    Array,
    Rows,
    Columns,
    Step,
    Other(Seq<char>),
}

impl FormulaArgumentRole {
    pub open spec fn model(&self) -> FormulaArgumentRoleModel {
        match self {
            FormulaArgumentRole::LogicalTest => FormulaArgumentRoleModel::LogicalTest,
            FormulaArgumentRole::ValueIfTrue => FormulaArgumentRoleModel::ValueIfTrue,
            FormulaArgumentRole::ValueIfFalse => FormulaArgumentRoleModel::ValueIfFalse,
            FormulaArgumentRole::Number => FormulaArgumentRoleModel::Number,
            FormulaArgumentRole::Text => FormulaArgumentRoleModel::Text,
            FormulaArgumentRole::NameSlot => FormulaArgumentRoleModel::NameSlot,
            FormulaArgumentRole::ValueSlot => FormulaArgumentRoleModel::ValueSlot,
            FormulaArgumentRole::BodyExpression => FormulaArgumentRoleModel::BodyExpression,
            FormulaArgumentRole::Array => FormulaArgumentRoleModel::Array,
            FormulaArgumentRole::Rows => FormulaArgumentRoleModel::Rows,
            FormulaArgumentRole::Columns => FormulaArgumentRoleModel::Columns,
            FormulaArgumentRole::Step => FormulaArgumentRoleModel::Step,
            FormulaArgumentRole::Other(s) => FormulaArgumentRoleModel::Other(s@),
        }
    }
}

#[derive(Debug, Clone, Copy, PartialEq, Eq)]
pub enum FormulaArgumentNameSource {
    NotApplicable,
    OxFuncMetadata,
    OxFmlSpecialForm,
    OrdinalFallback,
}

#[derive(Debug, Clone, PartialEq, Eq, PartialOrd, Ord, Hash)]
pub struct FormulaDrillNodeId(pub String);

#[derive(Debug, Clone, Copy, PartialEq, Eq)]
pub struct FormulaDrillArrayShape {
    pub rows: usize,
    pub cols: usize,
}

#[derive(Debug, Clone, PartialEq, Eq)]
pub struct FormulaDrillValuePreview {
    pub value_kind: String,
    pub array_shape: Option<FormulaDrillArrayShape>,
    pub preview: Vec<String>,
    pub truncated: bool,
    pub rich_value_type_name: Option<String>,
}

#[derive(Debug, Clone, PartialEq)]
pub struct FormulaDrillError {
    pub code: Option<String>,
    pub message: String,
    pub causal_node_id: Option<FormulaDrillNodeId>,
}

#[derive(Debug, Clone, PartialEq, Eq)]
pub struct FormulaDrillDiagnosticLink {
    pub diagnostic_id: String,
    pub node_id: Option<FormulaDrillNodeId>,
    pub source_span: TextSpan,
    pub message: String,
}

#[derive(Debug, Clone, PartialEq, Eq)]
pub struct FormulaDrillProjectionLoss {
    pub node_id: Option<FormulaDrillNodeId>,
    pub loss_kind: String,
    pub message: String,
}

// ---------------------------------------------------------------------------
// Argument names and roles
// ---------------------------------------------------------------------------

/// Number of trailing ASCII digits of `s`.
pub open spec fn trailing_digits(s: Seq<char>) -> nat
    decreases s.len(),
{
    if s.len() > 0 && is_digit(s.last()) {
        1 + trailing_digits(s.drop_last())
    } else {
        0
    }
}

/// The name of the argument at `ordinal` of a repeating parameter: the
/// parameter's name without its trailing digits (or the whole name, if it
/// is all digits), followed by the one-based position.
pub open spec fn repeated_name_spec(base: Seq<char>, ordinal: nat) -> Seq<char> {
    let stem = base.take(base.len() - trailing_digits(base));
    if stem.len() == 0 {
        base + decimal(ordinal + 1)
    } else {
        stem + decimal(ordinal + 1)
    }
}

proof fn lemma_trailing_digits(s: Seq<char>, k: int)
    requires
        0 <= k <= s.len(),
        forall|j: int| s.len() - k <= j < s.len() ==> is_digit(#[trigger] s[j]),
        k == s.len() || !is_digit(s[s.len() - k - 1]),
    ensures
        trailing_digits(s) == k,
    decreases k,
{
    if k > 0 {
        assert forall|j: int| s.drop_last().len() - (k - 1) <= j < s.drop_last().len() implies is_digit(#[trigger] s.drop_last()[j]) by {
            assert(s.drop_last()[j] == s[j]);
        }
        if k - 1 < s.drop_last().len() {
            assert(s.drop_last()[s.drop_last().len() - (k - 1) - 1] == s[s.len() - k - 1]);
        }
        lemma_trailing_digits(s.drop_last(), k - 1);
    }
}

pub fn repeated_argument_name(base: &str, ordinal: usize) -> (r: String)
    requires
        ordinal < usize::MAX,
    ensures
        r@ == repeated_name_spec(base@, ordinal as nat),
{
    let b = chars_of(base);
    let mut k: usize = 0;
    while k < b.len() && char_is_digit(b[b.len() - k - 1])
        invariant
            k <= b@.len(),
            forall|j: int| b@.len() - k <= j < b@.len() ==> is_digit(#[trigger] b@[j]),
        decreases b.len() - k,
    {
        k = k + 1;
    }
    proof { lemma_trailing_digits(b@, k as int); }
    let mut out: Vec<char> = if k == b.len() { slice_chars(&b, 0, b.len()) } else { slice_chars(&b, 0, b.len() - k) };
    push_decimal(&mut out, (ordinal + 1) as u64);
    proof {
        assert(b@.take(b@.len() - k) =~= b@.subrange(0, b@.len() - k));
    }
    string_of(&out)
}

/// The role an argument plays, read from its parameter name without regard
/// to ASCII case.
pub open spec fn argument_role_spec(name: Seq<char>) -> FormulaArgumentRoleModel {
    let l = lower_seq(name);
    if l == "logical_test"@ {
        FormulaArgumentRoleModel::LogicalTest
    } else if l == "value_if_true"@ {
        FormulaArgumentRoleModel::ValueIfTrue
    } else if l == "value_if_false"@ {
        FormulaArgumentRoleModel::ValueIfFalse
    } else if l == "text"@ {
        FormulaArgumentRoleModel::Text
    } else if l == "array"@ {
        FormulaArgumentRoleModel::Array
    } else if l == "rows"@ {
        FormulaArgumentRoleModel::Rows
    } else if l == "columns"@ {
        FormulaArgumentRoleModel::Columns
    } else if l == "step"@ {
        FormulaArgumentRoleModel::Step
    } else if l.len() >= 6 && l.take(6) == "number"@ {
        FormulaArgumentRoleModel::Number
    } else {
        FormulaArgumentRoleModel::Other(name)
    }
}

pub fn argument_role_for_name(name: &str) -> (r: Option<FormulaArgumentRole>)
    ensures
        r is Some,
        r->0.model() == argument_role_spec(name@),
{
    let n = chars_of(name);
    let l = to_lower(&n);
    if chars_eq(&l, &chars_of("logical_test")) {
        Some(FormulaArgumentRole::LogicalTest)
    } else if chars_eq(&l, &chars_of("value_if_true")) {
        Some(FormulaArgumentRole::ValueIfTrue)
    } else if chars_eq(&l, &chars_of("value_if_false")) {
        Some(FormulaArgumentRole::ValueIfFalse)
    } else if chars_eq(&l, &chars_of("text")) {
        Some(FormulaArgumentRole::Text)
    } else if chars_eq(&l, &chars_of("array")) {
        Some(FormulaArgumentRole::Array)
    } else if chars_eq(&l, &chars_of("rows")) {
        Some(FormulaArgumentRole::Rows)
    } else if chars_eq(&l, &chars_of("columns")) {
        Some(FormulaArgumentRole::Columns)
    } else if chars_eq(&l, &chars_of("step")) {
        Some(FormulaArgumentRole::Step)
    } else if l.len() >= 6 && chars_eq(&slice_chars(&l, 0, 6), &chars_of("number")) {
        Some(FormulaArgumentRole::Number)
    } else {
        Some(FormulaArgumentRole::Other(string_of(&n)))
    }
}


// ---------------------------------------------------------------------------
// Number literals
// ---------------------------------------------------------------------------

/// Number of ASCII digits of `s` from position `i` on.
pub open spec fn digit_run(s: Seq<char>, i: int) -> nat
    decreases s.len() - i,
{
    if 0 <= i < s.len() && is_digit(s[i]) {
        1 + digit_run(s, i + 1)
    } else {
        0
    }
}

/// `e` is an exponent: `e`, an optional sign, and at least one digit.
pub open spec fn exponent_syntax(e: Seq<char>) -> bool {
    let k: int = if e.len() > 1 && (e[1] == '+' || e[1] == '-') { 2 } else { 1 };
    e.len() > k && e[0] == 'e' && all_digits(e.skip(k))
}

/// `r` is an unsigned decimal number: digits with at most one point, at
/// least one digit on either side of it, then an optional exponent.
pub open spec fn decimal_syntax(r: Seq<char>) -> bool {
    let d1: nat = digit_run(r, 0);
    let pointed = d1 < r.len() && r[d1 as int] == '.';
    let d2: nat = if pointed { digit_run(r, d1 as int + 1) } else { 0 };
    let digits_ok = if pointed { d1 + d2 > 0 } else { d1 > 0 };
    let rest: int = if pointed { (d1 + 1 + d2) as int } else { d1 as int };
    digits_ok && (rest == r.len() || exponent_syntax(r.skip(rest)))
}

/// `s` reads as a floating-point number the way `f64::from_str` documents
/// its grammar: in ASCII lower case, an optional sign followed by `inf`,
/// `infinity`, `nan` or a decimal number.
pub open spec fn float_syntax(s: Seq<char>) -> bool {
    let l = lower_seq(s);
    let r = if l.len() > 0 && (l[0] == '+' || l[0] == '-') { l.skip(1) } else { l };
    r == "inf"@ || r == "infinity"@ || r == "nan"@ || decimal_syntax(r)
}

proof fn lemma_digit_run(s: Seq<char>, i: int, j: int)
    requires
        0 <= i <= j <= s.len(),
        forall|m: int| i <= m < j ==> is_digit(#[trigger] s[m]),
        j == s.len() || !is_digit(s[j]),
    ensures
        digit_run(s, i) == j - i,
    decreases j - i,
{
    if i < j {
        lemma_digit_run(s, i + 1, j);
    }
}

fn digit_run_at(s: &[char], i: usize) -> (n: usize)
    requires
        i <= s@.len(),
    ensures
        n == digit_run(s@, i as int),
        i + n <= s@.len(),
{
    let mut j: usize = i;
    while j < s.len() && char_is_digit(s[j])
        invariant
            i <= j <= s@.len(),
            forall|m: int| i <= m < j ==> is_digit(#[trigger] s@[m]),
        decreases s.len() - j,
    {
        j = j + 1;
    }
    proof { lemma_digit_run(s@, i as int, j as int); }
    j - i
}

fn all_digit_chars(s: &[char], from: usize) -> (r: bool)
    requires
        from <= s@.len(),
    ensures
        r == all_digits(s@.skip(from as int)),
{
    let mut j: usize = from;
    while j < s.len()
        invariant
            from <= j <= s@.len(),
            forall|m: int| from <= m < j ==> is_digit(#[trigger] s@[m]),
        decreases s.len() - j,
    {
        if !char_is_digit(s[j]) {
            assert(s@.skip(from as int)[j - from] == s@[j as int]);
            return false;
        }
        j = j + 1;
    }
    assert forall|m: int| 0 <= m < s@.skip(from as int).len() implies is_digit(#[trigger] s@.skip(from as int)[m]) by {
        assert(s@.skip(from as int)[m] == s@[from + m]);
    }
    true
}

fn exponent_at(r: &[char], from: usize) -> (b: bool)
    requires
        from <= r@.len(),
    ensures
        b == exponent_syntax(r@.skip(from as int)),
{
    let ghost e = r@.skip(from as int);
    let n = r.len() - from;
    let k: usize = if n > 1 && (r[from + 1] == '+' || r[from + 1] == '-') { 2 } else { 1 };
    assert(n > 1 ==> e[1] == r@[from + 1]);
    if n > k && r[from] == 'e' {
        assert(e[0] == r@[from as int]);
        assert(e.skip(k as int) =~= r@.skip(from + k));
        all_digit_chars(r, from + k)
    } else {
        proof {
            if n > k {
                assert(e[0] == r@[from as int]);
            }
        }
        false
    }
}

fn decimal_at(r: &[char], from: usize) -> (b: bool)
    requires
        from <= r@.len(),
    ensures
        b == decimal_syntax(r@.skip(from as int)),
{
    let ghost t = r@.skip(from as int);
    let _len = r.len();
    let d1 = digit_run_at(r, from);
    proof { lemma_digit_run_shift(r@, from as int, from as int); }
    let pointed = from + d1 < r.len() && r[from + d1] == '.';
    proof {
        if from + d1 < r.len() {
            assert(t[d1 as int] == r@[from + d1]);
        }
    }
    let d2 = if pointed {
        proof { lemma_digit_run_shift(r@, from as int, from + d1 + 1); }
        digit_run_at(r, from + d1 + 1)
    } else {
        0
    };
    let digits_ok = if pointed { d1 + d2 > 0 } else { d1 > 0 };
    let rest: usize = if pointed { d1 + 1 + d2 } else { d1 };
    if !digits_ok {
        return false;
    }
    if from + rest == r.len() {
        return true;
    }
    assert(t.skip(rest as int) =~= r@.skip(from + rest));
    exponent_at(r, from + rest)
}

proof fn lemma_digit_run_shift(s: Seq<char>, from: int, i: int)
    requires
        0 <= from <= i <= s.len(),
    ensures
        digit_run(s.skip(from), i - from) == digit_run(s, i),
    decreases s.len() - i,
{
    if i < s.len() {
        assert(s.skip(from)[i - from] == s[i]);
        lemma_digit_run_shift(s, from, i + 1);
    }
}

/// `s` reads as a floating-point number (see `float_syntax`).
pub fn is_float_literal(s: &[char]) -> (b: bool)
    ensures
        b == float_syntax(s@),
{
    let l = to_lower(s);
    let from: usize = if l.len() > 0 && (l[0] == '+' || l[0] == '-') { 1 } else { 0 };
    let ghost r = if l@.len() > 0 && (l@[0] == '+' || l@[0] == '-') { l@.skip(1) } else { l@ };
    assert(r =~= l@.skip(from as int));
    let rest = slice_chars(&l, from, l.len());
    if chars_eq(&rest, &chars_of("inf")) || chars_eq(&rest, &chars_of("infinity")) || chars_eq(&rest, &chars_of("nan")) {
        return true;
    }
    decimal_at(&l, from)
}

// ---------------------------------------------------------------------------
// Parsed drill expressions
// ---------------------------------------------------------------------------

#[derive(Debug, Clone, Copy, PartialEq, Eq)]
pub enum DrillParsedOperator {
    Divide,
}

impl DrillParsedOperator {
    pub fn label(self) -> (r: &'static str)
        ensures
            r@ == "divide"@,
    {
        match self {
            DrillParsedOperator::Divide => "divide",
        }
    }
}

/// An expression read from formula text, with its byte span and text.
#[derive(Debug, PartialEq)]
pub struct DrillParsedExpr {
    pub span: TextSpan,
    pub text: String,
    pub kind: DrillParsedExprKind,
}

#[derive(Debug, PartialEq)]
pub enum DrillParsedExprKind {
    Function { name: String, args: Vec<DrillParsedArgument>, closed: bool },
    Binary { op: DrillParsedOperator, left: Box<DrillParsedExpr>, right: Box<DrillParsedExpr> },
    Number,
    String,
    Logical(bool),
    Name,
    Missing,
}

/// One argument of a call, with its byte span, text and expression.
#[derive(Debug, PartialEq)]
pub struct DrillParsedArgument {
    pub span: TextSpan,
    pub text: String,
    pub expr: Option<DrillParsedExpr>,
}

pub struct DrillExprModel {
    pub start: nat,
    pub len: nat,
    pub text: Seq<char>,
    pub kind: DrillKindModel,
}

pub enum DrillKindModel {
    Function { name: Seq<char>, args: Seq<DrillArgModel>, closed: bool },
    Binary { op: DrillParsedOperator, left: Box<DrillExprModel>, right: Box<DrillExprModel> },
    Number,
    String,
    Logical(bool),
    Name,
    Missing,
}

pub struct DrillArgModel {
    pub start: nat,
    pub len: nat,
    pub text: Seq<char>,
    pub expr: Option<DrillExprModel>,
}

impl DrillParsedExpr {
    pub open spec fn model(&self) -> DrillExprModel
        decreases self,
    {
        DrillExprModel {
            start: self.span.start as nat,
            len: self.span.len as nat,
            text: self.text@,
            kind: match &self.kind {
                DrillParsedExprKind::Function { name, args, closed } => DrillKindModel::Function {
                    name: name@,
                    args: drill_arg_models(args@),
                    closed: *closed,
                },
                DrillParsedExprKind::Binary { op, left, right } => DrillKindModel::Binary {
                    op: *op,
                    left: Box::new(left.model()),
                    right: Box::new(right.model()),
                },
                DrillParsedExprKind::Number => DrillKindModel::Number,
                DrillParsedExprKind::String => DrillKindModel::String,
                DrillParsedExprKind::Logical(b) => DrillKindModel::Logical(*b),
                DrillParsedExprKind::Name => DrillKindModel::Name,
                DrillParsedExprKind::Missing => DrillKindModel::Missing,
            },
        }
    }
}

impl DrillParsedArgument {
    pub open spec fn model(&self) -> DrillArgModel
        decreases self,
    {
        DrillArgModel {
            start: self.span.start as nat,
            len: self.span.len as nat,
            text: self.text@,
            expr: match &self.expr {
                Some(e) => Some(e.model()),
                None => None,
            },
        }
    }

    /// The argument's expression; every argument the reader makes has one.
    pub fn expr_or_missing(&self) -> (r: &DrillParsedExpr)
        requires
            self.expr is Some,
        ensures
            *r == self.expr->0,
    {
        self.expr.as_ref().unwrap()
    }
}

pub open spec fn drill_arg_models(s: Seq<DrillParsedArgument>) -> Seq<DrillArgModel>
    decreases s,
{
    Seq::new(s.len(), |i: int| if 0 <= i < s.len() { s[i].model() } else { missing_arg(0) })
}

/// The truth value of a logical literal.
pub fn drill_literal_truth(expr: &DrillParsedExpr) -> (r: Option<bool>)
    ensures
        r == (match expr.kind {
            DrillParsedExprKind::Logical(b) => Some(b),
            _ => None,
        }),
{
    match expr.kind {
        DrillParsedExprKind::Logical(value) => Some(value),
        _ => None,
    }
}

// ---------------------------------------------------------------------------
// Scanners
// ---------------------------------------------------------------------------

/// Depth after a closing bracket: one less, never below zero.
pub open spec fn shallower(depth: nat) -> nat {
    if depth > 0 { (depth - 1) as nat } else { 0 }
}

/// Position of the first `/` outside brackets, scanning from `i` at `depth`.
pub open spec fn op_scan(t: Seq<char>, i: int, depth: nat) -> Option<int>
    decreases t.len() - i,
{
    if i < 0 || i >= t.len() {
        None
    } else if t[i] == '(' || t[i] == '{' {
        op_scan(t, i + 1, depth + 1)
    } else if t[i] == ')' || t[i] == '}' {
        op_scan(t, i + 1, shallower(depth))
    } else if t[i] == '/' && depth == 0 {
        Some(i)
    } else {
        op_scan(t, i + 1, depth)
    }
}

/// Position of the top-level division operator of `t`.
pub open spec fn top_level_operator(t: Seq<char>) -> Option<int> {
    op_scan(t, 0, 0)
}

/// A character that may appear in a function name.
pub open spec fn name_char(c: char) -> bool {
    is_alnum(c) || c == '_' || c == '.'
}

/// Position of the opening parenthesis of a call `NAME(...)`.
pub open spec fn open_paren(t: Seq<char>) -> Option<int> {
    match first_index_of(t, '(') {
        Some(o) => {
            let n = trim(t.take(o));
            if n.len() > 0 && forall|i: int| 0 <= i < n.len() ==> name_char(#[trigger] n[i]) {
                Some(o)
            } else {
                None
            }
        },
        None => None,
    }
}

/// The last `)` that brings the depth back to zero, scanning from `i`.
pub open spec fn close_scan(t: Seq<char>, i: int, depth: nat, last: Option<int>) -> Option<int>
    decreases t.len() - i,
{
    if i < 0 || i >= t.len() {
        last
    } else if t[i] == '(' {
        close_scan(t, i + 1, depth + 1, last)
    } else if t[i] == ')' {
        close_scan(t, i + 1, shallower(depth), if shallower(depth) == 0 { Some(i) } else { last })
    } else {
        close_scan(t, i + 1, depth, last)
    }
}

/// Every character of `s` is whitespace.
pub open spec fn all_ws(s: Seq<char>) -> bool {
    forall|i: int| 0 <= i < s.len() ==> is_ws(#[trigger] s[i])
}

/// The closing parenthesis of the call opened at `o`, when only whitespace
/// follows it.
pub open spec fn trailing_close(t: Seq<char>, o: int) -> Option<int> {
    match close_scan(t, o, 0, None) {
        Some(c) => if all_ws(t.skip(c + 1)) { Some(c) } else { None },
        None => None,
    }
}

/// The argument segments of `t`, split at top-level commas, as pairs of
/// character positions, scanning from `i` at `depth` in the segment that
/// began at `start`.
pub open spec fn seg_scan(t: Seq<char>, i: int, depth: nat, start: int) -> Seq<(int, int)>
    decreases t.len() - i,
{
    if i < 0 || i >= t.len() {
        seq![(start, t.len() as int)]
    } else if t[i] == '(' || t[i] == '{' {
        seg_scan(t, i + 1, depth + 1, start)
    } else if t[i] == ')' || t[i] == '}' {
        seg_scan(t, i + 1, shallower(depth), start)
    } else if t[i] == ',' && depth == 0 {
        seq![(start, i)] + seg_scan(t, i + 1, 0, i + 1)
    } else {
        seg_scan(t, i + 1, depth, start)
    }
}

pub open spec fn arg_segments(t: Seq<char>) -> Seq<(int, int)> {
    seg_scan(t, 0, 0, 0)
}

/// Trimming `t` does not cross: some character of it is not whitespace, or
/// it is empty.
pub open spec fn trims_cleanly(t: Seq<char>) -> bool {
    lead_ws(t) + trail_ws(t) <= t.len()
}

/// `t` without its leading and trailing whitespace.
pub open spec fn trimmed(t: Seq<char>) -> Seq<char> {
    t.subrange(lead_ws(t) as int, t.len() - trail_ws(t))
}

/// The kind of a text that is neither an operation nor a call.
pub open spec fn leaf_kind(tr: Seq<char>) -> DrillKindModel {
    if tr.len() >= 2 && tr[0] == '"' && tr.last() == '"' {
        DrillKindModel::String
    } else if eq_ignore_case(tr, "TRUE"@) {
        DrillKindModel::Logical(true)
    } else if eq_ignore_case(tr, "FALSE"@) {
        DrillKindModel::Logical(false)
    } else if float_syntax(tr) {
        DrillKindModel::Number
    } else {
        DrillKindModel::Name
    }
}

/// The placeholder argument of a call left open with nothing inside.
pub open spec fn missing_arg(at: nat) -> DrillArgModel {
    DrillArgModel {
        start: at,
        len: 0,
        text: Seq::empty(),
        expr: Some(DrillExprModel { start: at, len: 0, text: Seq::empty(), kind: DrillKindModel::Missing }),
    }
}

pub proof fn lemma_op_scan(t: Seq<char>, i: int, depth: nat)
    requires
        0 <= i,
    ensures
        op_scan(t, i, depth) matches Some(k) ==> i <= k < t.len() && t[k] == '/',
    decreases t.len() - i,
{
    if i < t.len() {
        lemma_op_scan(t, i + 1, depth + 1);
        lemma_op_scan(t, i + 1, shallower(depth));
        lemma_op_scan(t, i + 1, depth);
    }
}

pub proof fn lemma_close_scan(t: Seq<char>, i: int, depth: nat, last: Option<int>)
    requires
        0 <= i,
    ensures
        close_scan(t, i, depth, last) == last || (close_scan(t, i, depth, last) matches Some(k) && i <= k < t.len()),
    decreases t.len() - i,
{
    if i < t.len() {
        lemma_close_scan(t, i + 1, depth + 1, last);
        lemma_close_scan(t, i + 1, shallower(depth), if shallower(depth) == 0 { Some(i) } else { last });
        lemma_close_scan(t, i + 1, depth, last);
    }
}

pub proof fn lemma_seg_scan(t: Seq<char>, i: int, depth: nat, start: int)
    requires
        0 <= start <= i <= t.len(),
    ensures
        forall|k: int| 0 <= k < seg_scan(t, i, depth, start).len() ==>
            start <= (#[trigger] seg_scan(t, i, depth, start)[k]).0 <= seg_scan(t, i, depth, start)[k].1 <= t.len(),
    decreases t.len() - i,
{
    let r = seg_scan(t, i, depth, start);
    if i < t.len() {
        if t[i] == '(' || t[i] == '{' {
            lemma_seg_scan(t, i + 1, depth + 1, start);
            assert(r == seg_scan(t, i + 1, depth + 1, start));
        } else if t[i] == ')' || t[i] == '}' {
            lemma_seg_scan(t, i + 1, shallower(depth), start);
            assert(r == seg_scan(t, i + 1, shallower(depth), start));
        } else if t[i] == ',' && depth == 0 {
            let rest = seg_scan(t, i + 1, 0, i + 1);
            lemma_seg_scan(t, i + 1, 0, i + 1);
            assert forall|k: int| 0 <= k < r.len() implies start <= (#[trigger] r[k]).0 <= r[k].1 <= t.len() by {
                if k > 0 {
                    assert(r[k] == rest[k - 1]);
                }
            }
        } else {
            lemma_seg_scan(t, i + 1, depth, start);
            assert(r == seg_scan(t, i + 1, depth, start));
        }
    } else {
        assert(r == seq![(start, t.len() as int)]);
        assert(r[0] == (start, t.len() as int));
    }
}

// ---------------------------------------------------------------------------
// The reading of an expression
// ---------------------------------------------------------------------------

/// The expression read from `t`, whose first byte sits at `base` of the
/// formula text. `None` where the text cannot be read: a slice of nothing
/// but whitespace cannot be trimmed.
pub open spec fn parse_expr(t: Seq<char>, base: nat) -> Option<DrillExprModel>
    decreases t.len(), 0nat,
{
    if !trims_cleanly(t) {
        None
    } else {
        let tr = trimmed(t);
        let start = base + byte_offset(t, lead_ws(t) as int);
        let len = byte_len(tr);
        if tr.len() == 0 {
            Some(DrillExprModel { start, len: 0, text: tr, kind: DrillKindModel::Missing })
        } else {
            match top_level_operator(tr) {
                Some(i) => {
                    proof { lemma_op_scan(tr, 0, 0); }
                    match (parse_expr(tr.take(i), start), parse_expr(tr.skip(i + 1), start + byte_offset(tr, i) + 1)) {
                        (Some(l), Some(r)) => Some(DrillExprModel {
                            start,
                            len,
                            text: tr,
                            kind: DrillKindModel::Binary { op: DrillParsedOperator::Divide, left: Box::new(l), right: Box::new(r) },
                        }),
                        _ => None,
                    }
                },
                None => match open_paren(tr) {
                    Some(o) => {
                        proof {
                            lemma_first_index_of(tr, '(');
                            lemma_close_scan(tr, o + 1, 1, None);
                        }
                        let close = trailing_close(tr, o);
                        let ae: int = match close {
                            Some(c) => c,
                            None => tr.len() as int,
                        };
                        let a = tr.subrange(o + 1, ae);
                        let ab = start + byte_offset(tr, o) + 1;
                        let args = if all_ws(a) { Some(Seq::<DrillArgModel>::empty()) } else { parse_segs(a, arg_segments(a), ab) };
                        match args {
                            Some(args) => Some(DrillExprModel {
                                start,
                                len,
                                text: tr,
                                kind: DrillKindModel::Function {
                                    name: trim(tr.take(o)),
                                    args: if args.len() == 0 && close is None { seq![missing_arg(ab)] } else { args },
                                    closed: close is Some,
                                },
                            }),
                            None => None,
                        }
                    },
                    None => Some(DrillExprModel { start, len, text: tr, kind: leaf_kind(tr) }),
                },
            }
        }
    }
}

/// The argument read from segment `st..en` of the argument text `a`.
pub open spec fn arg_model(a: Seq<char>, st: int, en: int, base: nat) -> Option<DrillArgModel>
    decreases a.len(), 1nat,
{
    if !(0 <= st <= en <= a.len()) {
        None
    } else {
        let raw = a.subrange(st, en);
        if !trims_cleanly(raw) {
            None
        } else {
            let tr = trimmed(raw);
            let s = base + byte_offset(a, st) + byte_offset(raw, lead_ws(raw) as int);
            match parse_expr(tr, s) {
                Some(e) => Some(DrillArgModel { start: s, len: byte_len(tr), text: tr, expr: Some(e) }),
                None => None,
            }
        }
    }
}

/// The arguments read from the segments `segs` of the argument text `a`.
pub open spec fn parse_segs(a: Seq<char>, segs: Seq<(int, int)>, base: nat) -> Option<Seq<DrillArgModel>>
    decreases a.len(), segs.len() + 2,
{
    if segs.len() == 0 {
        Some(Seq::empty())
    } else {
        match (parse_segs(a, segs.drop_last(), base), arg_model(a, segs.last().0, segs.last().1, base)) {
            (Some(p), Some(x)) => Some(p.push(x)),
            _ => None,
        }
    }
}

// ---------------------------------------------------------------------------
// Byte lengths of character slices
// ---------------------------------------------------------------------------

pub proof fn lemma_byte_len_single(c: char)
    ensures
        byte_len(seq![c]) == char_width(c),
{
    assert(seq![c].drop_first() =~= Seq::<char>::empty());
    assert(byte_len(Seq::<char>::empty()) == 0);
    assert(byte_len(seq![c]) == char_width(seq![c][0]) + byte_len(seq![c].drop_first()));
}

/// The bytes of a slice sit between the offsets of its ends.
pub proof fn lemma_byte_len_subrange(s: Seq<char>, i: int, j: int)
    requires
        0 <= i <= j <= s.len(),
    ensures
        byte_offset(s, i) + byte_len(s.subrange(i, j)) == byte_offset(s, j),
        byte_offset(s, j) <= byte_len(s),
        byte_offset(s, 0) == 0,
        byte_offset(s, s.len() as int) == byte_len(s),
{
    assert(s.take(j) =~= s.take(i) + s.subrange(i, j));
    lemma_byte_len_concat(s.take(i), s.subrange(i, j));
    lemma_byte_offset_bound(s, j);
    assert(s.take(0) =~= Seq::<char>::empty());
    assert(s.take(s.len() as int) =~= s);
}

fn utf8_len(s: &[char], from: usize, to: usize) -> (n: usize)
    requires
        from <= to <= s@.len(),
        byte_len(s@.subrange(from as int, to as int)) <= usize::MAX,
    ensures
        n == byte_len(s@.subrange(from as int, to as int)),
{
    let ghost u = s@.subrange(from as int, to as int);
    let mut acc: usize = 0;
    let mut i: usize = from;
    assert(s@.subrange(from as int, from as int) =~= Seq::<char>::empty());
    while i < to
        invariant
            from <= i <= to,
            to <= s@.len(),
            u == s@.subrange(from as int, to as int),
            byte_len(u) <= usize::MAX,
            acc == byte_len(s@.subrange(from as int, i as int)),
        decreases to - i,
    {
        proof {
            assert(s@.subrange(from as int, i + 1) =~= s@.subrange(from as int, i as int) + seq![s@[i as int]]);
            lemma_byte_len_concat(s@.subrange(from as int, i as int), seq![s@[i as int]]);
            lemma_byte_len_single(s@[i as int]);
            assert(u.take(i + 1 - from) =~= s@.subrange(from as int, i + 1));
            lemma_byte_offset_bound(u, i + 1 - from);
        }
        acc = acc + char_width_of(s[i]);
        i = i + 1;
    }
    acc
}

fn utf8_prefix_len(s: &[char], k: usize) -> (n: usize)
    requires
        k <= s@.len(),
        byte_len(s@) <= usize::MAX,
    ensures
        n == byte_offset(s@, k as int),
{
    proof {
        lemma_byte_offset_bound(s@, k as int);
        assert(s@.take(k as int) =~= s@.subrange(0, k as int));
    }
    utf8_len(s, 0, k)
}

fn utf8_total(s: &[char]) -> (n: usize)
    requires
        byte_len(s@) <= usize::MAX,
    ensures
        n == byte_len(s@),
{
    assert(s@.subrange(0, s@.len() as int) =~= s@);
    utf8_len(s, 0, s.len())
}

// ---------------------------------------------------------------------------
// Executable scanners
// ---------------------------------------------------------------------------

pub open spec fn opt_pos(o: Option<usize>) -> Option<int> {
    match o {
        Some(i) => Some(i as int),
        None => None,
    }
}

/// Position of the first `/` outside brackets.
pub fn find_top_level_operator(text: &[char]) -> (r: Option<(usize, DrillParsedOperator)>)
    ensures
        match r {
            Some((i, op)) => top_level_operator(text@) == Some(i as int) && op == DrillParsedOperator::Divide,
            None => top_level_operator(text@) is None,
        },
{
    let n = text.len();
    let mut depth: usize = 0;
    let mut i: usize = 0;
    while i < n
        invariant
            n == text@.len(),
            i <= n,
            depth <= i,
            op_scan(text@, i as int, depth as nat) == op_scan(text@, 0, 0),
        decreases n - i,
    {
        let c = text[i];
        if c == '(' || c == '{' {
            depth = depth + 1;
        } else if c == ')' || c == '}' {
            if depth > 0 {
                depth = depth - 1;
            }
        } else if c == '/' && depth == 0 {
            return Some((i, DrillParsedOperator::Divide));
        }
        i = i + 1;
    }
    None
}

fn all_name_chars(s: &[char]) -> (r: bool)
    ensures
        r == forall|i: int| 0 <= i < s@.len() ==> name_char(#[trigger] s@[i]),
{
    let mut i: usize = 0;
    while i < s.len()
        invariant
            i <= s@.len(),
            forall|j: int| 0 <= j < i ==> name_char(#[trigger] s@[j]),
        decreases s.len() - i,
    {
        let c = s[i];
        if !(char_is_alnum(c) || c == '_' || c == '.') {
            return false;
        }
        i = i + 1;
    }
    true
}

/// Every character of `s` is whitespace.
pub fn all_ws_chars(s: &[char]) -> (r: bool)
    ensures
        r == all_ws(s@),
{
    let mut i: usize = 0;
    while i < s.len()
        invariant
            i <= s@.len(),
            forall|j: int| 0 <= j < i ==> is_ws(#[trigger] s@[j]),
        decreases s.len() - i,
    {
        if !char_is_ws(s[i]) {
            return false;
        }
        i = i + 1;
    }
    true
}

/// Position of the opening parenthesis of a call `NAME(...)`.
pub fn function_open_paren_index(text: &[char]) -> (r: Option<usize>)
    ensures
        opt_pos(r) == open_paren(text@),
{
    match find_char(text, '(') {
        None => None,
        Some(o) => {
            let name = trim_chars(&slice_chars(text, 0, o));
            assert(text@.take(o as int) =~= text@.subrange(0, o as int));
            if name.len() > 0 && all_name_chars(&name) {
                Some(o)
            } else {
                None
            }
        },
    }
}

/// Position of the parenthesis that closes the call opened at `open`, when
/// only whitespace follows it.
pub fn matching_trailing_paren_index(text: &[char], open: usize) -> (r: Option<usize>)
    requires
        open <= text@.len(),
    ensures
        opt_pos(r) == trailing_close(text@, open as int),
{
    let n = text.len();
    let mut depth: usize = 0;
    let mut last: Option<usize> = None;
    let mut i: usize = open;
    while i < n
        invariant
            n == text@.len(),
            open <= i <= n,
            depth <= i,
            last matches Some(c) ==> c < i,
            close_scan(text@, i as int, depth as nat, opt_pos(last)) == close_scan(text@, open as int, 0, None),
        decreases n - i,
    {
        let c = text[i];
        if c == '(' {
            depth = depth + 1;
        } else if c == ')' {
            if depth > 0 {
                depth = depth - 1;
            }
            if depth == 0 {
                last = Some(i);
            }
        }
        i = i + 1;
    }
    match last {
        None => None,
        Some(c) => {
            let rest = slice_chars(text, c + 1, n);
            assert(rest@ =~= text@.skip(c + 1));
            if all_ws_chars(&rest) {
                Some(c)
            } else {
                None
            }
        },
    }
}

// ---------------------------------------------------------------------------
// Executable reading
// ---------------------------------------------------------------------------

pub proof fn lemma_parse_segs_prefix(a: Seq<char>, s: Seq<(int, int)>, base: nat, k: int)
    requires
        parse_segs(a, s, base) is Some,
        0 <= k <= s.len(),
    ensures
        parse_segs(a, s.take(k), base) is Some,
    decreases s.len(),
{
    if k == s.len() {
        assert(s.take(k) =~= s);
    } else {
        lemma_parse_segs_prefix(a, s.drop_last(), base, k);
        assert(s.drop_last().take(k) =~= s.take(k));
    }
}

/// The expression read from `text`, whose first byte sits at `base` of the
/// formula text.
pub fn parse_drill_expr_at(text: &[char], base: usize) -> (r: Option<DrillParsedExpr>)
    requires
        parse_expr(text@, base as nat) is Some,
        base + byte_len(text@) <= usize::MAX,
    ensures
        r is Some,
        r->0.model() == parse_expr(text@, base as nat)->0,
    decreases text@.len(), 0nat,
{
    let ghost t = text@;
    let n = text.len();
    let lw = lead_ws_count(text);
    let tw = trail_ws_count(text);
    let tr = slice_chars(text, lw, n - tw);
    proof {
        lemma_byte_len_subrange(t, 0, lw as int);
        lemma_byte_len_subrange(t, lw as int, n - tw);
    }
    let start = base + utf8_prefix_len(text, lw);
    let len = utf8_total(&tr);
    if tr.len() == 0 {
        let empty = String::new();
        assert(tr@ =~= empty@);
        return Some(DrillParsedExpr { span: TextSpan::new(start, 0), text: empty, kind: DrillParsedExprKind::Missing });
    }
    let ghost trs = tr@;
    proof {
        lemma_byte_len_subrange(trs, 0, trs.len() as int);
    }
    match find_top_level_operator(&tr) {
        Some((i, op)) => {
            proof {
                lemma_op_scan(trs, 0, 0);
                lemma_byte_len_subrange(trs, 0, i as int);
                lemma_byte_len_subrange(trs, i + 1, trs.len() as int);
                crate::offsets::lemma_byte_offset_step(trs, i as int);
            }
            let lt = slice_chars(&tr, 0, i);
            let rt = slice_chars(&tr, i + 1, tr.len());
            assert(lt@ =~= trs.take(i as int));
            assert(rt@ =~= trs.skip(i + 1));
            let ob = utf8_prefix_len(&tr, i);
            let left = parse_drill_expr_at(&lt, start);
            let right = parse_drill_expr_at(&rt, start + ob + 1);
            let text_out = string_of(&tr);
            Some(DrillParsedExpr {
                span: TextSpan::new(start, len),
                text: text_out,
                kind: DrillParsedExprKind::Binary { op, left: Box::new(left.unwrap()), right: Box::new(right.unwrap()) },
            })
        },
        None => match function_open_paren_index(&tr) {
            Some(o) => {
                proof {
                    lemma_first_index_of(trs, '(');
                    lemma_close_scan(trs, o + 1, 1, None);
                }
                let name = trim_chars(&slice_chars(&tr, 0, o));
                assert(trs.take(o as int) =~= trs.subrange(0, o as int));
                let close = matching_trailing_paren_index(&tr, o);
                let ae: usize = match close {
                    Some(c) => c,
                    None => tr.len(),
                };
                let a = slice_chars(&tr, o + 1, ae);
                proof {
                    lemma_byte_len_subrange(trs, 0, o as int);
                    crate::offsets::lemma_byte_offset_step(trs, o as int);
                    lemma_byte_len_subrange(trs, o + 1, ae as int);
                }
                let ab = start + utf8_prefix_len(&tr, o) + 1;
                let mut args = split_drill_arguments(&a, ab);
                let ghost before = args@;
                if args.len() == 0 && close.is_none() {
                    let missing = DrillParsedExpr { span: TextSpan::new(ab, 0), text: String::new(), kind: DrillParsedExprKind::Missing };
                    assert(missing.model() == missing_arg(ab as nat).expr->0);
                    args.push(DrillParsedArgument { span: TextSpan::new(ab, 0), text: String::new(), expr: Some(missing) });
                    assert(drill_arg_models(args@) =~= seq![missing_arg(ab as nat)]);
                }
                let text_out = string_of(&tr);
                Some(DrillParsedExpr {
                    span: TextSpan::new(start, len),
                    text: text_out,
                    kind: DrillParsedExprKind::Function { name: string_of(&name), args, closed: close.is_some() },
                })
            },
            None => {
                let kind = if tr.len() >= 2 && tr[0] == '"' && tr[tr.len() - 1] == '"' {
                    DrillParsedExprKind::String
                } else if chars_eq_ignore_case(&tr, &chars_of("TRUE")) {
                    DrillParsedExprKind::Logical(true)
                } else if chars_eq_ignore_case(&tr, &chars_of("FALSE")) {
                    DrillParsedExprKind::Logical(false)
                } else if is_float_literal(&tr) {
                    DrillParsedExprKind::Number
                } else {
                    DrillParsedExprKind::Name
                };
                let text_out = string_of(&tr);
                Some(DrillParsedExpr { span: TextSpan::new(start, len), text: text_out, kind })
            },
        },
    }
}

/// The arguments read from the argument text of a call, split at its
/// top-level commas; none where the text is only whitespace.
pub fn split_drill_arguments(text: &[char], base: usize) -> (r: Vec<DrillParsedArgument>)
    requires
        base + byte_len(text@) <= usize::MAX,
        all_ws(text@) || parse_segs(text@, arg_segments(text@), base as nat) is Some,
    ensures
        drill_arg_models(r@) == (if all_ws(text@) {
            Seq::<DrillArgModel>::empty()
        } else {
            parse_segs(text@, arg_segments(text@), base as nat)->0
        }),
    decreases text@.len(), 2nat,
{
    let mut args: Vec<DrillParsedArgument> = Vec::new();
    if all_ws_chars(text) {
        assert(drill_arg_models(args@) =~= Seq::<DrillArgModel>::empty());
        return args;
    }
    let ghost t = text@;
    let ghost full = arg_segments(t);
    let n = text.len();
    let mut depth: usize = 0;
    let mut start: usize = 0;
    let mut i: usize = 0;
    let ghost mut done: Seq<(int, int)> = Seq::empty();
    assert(drill_arg_models(args@) =~= Seq::<DrillArgModel>::empty());
    assert(full =~= done + seg_scan(t, 0, 0, 0));
    while i < n
        invariant
            t == text@,
            n == t.len(),
            full == arg_segments(t),
            start <= i <= n,
            depth <= i,
            full == done + seg_scan(t, i as int, depth as nat, start as int),
            parse_segs(t, full, base as nat) is Some,
            parse_segs(t, done, base as nat) == Some(drill_arg_models(args@)),
            base + byte_len(t) <= usize::MAX,
        decreases n - i,
    {
        let c = text[i];
        if c == '(' || c == '{' {
            depth = depth + 1;
        } else if c == ')' || c == '}' {
            if depth > 0 {
                depth = depth - 1;
            }
        } else if c == ',' && depth == 0 {
            let ghost seg = (start as int, i as int);
            let ghost next = done.push(seg);
            proof {
                assert(seg_scan(t, i as int, 0, start as int) == seq![seg] + seg_scan(t, i + 1, 0, i + 1));
                assert(full =~= next + seg_scan(t, i + 1, 0, i + 1));
                assert(full.take(next.len() as int) =~= next);
                lemma_parse_segs_prefix(t, full, base as nat, next.len() as int);
                assert(next.drop_last() =~= done);
            }
            let arg = drill_argument_from_slice(text, base, start, i);
            let ghost prev = args@;
            args.push(arg);
            proof {
                assert(drill_arg_models(args@) =~= drill_arg_models(prev).push(arg.model()));
                done = next;
            }
            start = i + 1;
        }
        i = i + 1;
    }
    let ghost seg = (start as int, n as int);
    let ghost next = done.push(seg);
    proof {
        assert(seg_scan(t, n as int, depth as nat, start as int) == seq![seg]);
        assert(full =~= next);
        assert(next.drop_last() =~= done);
    }
    let arg = drill_argument_from_slice(text, base, start, n);
    let ghost prev = args@;
    args.push(arg);
    assert(drill_arg_models(args@) =~= drill_arg_models(prev).push(arg.model()));
    args
}

/// The argument read from `start..end` of the argument text.
pub fn drill_argument_from_slice(text: &[char], base: usize, start: usize, end: usize) -> (r: DrillParsedArgument)
    requires
        start <= end <= text@.len(),
        arg_model(text@, start as int, end as int, base as nat) is Some,
        base + byte_len(text@) <= usize::MAX,
    ensures
        r.model() == arg_model(text@, start as int, end as int, base as nat)->0,
    decreases text@.len(), 1nat,
{
    let raw = slice_chars(text, start, end);
    let lw = lead_ws_count(&raw);
    let tw = trail_ws_count(&raw);
    let tr = slice_chars(&raw, lw, raw.len() - tw);
    proof {
        lemma_byte_len_subrange(text@, start as int, end as int);
        lemma_byte_len_subrange(raw@, 0, lw as int);
        lemma_byte_len_subrange(raw@, lw as int, raw@.len() - tw);
    }
    let s = base + utf8_prefix_len(text, start) + utf8_prefix_len(&raw, lw);
    let len = utf8_total(&tr);
    let e = parse_drill_expr_at(&tr, s);
    DrillParsedArgument { span: TextSpan::new(s, len), text: string_of(&tr), expr: e }
}

/// The expression read from a formula's text, after its `=` if it has one.
pub open spec fn drill_source_spec(t: Seq<char>) -> Option<DrillExprModel> {
    if t.len() > 0 && t[0] == '=' {
        parse_expr(t.skip(1), 1)
    } else {
        parse_expr(t, 0)
    }
}

pub fn parse_drill_expression_source(source_text: &str) -> (r: Option<DrillParsedExpr>)
    requires
        drill_source_spec(source_text@) is Some,
    ensures
        r is Some,
        r->0.model() == drill_source_spec(source_text@)->0,
{
    let bytes = source_text.as_bytes();
    let _total: usize = bytes.len();
    proof { crate::offsets::lemma_byte_len_encoding(source_text@); }
    let t = chars_of(source_text);
    if t.len() > 0 && t[0] == '=' {
        let rest = slice_chars(&t, 1, t.len());
        proof {
            assert(rest@ =~= t@.skip(1));
            lemma_byte_len_subrange(t@, 0, 1);
            lemma_byte_len_subrange(t@, 1, t@.len() as int);
            crate::offsets::lemma_byte_offset_step(t@, 0);
        }
        parse_drill_expr_at(&rest, 1)
    } else {
        parse_drill_expr_at(&t, 0)
    }
}

/// The span the reader gives an expression lies inside the text it read:
/// it starts at or after `base`, ends by the end of the text, and covers
/// the text without its surrounding whitespace.
pub proof fn lemma_drill_span_within(t: Seq<char>, base: nat)
    requires
        parse_expr(t, base) is Some,
    ensures
        base <= parse_expr(t, base)->0.start,
        parse_expr(t, base)->0.start + parse_expr(t, base)->0.len <= base + byte_len(t),
        parse_expr(t, base)->0.text == trimmed(t),
        parse_expr(t, base)->0.len == byte_len(trimmed(t)),
{
    let lw = lead_ws(t) as int;
    let tw = trail_ws(t) as int;
    lemma_byte_len_subrange(t, 0, lw);
    lemma_byte_len_subrange(t, lw, t.len() - tw);
    if trimmed(t).len() == 0 {
        assert(byte_len(trimmed(t)) == 0);
    }
}

} // verus!
