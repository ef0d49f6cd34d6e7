//! Evaluation vocabulary and the address text the evaluator reads and writes:
//! A1 labels of cells and areas, local area targets, callable profile lists
//! and string literal bodies.

use vstd::prelude::*;

use crate::binding::parse::{base26, lemma_base26_prefix_le, last_index_of, letter_value, rfind_char};
use crate::binding::reference::{render_reference, AreaRef, CellRef, NormalizedReference, NormalizedReferenceModel};
use crate::binding::{expr_models, BoundExpr, BoundExprModel};
use crate::consumer::runtime::versions::{lemma_sorted_unique, sorted_distinct, sorted_distinct_strings};
use crate::binding::structured::{first_where, lemma_first_where_at, lemma_first_where_none};
use crate::text::{
    all_alpha, all_digits, chars_all_alpha, chars_eq_ignore_case, eq_ignore_case, char_is_alpha, char_is_digit, char_to_upper, char_vecs, chars_all_digits, chars_eq,
    chars_of, collapse_doubled, collapse_doubled_chars, decimal, decimal_value, decimal_value_upto, find_char,
    first_index_of, is_alpha, is_digit, lemma_first_index_of, push_chars, push_decimal, push_str, slice_chars,
    split_on, split_on_char, string_of, to_upper, upper_char, upper_seq, without_plus, trim, trim_chars, parse_i32, parse_i32_spec,
};

verus! {

#[derive(Debug, Clone, Copy, PartialEq, Eq)]
pub enum PreparedStructureClass {
    DirectScalar,
    ArrayLike,
    ReferenceVisible,
    Omitted,
}

#[derive(Debug, Clone, Copy, PartialEq, Eq)]
pub enum PreparedSourceClass {
    Literal,
    HelperParameter,
    FunctionCall,
    CellReference,
    AreaReference,
    WholeRowReference,
    WholeColumnReference,
    NameReference,
    ExternalReference,
    SpillReference,
    ImplicitIntersection,
    BinaryExpression,
}

#[derive(Debug, Clone, Copy, PartialEq, Eq)]
pub enum PreparedEvaluationMode {
    EagerValue,
    ReferencePreserved,
    CallerContextScalarized,
}

#[derive(Debug, Clone, Copy, PartialEq, Eq)]
pub enum PreparedBlanknessClass {
    NonBlank,
    Omitted,
    EmptyCell,
    EmptyText,
}

#[derive(Debug, Clone, Copy, PartialEq, Eq)]
pub enum PreparedResultClass {
    Scalar,
    Array,
    Reference,
    Error,
}

#[derive(Debug, Clone, Copy, PartialEq, Eq)]
pub enum CallableOriginKind {
    HelperLambda,
    DefinedNameCallable,
}

#[derive(Debug, Clone, Copy, PartialEq, Eq)]
pub enum CallableInvocationModel {
    TypedInvocationOnly,
}

#[derive(Debug, Clone, Copy, PartialEq, Eq)]
pub enum CallableCaptureMode {
    NoCapture,
    LexicalCapture,
}

#[derive(Debug, Clone, PartialEq, Eq)]
pub struct CallableValueCarrier {
    pub origin_kind: CallableOriginKind,
    pub invocation_model: CallableInvocationModel,
    pub capture_mode: CallableCaptureMode,
    pub arity: usize,
}

#[derive(Debug, Clone, PartialEq, Eq)]
pub struct CallableValueProfile {
    pub arity: usize,
    pub required_arity: usize,
    pub parameter_names: Vec<String>,
    pub optional_parameter_names: Vec<String>,
    pub capture_names: Vec<String>,
    pub body_kind: String,
}

#[derive(Debug, Clone, PartialEq, Eq)]
pub struct PreparedResult {
    pub result_class: PreparedResultClass,
    pub structure_class: PreparedStructureClass,
    pub payload_summary: String,
    pub blankness_class: PreparedBlanknessClass,
    pub reference_target: Option<String>,
    pub callable_carrier: Option<CallableValueCarrier>,
    pub callable_profile: Option<String>,
    pub callable_profile_detail: Option<CallableValueProfile>,
    pub deferred_reason: Option<String>,
    pub format_hint: Option<String>,
    pub publication_hint: Option<String>,
    pub capability_dependencies: Vec<String>,
}

#[derive(Debug, Clone, Copy, PartialEq, Eq)]
pub enum EvaluationTraceMode {
    ValueOnly,
    PreparedCalls,
}

impl Default for EvaluationTraceMode {
    fn default() -> (r: EvaluationTraceMode)
        ensures
            r == EvaluationTraceMode::ValueOnly,
    {
        EvaluationTraceMode::ValueOnly
    }
}

#[derive(Debug, Clone, Copy, PartialEq, Eq)]
pub enum EvaluationBackend {
    LocalBootstrap,
    OxFuncBacked,
}

#[derive(Debug, Clone, PartialEq, Eq)]
pub struct EvaluationError {
    pub message: String,
}

// ---------------------------------------------------------------------------
// Column letters
// ---------------------------------------------------------------------------

/// The letter of a base-26 digit, `A` for zero.
pub open spec fn letter_of(d: nat) -> char {
    (('A' as u32) + d) as char
}

/// The bijective base-26 label of column `n`: `A` for one, `Z` for 26,
/// `AA` for 27; nothing for zero.
pub open spec fn letters_spec(n: nat) -> Seq<char>
    decreases n,
{
    if n == 0 {
        Seq::empty()
    } else {
        letters_spec(((n - 1) / 26) as nat).push(letter_of(((n - 1) % 26) as nat))
    }
}

/// The label of column `col`.
pub fn column_letters(col: u32) -> (r: String)
    ensures
        r@ == letters_spec(col as nat),
{
    let mut out: Vec<char> = Vec::new();
    let mut c: u32 = col;
    while c > 0
        invariant
            letters_spec(col as nat) == letters_spec(c as nat) + out@,
        decreases c,
    {
        let rem: u32 = (c - 1) % 26;
        let ch = char_of_digit(rem);
        let ghost prev = out@;
        out.insert(0, ch);
        assert(out@ =~= seq![ch] + prev);
        assert(letters_spec(c as nat) == letters_spec(((c - 1) / 26) as nat).push(ch));
        assert(letters_spec(c as nat) + prev =~= letters_spec(((c - 1) / 26) as nat) + out@);
        c = (c - 1) / 26;
    }
    assert(letters_spec(0) + out@ =~= out@);
    string_of(&out)
}

/// The label of column `col`, for a column counted in `usize`.
pub fn column_label(col: usize) -> (r: String)
    ensures
        r@ == letters_spec(col as nat),
{
    let mut out: Vec<char> = Vec::new();
    let mut c: usize = col;
    while c > 0
        invariant
            letters_spec(col as nat) == letters_spec(c as nat) + out@,
        decreases c,
    {
        let rem: u32 = ((c - 1) % 26) as u32;
        let ch = char_of_digit(rem);
        let ghost prev = out@;
        out.insert(0, ch);
        assert(out@ =~= seq![ch] + prev);
        assert(letters_spec(c as nat) == letters_spec(((c - 1) / 26) as nat).push(ch));
        assert(letters_spec(c as nat) + prev =~= letters_spec(((c - 1) / 26) as nat) + out@);
        c = (c - 1) / 26;
    }
    assert(letters_spec(0) + out@ =~= out@);
    string_of(&out)
}

fn char_of_digit(d: u32) -> (c: char)
    requires
        d < 26,
    ensures
        c == letter_of(d as nat),
        is_alpha(c),
        upper_char(c) == c,
{
    let letters: [char; 26] = ['A', 'B', 'C', 'D', 'E', 'F', 'G', 'H', 'I', 'J', 'K', 'L', 'M', 'N', 'O', 'P', 'Q', 'R', 'S', 'T', 'U', 'V', 'W', 'X', 'Y', 'Z'];
    let c = letters[d as usize];
    assert(c == letter_of(d as nat)) by {
        assert(letters@[d as int] == letter_of(d as nat));
    }
    c
}

/// Every column label is made of capital letters and spells its column
/// back in bijective base 26: reading the label of `n` gives `n`.
pub proof fn lemma_column_letters_round_trip(n: nat)
    ensures
        all_alpha(letters_spec(n)),
        base26(letters_spec(n)) == n,
        n > 0 ==> letters_spec(n).len() > 0,
    decreases n,
{
    if n > 0 {
        let q = ((n - 1) / 26) as nat;
        let d = ((n - 1) % 26) as nat;
        lemma_column_letters_round_trip(q);
        let s = letters_spec(n);
        assert(s == letters_spec(q).push(letter_of(d)));
        assert(s.drop_last() =~= letters_spec(q));
        assert(s.last() == letter_of(d));
        assert(letter_value(letter_of(d)) == d + 1);
        assert(n == q * 26 + d + 1);
        assert forall|i: int| 0 <= i < s.len() implies is_alpha(#[trigger] s[i]) by {
            if i < s.len() - 1 {
                assert(s[i] == letters_spec(q)[i]);
            }
        }
    }
}

// ---------------------------------------------------------------------------
// A1 targets
// ---------------------------------------------------------------------------

/// A sheet id is written before a target unless it is empty or an internal
/// `sheet:` id.
pub open spec fn emits_sheet_prefix(sheet_id: Seq<char>) -> bool {
    !(sheet_id.len() == 0 || (sheet_id.len() >= 6 && sheet_id.take(6) == "sheet:"@))
}

/// `local` qualified by its sheet when the sheet is written.
pub open spec fn qualified_target_spec(sheet_id: Seq<char>, local: Seq<char>) -> Seq<char> {
    if emits_sheet_prefix(sheet_id) {
        sheet_id + "!"@ + local
    } else {
        local
    }
}

pub fn should_emit_sheet_prefix(sheet_id: &str) -> (r: bool)
    ensures
        r == emits_sheet_prefix(sheet_id@),
{
    let s = chars_of(sheet_id);
    if s.len() == 0 {
        return false;
    }
    if s.len() >= 6 && chars_eq(&slice_chars(&s, 0, 6), &chars_of("sheet:")) {
        assert(s@.subrange(0, 6) =~= s@.take(6));
        return false;
    }
    proof {
        if s@.len() >= 6 {
            assert(s@.subrange(0, 6) =~= s@.take(6));
        }
    }
    true
}

pub fn qualified_reference_target(sheet_id: &str, local_target: String) -> (r: String)
    ensures
        r@ == qualified_target_spec(sheet_id@, local_target@),
{
    if should_emit_sheet_prefix(sheet_id) {
        let mut out = chars_of(sheet_id);
        push_str(&mut out, "!");
        push_chars(&mut out, &chars_of(local_target.as_str()));
        string_of(&out)
    } else {
        local_target
    }
}

/// The A1 label of a cell: column letters then row number.
pub open spec fn a1_label(col: nat, row: nat) -> Seq<char> {
    letters_spec(col) + decimal(row)
}

fn a1_label_text(col: u32, row: u32) -> (r: Vec<char>)
    ensures
        r@ == a1_label(col as nat, row as nat),
{
    let mut out = chars_of(column_letters(col).as_str());
    push_decimal(&mut out, row as u64);
    out
}

pub fn a1_for_cell(cell: &CellRef) -> (r: String)
    ensures
        r@ == qualified_target_spec(cell.sheet_id@, a1_label(cell.coord.col as nat, cell.coord.row as nat)),
{
    let local = a1_label_text(cell.coord.col, cell.coord.row);
    qualified_reference_target(cell.sheet_id.as_str(), string_of(&local))
}

/// The A1 label of an area: its first and last cells joined by `:`.
pub open spec fn a1_area_label(area: AreaRef) -> Seq<char> {
    a1_label(area.top_left.col as nat, area.top_left.row as nat) + ":"@
        + a1_label((area.top_left.col + area.width - 1) as nat, (area.top_left.row + area.height - 1) as nat)
}

pub fn a1_for_area(area: &AreaRef) -> (r: String)
    requires
        1 <= area.top_left.col + area.width <= u32::MAX,
        1 <= area.top_left.row + area.height <= u32::MAX,
    ensures
        r@ == qualified_target_spec(area.sheet_id@, a1_area_label(*area)),
{
    let mut local = a1_label_text(area.top_left.col, area.top_left.row);
    let end_col = area.top_left.col + area.width - 1;
    let end_row = area.top_left.row + area.height - 1;
    push_str(&mut local, ":");
    let end = a1_label_text(end_col, end_row);
    push_chars(&mut local, &end);
    qualified_reference_target(area.sheet_id.as_str(), string_of(&local))
}

// ---------------------------------------------------------------------------
// Local A1 cells and areas
// ---------------------------------------------------------------------------

/// What `str::parse::<usize>` gives: an optional `+`, then at least one
/// digit, and a value that fits.
pub open spec fn parse_usize_spec(s: Seq<char>) -> Option<usize> {
    let body = without_plus(s);
    if body.len() > 0 && all_digits(body) && decimal_value(body) <= usize::MAX {
        Some(decimal_value(body) as usize)
    } else {
        None
    }
}

fn parse_usize(s: &[char]) -> (r: Option<usize>)
    ensures
        r == parse_usize_spec(s@),
{
    let start: usize = if s.len() > 0 && s[0] == '+' { 1 } else { 0 };
    let body = slice_chars(s, start, s.len());
    assert(body@ =~= without_plus(s@));
    if body.len() == 0 || !chars_all_digits(&body) {
        return None;
    }
    match decimal_value_upto(&body, usize::MAX as u64) {
        Some(v) => Some(v as usize),
        None => None,
    }
}

pub open spec fn digit_pred() -> spec_fn(char) -> bool {
    |c: char| is_digit(c)
}

/// The column letters and row text of a local A1 cell: the text before the
/// first digit and the rest.
pub open spec fn a1_split(v: Seq<char>) -> Option<(Seq<char>, Seq<char>)> {
    match first_where(v, digit_pred()) {
        Some(k) => Some((v.take(k), v.skip(k))),
        None => None,
    }
}

/// The column label of a local A1 cell fits the column count.
pub open spec fn a1_column_fits(v: Seq<char>) -> bool {
    match a1_split(v) {
        Some((col, _)) => col.len() > 0 && all_alpha(col) ==> base26(col) <= usize::MAX,
        None => true,
    }
}

/// The column and row of a local A1 cell such as `B7` or `b7`.
pub open spec fn a1_cell_local_spec(v: Seq<char>) -> Option<(usize, usize)> {
    match a1_split(v) {
        Some((col, row)) => if col.len() == 0 || row.len() == 0 || !all_alpha(col) {
            None
        } else {
            match parse_usize_spec(row) {
                Some(r) => Some((base26(col) as usize, r)),
                None => None,
            }
        },
        None => None,
    }
}

fn first_digit(v: &[char]) -> (r: Option<usize>)
    ensures
        opt_usize(r) == first_where(v@, digit_pred()),
        r matches Some(k) ==> k < v@.len(),
{
    let mut i: usize = 0;
    while i < v.len()
        invariant
            i <= v@.len(),
            forall|j: int| 0 <= j < i ==> !(#[trigger] digit_pred()(v@[j])),
        decreases v.len() - i,
    {
        if char_is_digit(v[i]) {
            proof { lemma_first_where_at(v@, digit_pred(), i as int); }
            return Some(i);
        }
        i = i + 1;
    }
    proof { lemma_first_where_none(v@, digit_pred()); }
    None
}

pub open spec fn opt_usize(o: Option<usize>) -> Option<int> {
    match o {
        Some(i) => Some(i as int),
        None => None,
    }
}

pub fn parse_a1_cell(value: &str) -> (r: Option<(usize, usize)>)
    requires
        a1_column_fits(value@),
    ensures
        r == a1_cell_local_spec(value@),
{
    let v = chars_of(value);
    a1_cell_of(&v)
}

fn a1_cell_of(v: &[char]) -> (r: Option<(usize, usize)>)
    requires
        a1_column_fits(v@),
    ensures
        r == a1_cell_local_spec(v@),
{
    let split = match first_digit(v) {
        Some(k) => k,
        None => return None,
    };
    let col = slice_chars(v, 0, split);
    let row = slice_chars(v, split, v.len());
    assert(col@ =~= v@.take(split as int));
    assert(row@ =~= v@.skip(split as int));
    if col.len() == 0 || row.len() == 0 {
        return None;
    }
    if !chars_all_alpha(&col) {
        return None;
    }
    let mut acc: usize = 0;
    let mut i: usize = 0;
    while i < col.len()
        invariant
            i <= col@.len(),
            all_alpha(col@),
            acc == base26(col@.subrange(0, i as int)),
            base26(col@) <= usize::MAX,
        decreases col.len() - i,
    {
        let upper = char_to_upper(col[i]);
        let d: usize = (upper as u32 - 'A' as u32 + 1) as usize;
        assert(col@.subrange(0, i + 1).drop_last() =~= col@.subrange(0, i as int));
        assert(base26(col@.subrange(0, i + 1)) == acc * 26 + d);
        proof { lemma_base26_prefix_le(col@, i + 1); }
        acc = acc * 26 + d;
        i = i + 1;
    }
    assert(col@.subrange(0, col@.len() as int) =~= col@);
    match parse_usize(&row) {
        Some(r) => Some((acc, r)),
        None => None,
    }
}

/// A rectangle of local cells, as `B2:D5` or `Sheet1!B2:D5`, with its
/// bounds in order.
pub struct LocalAreaTarget {
    pub sheet_prefix: Option<String>,
    pub start_row: usize,
    pub end_row: usize,
    pub start_col: usize,
    pub end_col: usize,
}

pub struct LocalAreaModel {
    pub sheet_prefix: Option<Seq<char>>,
    pub start_row: usize,
    pub end_row: usize,
    pub start_col: usize,
    pub end_col: usize,
}

impl LocalAreaTarget {
    pub open spec fn model(&self) -> LocalAreaModel {
        LocalAreaModel {
            sheet_prefix: match &self.sheet_prefix {
                Some(p) => Some(p@),
                None => None,
            },
            start_row: self.start_row,
            end_row: self.end_row,
            start_col: self.start_col,
            end_col: self.end_col,
        }
    }

    pub fn row_count(&self) -> (r: usize)
        requires
            self.start_row <= self.end_row,
            self.end_row - self.start_row < usize::MAX,
        ensures
            r == self.end_row - self.start_row + 1,
    {
        self.end_row - self.start_row + 1
    }

    pub fn col_count(&self) -> (r: usize)
        requires
            self.start_col <= self.end_col,
            self.end_col - self.start_col < usize::MAX,
        ensures
            r == self.end_col - self.start_col + 1,
    {
        self.end_col - self.start_col + 1
    }

    /// The key of the cell at `row` and `col`: its A1 label, after the
    /// sheet prefix and `!` when the target has one.
    pub fn cell_key(&self, row: usize, col: usize) -> (r: String)
        ensures
            r@ == (match self.sheet_prefix {
                Some(p) => p@ + "!"@ + (letters_spec(col as nat) + decimal(row as nat)),
                None => letters_spec(col as nat) + decimal(row as nat),
            }),
    {
        let mut cell = chars_of(column_label(col).as_str());
        push_decimal(&mut cell, row as u64);
        match &self.sheet_prefix {
            Some(prefix) => {
                let mut out = chars_of(prefix.as_str());
                push_str(&mut out, "!");
                push_chars(&mut out, &cell);
                string_of(&out)
            },
            None => string_of(&cell),
        }
    }
}

/// The sheet prefix before the last `!`, if any, and the text after it.
pub open spec fn sheet_prefix_split(t: Seq<char>) -> (Option<Seq<char>>, Seq<char>) {
    match last_index_of(t, '!') {
        Some(i) => (Some(t.take(i)), t.skip(i + 1)),
        None => (None, t),
    }
}

pub open spec fn min_usize(a: usize, b: usize) -> usize {
    if a <= b { a } else { b }
}

pub open spec fn max_usize(a: usize, b: usize) -> usize {
    if a >= b { a } else { b }
}

/// The local area written as `START:END` after an optional sheet prefix.
pub open spec fn local_area_spec(t: Seq<char>) -> Option<LocalAreaModel> {
    let (prefix, body) = sheet_prefix_split(t);
    match first_index_of(body, ':') {
        None => None,
        Some(c) => match (a1_cell_local_spec(body.take(c)), a1_cell_local_spec(body.skip(c + 1))) {
            (Some((sc, sr)), Some((ec, er))) => Some(LocalAreaModel {
                sheet_prefix: prefix,
                start_row: min_usize(sr, er),
                end_row: max_usize(sr, er),
                start_col: min_usize(sc, ec),
                end_col: max_usize(sc, ec),
            }),
            _ => None,
        },
    }
}

/// The column labels of a local area target fit the column count.
pub open spec fn local_area_fits(t: Seq<char>) -> bool {
    let body = sheet_prefix_split(t).1;
    match first_index_of(body, ':') {
        None => true,
        Some(c) => a1_column_fits(body.take(c)) && (a1_cell_local_spec(body.take(c)) is Some ==> a1_column_fits(body.skip(c + 1))),
    }
}

pub fn parse_local_area_target(target: &str) -> (r: Option<LocalAreaTarget>)
    requires
        local_area_fits(target@),
    ensures
        match r {
            Some(a) => local_area_spec(target@) == Some(a.model()),
            None => local_area_spec(target@) is None,
        },
{
    let t = chars_of(target);
    let n = t.len();
    let (sheet_prefix, body) = match rfind_char(&t, '!') {
        Some(i) => {
            let p = slice_chars(&t, 0, i);
            assert(p@ =~= t@.take(i as int));
            let b = slice_chars(&t, i + 1, n);
            assert(b@ =~= t@.skip(i + 1));
            (Some(string_of(&p)), b)
        },
        None => (None, slice_chars(&t, 0, n)),
    };
    assert(body@ =~= sheet_prefix_split(t@).1);
    let c = match find_char(&body, ':') {
        Some(c) => c,
        None => return None,
    };
    let start = slice_chars(&body, 0, c);
    let end = slice_chars(&body, c + 1, body.len());
    assert(start@ =~= body@.take(c as int));
    assert(end@ =~= body@.skip(c + 1));
    let (start_col, start_row) = match a1_cell_of(&start) {
        Some(p) => p,
        None => return None,
    };
    let (end_col, end_row) = match a1_cell_of(&end) {
        Some(p) => p,
        None => return None,
    };
    Some(LocalAreaTarget {
        sheet_prefix,
        start_row: if start_row <= end_row { start_row } else { end_row },
        end_row: if start_row >= end_row { start_row } else { end_row },
        start_col: if start_col <= end_col { start_col } else { end_col },
        end_col: if start_col >= end_col { start_col } else { end_col },
    })
}

/// A target names one cell: after its sheet prefix it has no `:`, and it
/// has both a letter and a digit.
pub open spec fn single_cell_spec(t: Seq<char>) -> bool {
    let last = sheet_prefix_split(t).1;
    !last.contains(':') && (exists|i: int| 0 <= i < last.len() && is_alpha(#[trigger] last[i]))
        && (exists|i: int| 0 <= i < last.len() && is_digit(#[trigger] last[i]))
}

pub fn looks_like_single_cell_reference(target: &str) -> (r: bool)
    ensures
        r == single_cell_spec(target@),
{
    let t = chars_of(target);
    let n = t.len();
    let last = match rfind_char(&t, '!') {
        Some(i) => slice_chars(&t, i + 1, n),
        None => slice_chars(&t, 0, n),
    };
    assert(last@ =~= sheet_prefix_split(t@).1);
    let mut has_colon = false;
    let mut has_alpha = false;
    let mut has_digit = false;
    let mut i: usize = 0;
    while i < last.len()
        invariant
            i <= last@.len(),
            has_colon == (exists|j: int| 0 <= j < i && last@[j] == ':'),
            has_alpha == (exists|j: int| 0 <= j < i && is_alpha(#[trigger] last@[j])),
            has_digit == (exists|j: int| 0 <= j < i && is_digit(#[trigger] last@[j])),
        decreases last.len() - i,
    {
        let c = last[i];
        if c == ':' {
            has_colon = true;
        }
        if char_is_alpha(c) {
            has_alpha = true;
        }
        if char_is_digit(c) {
            has_digit = true;
        }
        i = i + 1;
    }
    proof {
        if last@.contains(':') {
            let j = choose|j: int| 0 <= j < last@.len() && last@[j] == ':';
            assert(last@[j] == ':');
        }
        if has_colon {
            let j = choose|j: int| 0 <= j < i && last@[j] == ':';
            assert(last@.contains(':'));
        }
    }
    !has_colon && has_alpha && has_digit
}

// ---------------------------------------------------------------------------
// Profile lists and string literals
// ---------------------------------------------------------------------------

/// The items of a callable profile list: none for `-` or nothing, else the
/// pieces between `|` when there is one, and between `,` otherwise.
pub open spec fn profile_list_spec(v: Seq<char>) -> Seq<Seq<char>> {
    if v == "-"@ || v.len() == 0 {
        Seq::empty()
    } else if v.contains('|') {
        split_on(v, '|')
    } else {
        split_on(v, ',')
    }
}

pub fn split_profile_list(value: &str) -> (r: Vec<String>)
    ensures
        crate::text::string_views(r@) == profile_list_spec(value@),
{
    let v = chars_of(value);
    let mut out: Vec<String> = Vec::new();
    if v.len() == 0 || chars_eq(&v, &chars_of("-")) {
        assert(crate::text::string_views(out@) =~= Seq::<Seq<char>>::empty());
        return out;
    }
    let bar = find_char(&v, '|');
    proof {
        lemma_first_index_of(v@, '|');
        if v@.contains('|') {
            let j = choose|j: int| 0 <= j < v@.len() && v@[j] == '|';
            assert(v@[j] == '|');
        }
    }
    let pieces = if bar.is_some() { split_on_char(&v, '|') } else { split_on_char(&v, ',') };
    let mut i: usize = 0;
    while i < pieces.len()
        invariant
            i <= pieces@.len(),
            crate::text::string_views(out@) == char_vecs(pieces@).take(i as int),
        decreases pieces.len() - i,
    {
        let ghost prev = out@;
        let item = string_of(&pieces[i]);
        out.push(item);
        assert(crate::text::string_views(out@) =~= crate::text::string_views(prev).push(pieces@[i as int]@));
        assert(char_vecs(pieces@).take(i + 1) =~= char_vecs(pieces@).take(i as int).push(pieces@[i as int]@));
        i = i + 1;
    }
    assert(char_vecs(pieces@).take(pieces@.len() as int) =~= char_vecs(pieces@));
    out
}

/// Number of leading `c`s of `s`.
pub open spec fn lead_run(s: Seq<char>, c: char) -> nat
    decreases s.len(),
{
    if s.len() > 0 && s[0] == c {
        1 + lead_run(s.drop_first(), c)
    } else {
        0
    }
}

/// Number of trailing `c`s of `s`.
pub open spec fn trail_run(s: Seq<char>, c: char) -> nat
    decreases s.len(),
{
    if s.len() > 0 && s.last() == c {
        1 + trail_run(s.drop_last(), c)
    } else {
        0
    }
}

/// `s` without the `c`s at either end, as `str::trim_matches`.
pub open spec fn trim_char(s: Seq<char>, c: char) -> Seq<char> {
    if lead_run(s, c) == s.len() {
        Seq::empty()
    } else {
        s.subrange(lead_run(s, c) as int, s.len() - trail_run(s, c))
    }
}

proof fn lemma_lead_run(s: Seq<char>, c: char, k: int)
    requires
        0 <= k <= s.len(),
        forall|j: int| 0 <= j < k ==> s[j] == c,
        k == s.len() || s[k] != c,
    ensures
        lead_run(s, c) == k,
    decreases k,
{
    if k > 0 {
        assert forall|j: int| 0 <= j < k - 1 implies s.drop_first()[j] == c by {
            assert(s.drop_first()[j] == s[j + 1]);
        }
        lemma_lead_run(s.drop_first(), c, k - 1);
    }
}

proof fn lemma_trail_run(s: Seq<char>, c: char, k: int)
    requires
        0 <= k <= s.len(),
        forall|j: int| s.len() - k <= j < s.len() ==> s[j] == c,
        k == s.len() || s[s.len() - k - 1] != c,
    ensures
        trail_run(s, c) == k,
    decreases k,
{
    if k > 0 {
        assert forall|j: int| s.drop_last().len() - (k - 1) <= j < s.drop_last().len() implies s.drop_last()[j] == c by {
            assert(s.drop_last()[j] == s[j]);
        }
        if k - 1 < s.drop_last().len() {
            assert(s.drop_last()[s.drop_last().len() - (k - 1) - 1] == s[s.len() - k - 1]);
        }
        lemma_trail_run(s.drop_last(), c, k - 1);
    }
}

fn trim_char_chars(s: &[char], c: char) -> (r: Vec<char>)
    ensures
        r@ == trim_char(s@, c),
{
    let n = s.len();
    let mut a: usize = 0;
    while a < n && s[a] == c
        invariant
            n == s@.len(),
            a <= n,
            forall|j: int| 0 <= j < a ==> s@[j] == c,
        decreases n - a,
    {
        a = a + 1;
    }
    proof { lemma_lead_run(s@, c, a as int); }
    if a == n {
        return Vec::new();
    }
    let mut b: usize = 0;
    while b < n && s[n - b - 1] == c
        invariant
            n == s@.len(),
            b <= n,
            forall|j: int| n - b <= j < n ==> s@[j] == c,
        decreases n - b,
    {
        b = b + 1;
    }
    proof { lemma_trail_run(s@, c, b as int); }
    assert(s@[a as int] != c);
    assert(a + b < n) by {
        if a + b >= n {
            assert(s@[a as int] == c);
        }
    }
    slice_chars(s, a, n - b)
}

/// The body of a string literal: its surrounding quotes dropped and every
/// doubled quote read as one.
pub open spec fn string_literal_body(t: Seq<char>) -> Seq<char> {
    collapse_doubled(trim_char(t, '"'), '"')
}

pub fn decode_string_literal(text: &str) -> (r: String)
    ensures
        r@ == string_literal_body(text@),
{
    let t = chars_of(text);
    let inner = trim_char_chars(&t, '"');
    string_of(&collapse_doubled_chars(&inner, '"'))
}

/// A column label reads back through `column_to_index` as its column.
pub proof fn lemma_column_label_reads_back(n: u32)
    requires
        n > 0,
    ensures
        crate::binding::parse::column_index_spec(letters_spec(n as nat)) == Some(n),
{
    lemma_column_letters_round_trip(n as nat);
}

/// The A1 label of a cell reads back through `parse_a1_cell` as that
/// cell's column and row.
pub proof fn lemma_a1_label_reads_back(col: usize, row: usize)
    requires
        col > 0,
    ensures
        a1_column_fits(a1_label(col as nat, row as nat)),
        a1_cell_local_spec(a1_label(col as nat, row as nat)) == Some((col, row)),
{
    let l = letters_spec(col as nat);
    let d = decimal(row as nat);
    let s = a1_label(col as nat, row as nat);
    lemma_column_letters_round_trip(col as nat);
    crate::text::lemma_decimal_round_trip(row as nat);
    assert(s[l.len() as int] == d[0]);
    assert forall|j: int| 0 <= j < l.len() implies !(#[trigger] digit_pred()(s[j])) by {
        assert(s[j] == l[j]);
        assert(is_alpha(l[j]));
    }
    lemma_first_where_at(s, digit_pred(), l.len() as int);
    assert(s.take(l.len() as int) =~= l);
    assert(s.skip(l.len() as int) =~= d);
    assert(without_plus(d) == d);
}

// ---------------------------------------------------------------------------
// Special forms
// ---------------------------------------------------------------------------

#[derive(Debug, Clone, Copy, PartialEq, Eq)]
pub enum CompiledFunctionSpecialForm {
    Ordinary,
    Let,
    Lambda,
    If,
    IfError,
    LegacySingle,
}

/// The special form a function's surface name calls for; names match
/// exactly, in upper case.
pub open spec fn special_form_spec(name: Seq<char>) -> CompiledFunctionSpecialForm {
    if name == "LET"@ {
        CompiledFunctionSpecialForm::Let
    } else if name == "LAMBDA"@ {
        CompiledFunctionSpecialForm::Lambda
    } else if name == "IF"@ {
        CompiledFunctionSpecialForm::If
    } else if name == "IFERROR"@ {
        CompiledFunctionSpecialForm::IfError
    } else if name == "_XLFN.SINGLE"@ || name == "SINGLE"@ {
        CompiledFunctionSpecialForm::LegacySingle
    } else {
        CompiledFunctionSpecialForm::Ordinary
    }
}

impl CompiledFunctionSpecialForm {
    pub fn from_surface_name(surface_name: &str) -> (r: CompiledFunctionSpecialForm)
        ensures
            r == special_form_spec(surface_name@),
    {
        let n = chars_of(surface_name);
        if chars_eq(&n, &chars_of("LET")) {
            CompiledFunctionSpecialForm::Let
        } else if chars_eq(&n, &chars_of("LAMBDA")) {
            CompiledFunctionSpecialForm::Lambda
        } else if chars_eq(&n, &chars_of("IF")) {
            CompiledFunctionSpecialForm::If
        } else if chars_eq(&n, &chars_of("IFERROR")) {
            CompiledFunctionSpecialForm::IfError
        } else if chars_eq(&n, &chars_of("_XLFN.SINGLE")) || chars_eq(&n, &chars_of("SINGLE")) {
            CompiledFunctionSpecialForm::LegacySingle
        } else {
            CompiledFunctionSpecialForm::Ordinary
        }
    }
}

// ---------------------------------------------------------------------------
// Callable profiles and capability dependencies
// ---------------------------------------------------------------------------

/// The fields a callable profile summary has set so far.
pub struct ProfileFields {
    pub arity: Option<usize>,
    pub required_arity: Option<usize>,
    pub parameter_names: Option<Seq<Seq<char>>>,
    pub optional_parameter_names: Option<Seq<Seq<char>>>,
    pub capture_names: Option<Seq<Seq<char>>>,
    pub body_kind: Option<Seq<char>>,
}

pub open spec fn no_fields() -> ProfileFields {
    ProfileFields {
        arity: None,
        required_arity: None,
        parameter_names: None,
        optional_parameter_names: None,
        capture_names: None,
        body_kind: None,
    }
}

/// One `key=value` part applied to the fields: a known key sets its field
/// (a count that does not parse unsets it); other keys change nothing.
pub open spec fn apply_profile_part(f: ProfileFields, key: Seq<char>, value: Seq<char>) -> ProfileFields {
    if key == "arity"@ {
        ProfileFields { arity: parse_usize_spec(value), ..f }
    } else if key == "required_arity"@ {
        ProfileFields { required_arity: parse_usize_spec(value), ..f }
    } else if key == "params"@ {
        ProfileFields { parameter_names: Some(profile_list_spec(value)), ..f }
    } else if key == "optional_params"@ {
        ProfileFields { optional_parameter_names: Some(profile_list_spec(value)), ..f }
    } else if key == "captures"@ {
        ProfileFields { capture_names: Some(profile_list_spec(value)), ..f }
    } else if key == "body"@ {
        ProfileFields { body_kind: Some(value), ..f }
    } else {
        f
    }
}

/// The fields set by `parts` in order; nothing when a part has no `=`.
pub open spec fn fold_profile_parts(parts: Seq<Seq<char>>) -> Option<ProfileFields>
    decreases parts.len(),
{
    if parts.len() == 0 {
        Some(no_fields())
    } else {
        match fold_profile_parts(parts.drop_last()) {
            None => None,
            Some(f) => match first_index_of(parts.last(), '=') {
                None => None,
                Some(k) => Some(apply_profile_part(f, parts.last().take(k), parts.last().skip(k + 1))),
            },
        }
    }
}

pub struct CallableProfileModel {
    pub arity: usize,
    pub required_arity: usize,
    pub parameter_names: Seq<Seq<char>>,
    pub optional_parameter_names: Seq<Seq<char>>,
    pub capture_names: Seq<Seq<char>>,
    pub body_kind: Seq<char>,
}

impl CallableValueProfile {
    pub open spec fn model(&self) -> CallableProfileModel {
        CallableProfileModel {
            arity: self.arity,
            required_arity: self.required_arity,
            parameter_names: crate::text::string_views(self.parameter_names@),
            optional_parameter_names: crate::text::string_views(self.optional_parameter_names@),
            capture_names: crate::text::string_views(self.capture_names@),
            body_kind: self.body_kind@,
        }
    }
}

pub open spec fn list_or_empty(l: Option<Seq<Seq<char>>>) -> Seq<Seq<char>> {
    match l {
        Some(x) => x,
        None => Seq::empty(),
    }
}

/// The callable profile a summary such as
/// `arity=2;required_arity=1;params=x|y;optional_params=-;captures=-;body=expr`
/// describes: its `;`-separated parts each set one field, later parts
/// winning; the arity and the body kind must be set, the required arity
/// defaults to the arity and the name lists to nothing.
pub open spec fn callable_profile_spec(summary: Seq<char>) -> Option<CallableProfileModel> {
    match fold_profile_parts(split_on(summary, ';')) {
        None => None,
        Some(f) => match (f.arity, f.body_kind) {
            (Some(a), Some(b)) => Some(CallableProfileModel {
                arity: a,
                required_arity: match f.required_arity {
                    Some(r) => r,
                    None => a,
                },
                parameter_names: list_or_empty(f.parameter_names),
                optional_parameter_names: list_or_empty(f.optional_parameter_names),
                capture_names: list_or_empty(f.capture_names),
                body_kind: b,
            }),
            _ => None,
        },
    }
}

pub open spec fn opt_list_model(l: Option<Vec<String>>) -> Option<Seq<Seq<char>>> {
    match l {
        Some(v) => Some(crate::text::string_views(v@)),
        None => None,
    }
}

pub open spec fn opt_text_model(l: Option<Vec<char>>) -> Option<Seq<char>> {
    match l {
        Some(v) => Some(v@),
        None => None,
    }
}

pub fn callable_profile_detail_from_summary(summary: &str) -> (r: Option<CallableValueProfile>)
    ensures
        match r {
            Some(p) => callable_profile_spec(summary@) == Some(p.model()),
            None => callable_profile_spec(summary@) is None,
        },
{
    let s = chars_of(summary);
    let parts = split_on_char(&s, ';');
    let ghost ps = char_vecs(parts@);
    let mut arity: Option<usize> = None;
    let mut required_arity: Option<usize> = None;
    let mut parameter_names: Option<Vec<String>> = None;
    let mut optional_parameter_names: Option<Vec<String>> = None;
    let mut capture_names: Option<Vec<String>> = None;
    let mut body_kind: Option<Vec<char>> = None;
    let mut i: usize = 0;
    assert(ps.take(0) =~= Seq::<Seq<char>>::empty());
    while i < parts.len()
        invariant
            i <= parts@.len(),
            ps == char_vecs(parts@),
            ps == split_on(s@, ';'),
            s@ == summary@,
            fold_profile_parts(ps.take(i as int)) == Some(ProfileFields {
                arity: arity,
                required_arity: required_arity,
                parameter_names: opt_list_model(parameter_names),
                optional_parameter_names: opt_list_model(optional_parameter_names),
                capture_names: opt_list_model(capture_names),
                body_kind: opt_text_model(body_kind),
            }),
        decreases parts.len() - i,
    {
        let part = &parts[i];
        let plen = part.len();
        assert(ps.take(i + 1).drop_last() =~= ps.take(i as int));
        assert(ps.take(i + 1).last() == part@);
        let k = match find_char(part, '=') {
            Some(k) => k,
            None => {
                assert(fold_profile_parts(ps.take(i + 1)) is None);
                proof { lemma_fold_profile_none(ps, i as int + 1); }
                assert(ps.take(ps.len() as int) =~= ps);
                return None;
            },
        };
        let key = slice_chars(part, 0, k);
        let value = slice_chars(part, k + 1, plen);
        assert(key@ =~= part@.take(k as int));
        assert(value@ =~= part@.skip(k + 1));
        if chars_eq(&key, &chars_of("arity")) {
            arity = parse_usize(&value);
        } else if chars_eq(&key, &chars_of("required_arity")) {
            required_arity = parse_usize(&value);
        } else if chars_eq(&key, &chars_of("params")) {
            parameter_names = Some(split_profile_list(string_of(&value).as_str()));
        } else if chars_eq(&key, &chars_of("optional_params")) {
            optional_parameter_names = Some(split_profile_list(string_of(&value).as_str()));
        } else if chars_eq(&key, &chars_of("captures")) {
            capture_names = Some(split_profile_list(string_of(&value).as_str()));
        } else if chars_eq(&key, &chars_of("body")) {
            body_kind = Some(value);
        }
        i = i + 1;
    }
    assert(ps.take(ps.len() as int) =~= ps);
    let a = match arity {
        Some(a) => a,
        None => return None,
    };
    let b = match body_kind {
        Some(b) => b,
        None => return None,
    };
    let params = match parameter_names {
        Some(v) => v,
        None => Vec::new(),
    };
    let optional = match optional_parameter_names {
        Some(v) => v,
        None => Vec::new(),
    };
    let captures = match capture_names {
        Some(v) => v,
        None => Vec::new(),
    };
    assert(crate::text::string_views(params@) =~= list_or_empty(opt_list_model(parameter_names)));
    assert(crate::text::string_views(optional@) =~= list_or_empty(opt_list_model(optional_parameter_names)));
    assert(crate::text::string_views(captures@) =~= list_or_empty(opt_list_model(capture_names)));
    Some(CallableValueProfile {
        arity: a,
        parameter_names: params,
        optional_parameter_names: optional,
        capture_names: captures,
        required_arity: match required_arity {
            Some(r) => r,
            None => a,
        },
        body_kind: string_of(&b),
    })
}

/// A part without `=` leaves no profile, whatever follows it.
pub proof fn lemma_fold_profile_none(parts: Seq<Seq<char>>, k: int)
    requires
        0 < k <= parts.len(),
        fold_profile_parts(parts.take(k)) is None,
    ensures
        fold_profile_parts(parts) is None,
    decreases parts.len() - k,
{
    if k < parts.len() {
        assert(parts.take(k + 1).drop_last() =~= parts.take(k));
        lemma_fold_profile_none(parts, k + 1);
    } else {
        assert(parts.take(k) =~= parts);
    }
}

/// A capability requirement a prepared result reports as a dependency.
pub open spec fn reported_capability(r: Seq<char>) -> bool {
    r == "caller_context"@ || r == "host_query"@ || r == "locale_format_context"@ || r == "time_provider"@
        || r == "random_provider"@ || r == "helper_environment"@ || r == "legacy_single_compat"@
        || r == "external_reference"@ || r == "spill_reference"@
}

/// The requirements of `s` that are reported, in order.
pub open spec fn reported_capabilities(s: Seq<Seq<char>>) -> Seq<Seq<char>>
    decreases s.len(),
{
    if s.len() == 0 {
        Seq::empty()
    } else if reported_capability(s.last()) {
        reported_capabilities(s.drop_last()).push(s.last())
    } else {
        reported_capabilities(s.drop_last())
    }
}

fn is_reported_capability(r: &String) -> (b: bool)
    ensures
        b == reported_capability(r@),
{
    let c = chars_of(r.as_str());
    chars_eq(&c, &chars_of("caller_context")) || chars_eq(&c, &chars_of("host_query"))
        || chars_eq(&c, &chars_of("locale_format_context")) || chars_eq(&c, &chars_of("time_provider"))
        || chars_eq(&c, &chars_of("random_provider")) || chars_eq(&c, &chars_of("helper_environment"))
        || chars_eq(&c, &chars_of("legacy_single_compat")) || chars_eq(&c, &chars_of("external_reference"))
        || chars_eq(&c, &chars_of("spill_reference"))
}

/// The capability dependencies of a prepared result: the reported
/// requirements of its plan, distinct and in order.
pub fn prepared_result_capability_dependencies(capability_requirements: &Vec<String>) -> (r: Vec<String>)
    ensures
        crate::text::string_views(r@) == sorted_distinct(reported_capabilities(crate::text::string_views(capability_requirements@))),
{
    let ghost reqs = crate::text::string_views(capability_requirements@);
    let mut kept: Vec<String> = Vec::new();
    let mut i: usize = 0;
    assert(reqs.take(0) =~= Seq::<Seq<char>>::empty());
    assert(crate::text::string_views(kept@) =~= reported_capabilities(reqs.take(0)));
    while i < capability_requirements.len()
        invariant
            i <= capability_requirements@.len(),
            reqs == crate::text::string_views(capability_requirements@),
            crate::text::string_views(kept@) == reported_capabilities(reqs.take(i as int)),
        decreases capability_requirements.len() - i,
    {
        assert(reqs.take(i + 1).drop_last() =~= reqs.take(i as int));
        assert(reqs.take(i + 1).last() == capability_requirements@[i as int]@);
        if is_reported_capability(&capability_requirements[i]) {
            let ghost prev = kept@;
            let item = string_of(&chars_of(capability_requirements[i].as_str()));
            kept.push(item);
            assert(crate::text::string_views(kept@) =~= crate::text::string_views(prev).push(capability_requirements@[i as int]@));
        }
        i = i + 1;
    }
    assert(reqs.take(reqs.len() as int) =~= reqs);
    let sorted = sorted_distinct_strings(&kept);
    proof {
        lemma_sorted_unique(char_vecs(sorted@), sorted_distinct(crate::text::string_views(kept@)));
    }
    let mut out: Vec<String> = Vec::new();
    let mut j: usize = 0;
    while j < sorted.len()
        invariant
            j <= sorted@.len(),
            crate::text::string_views(out@) == char_vecs(sorted@).take(j as int),
        decreases sorted.len() - j,
    {
        let ghost prev = out@;
        let item = string_of(&sorted[j]);
        out.push(item);
        assert(crate::text::string_views(out@) =~= crate::text::string_views(prev).push(sorted@[j as int]@));
        assert(char_vecs(sorted@).take(j + 1) =~= char_vecs(sorted@).take(j as int).push(sorted@[j as int]@));
        j = j + 1;
    }
    assert(char_vecs(sorted@).take(sorted@.len() as int) =~= char_vecs(sorted@));
    out
}

// ---------------------------------------------------------------------------
// Numeric literals
// ---------------------------------------------------------------------------

/// A numeric literal made ready for parsing: trimmed, with a `0` put
/// before a leading point (after its sign, if any).
pub open spec fn normalized_literal_spec(text: Seq<char>) -> Seq<char> {
    let t = trim(text);
    if t.len() >= 2 && t[0] == '+' && t[1] == '.' {
        "+0."@ + t.skip(2)
    } else if t.len() >= 2 && t[0] == '-' && t[1] == '.' {
        "-0."@ + t.skip(2)
    } else if t.len() >= 1 && t[0] == '.' {
        "0."@ + t.skip(1)
    } else {
        t
    }
}

pub fn normalize_excel_numeric_literal_for_parse(text: &str) -> (r: String)
    ensures
        r@ == normalized_literal_spec(text@),
{
    let t = trim_chars(&chars_of(text));
    let n = t.len();
    if n >= 2 && t[0] == '+' && t[1] == '.' {
        let mut out = chars_of("+0.");
        push_chars(&mut out, &slice_chars(&t, 2, n));
        assert(t@.subrange(2, n as int) =~= t@.skip(2));
        string_of(&out)
    } else if n >= 2 && t[0] == '-' && t[1] == '.' {
        let mut out = chars_of("-0.");
        push_chars(&mut out, &slice_chars(&t, 2, n));
        assert(t@.subrange(2, n as int) =~= t@.skip(2));
        string_of(&out)
    } else if n >= 1 && t[0] == '.' {
        let mut out = chars_of("0.");
        push_chars(&mut out, &slice_chars(&t, 1, n));
        assert(t@.subrange(1, n as int) =~= t@.skip(1));
        string_of(&out)
    } else {
        string_of(&t)
    }
}

/// The literal without surrounding whitespace and without its sign.
pub open spec fn unsigned_literal(raw: Seq<char>) -> Seq<char> {
    let t = trim(raw);
    if t.len() > 0 && (t[0] == '+' || t[0] == '-') {
        t.drop_first()
    } else {
        t
    }
}

pub open spec fn exp_pred() -> spec_fn(char) -> bool {
    |c: char| c == 'e' || c == 'E'
}

/// The coefficient and the exponent of an unsigned literal: the text before
/// the first `e` or `E` and the integer after it; the exponent is zero
/// without a marker, and nothing is read when it does not parse.
pub open spec fn coefficient_exponent(t: Seq<char>) -> Option<(Seq<char>, i32)> {
    match first_where(t, exp_pred()) {
        Some(i) => match parse_i32_spec(t.skip(i + 1)) {
            Some(e) => Some((t.take(i), e)),
            None => None,
        },
        None => Some((t, 0i32)),
    }
}

/// A coefficient read left to right: its digits, how many of them come
/// before the point, and whether a point was seen; nothing at a character
/// that is neither a digit nor a first point.
pub open spec fn coefficient_scan(c: Seq<char>) -> Option<(Seq<char>, nat, bool)>
    decreases c.len(),
{
    if c.len() == 0 {
        Some((Seq::empty(), 0, false))
    } else {
        match coefficient_scan(c.drop_last()) {
            None => None,
            Some((d, n, seen)) => {
                let x = c.last();
                if is_digit(x) {
                    Some((d.push(x), if seen { n } else { n + 1 }, seen))
                } else if x == '.' && !seen {
                    Some((d, n, true))
                } else {
                    None
                }
            },
        }
    }
}

pub open spec fn nonzero_pred() -> spec_fn(char) -> bool {
    |d: char| d != '0'
}

/// The digit of `s` at `k`, or `0` past its end.
pub open spec fn pad_digit(s: Seq<char>, k: int) -> char {
    if 0 <= k < s.len() { s[k] } else { '0' }
}

/// `a` reads below `b` as digit strings padded with zeros to one width,
/// comparing from position `k` on.
pub open spec fn padded_less_from(a: Seq<char>, b: Seq<char>, k: int) -> bool
    decreases (if a.len() > b.len() { a.len() } else { b.len() }) - k,
{
    let width: int = if a.len() > b.len() { a.len() as int } else { b.len() as int };
    if k < 0 || k >= width {
        false
    } else if pad_digit(a, k) != pad_digit(b, k) {
        pad_digit(a, k) < pad_digit(b, k)
    } else {
        padded_less_from(a, b, k + 1)
    }
}

/// The significant digits of the smallest positive normal double.
pub open spec fn admission_floor_digits() -> Seq<char> {
    "222507385850721"@
}

/// The pieces of a literal's underflow test: its digits, the count before
/// the point, its exponent and its first significant digit.
pub open spec fn literal_pieces(raw: Seq<char>) -> Option<(Seq<char>, nat, i32, int)> {
    match coefficient_exponent(unsigned_literal(raw)) {
        None => None,
        Some((c, e)) => match coefficient_scan(c) {
            None => None,
            Some((d, n, _)) => match first_where(d, nonzero_pred()) {
                None => None,
                Some(f) => Some((d, n, e, f)),
            },
        },
    }
}

/// A numeric literal lies below the smallest normal double: its decimal
/// exponent, counted from its first significant digit, is under `-308`, or
/// is `-308` with significant digits below `2.22507385850721`.
pub open spec fn underflows_spec(raw: Seq<char>) -> bool {
    match literal_pieces(raw) {
        None => false,
        Some((d, n, e, f)) => {
            let adjusted = e + n - f - 1;
            if adjusted < -308 {
                true
            } else if adjusted > -308 {
                false
            } else {
                padded_less_from(d.skip(f), admission_floor_digits(), 0)
            }
        },
    }
}

/// The exponent arithmetic of the underflow test stays within 32 bits.
pub open spec fn underflow_arithmetic_fits(raw: Seq<char>) -> bool {
    match literal_pieces(raw) {
        None => true,
        Some((d, n, e, f)) => {
            &&& n <= i32::MAX
            &&& f <= i32::MAX
            &&& i32::MIN <= e + n <= i32::MAX
            &&& i32::MIN <= e + n - f - 1
        },
    }
}

proof fn lemma_scan_none_extends(c: Seq<char>, k: int)
    requires
        0 <= k <= c.len(),
        coefficient_scan(c.take(k)) is None,
    ensures
        coefficient_scan(c) is None,
    decreases c.len() - k,
{
    if k < c.len() {
        assert(c.take(k + 1).drop_last() =~= c.take(k));
        lemma_scan_none_extends(c, k + 1);
    } else {
        assert(c.take(k) =~= c);
    }
}

pub fn numeric_literal_underflows_excel_admission_floor(raw: &str) -> (r: bool)
    requires
        underflow_arithmetic_fits(raw@),
    ensures
        r == underflows_spec(raw@),
{
    let t0 = trim_chars(&chars_of(raw));
    let t = if t0.len() > 0 && (t0[0] == '+' || t0[0] == '-') { slice_chars(&t0, 1, t0.len()) } else { t0 };
    assert(t@ =~= unsigned_literal(raw@));
    let tn = t.len();
    let mut m: usize = 0;
    while m < tn && !(t[m] == 'e' || t[m] == 'E')
        invariant
            tn == t@.len(),
            m <= tn,
            forall|j: int| 0 <= j < m ==> !(#[trigger] exp_pred()(t@[j])),
        decreases tn - m,
    {
        m = m + 1;
    }
    let (coef, exponent) = if m < tn {
        proof { lemma_first_where_at(t@, exp_pred(), m as int); }
        let exp_text = slice_chars(&t, m + 1, tn);
        assert(exp_text@ =~= t@.skip(m + 1));
        match parse_i32(&exp_text) {
            Some(e) => {
                let c = slice_chars(&t, 0, m);
                assert(c@ =~= t@.take(m as int));
                (c, e)
            },
            None => return false,
        }
    } else {
        proof { lemma_first_where_none(t@, exp_pred()); }
        (t, 0i32)
    };
    assert(coefficient_exponent(unsigned_literal(raw@)) == Some((coef@, exponent)));
    let cn = coef.len();
    let mut digits: Vec<char> = Vec::new();
    let mut before: usize = 0;
    let mut seen = false;
    let mut i: usize = 0;
    assert(coef@.take(0) =~= Seq::<char>::empty());
    while i < cn
        invariant
            cn == coef@.len(),
            i <= cn,
            before <= i,
            coefficient_scan(coef@.take(i as int)) == Some((digits@, before as nat, seen)),
            coefficient_exponent(unsigned_literal(raw@)) == Some((coef@, exponent)),
        decreases cn - i,
    {
        let x = coef[i];
        assert(coef@.take(i + 1).drop_last() =~= coef@.take(i as int));
        assert(coef@.take(i + 1).last() == x);
        if char_is_digit(x) {
            if !seen {
                before = before + 1;
            }
            digits.push(x);
        } else if x == '.' && !seen {
            seen = true;
        } else {
            proof { lemma_scan_none_extends(coef@, i + 1); }
            return false;
        }
        i = i + 1;
    }
    assert(coef@.take(cn as int) =~= coef@);
    let dn = digits.len();
    let mut f: usize = 0;
    while f < dn && digits[f] == '0'
        invariant
            dn == digits@.len(),
            f <= dn,
            forall|j: int| 0 <= j < f ==> !(#[trigger] nonzero_pred()(digits@[j])),
        decreases dn - f,
    {
        f = f + 1;
    }
    if f == dn {
        proof { lemma_first_where_none(digits@, nonzero_pred()); }
        return false;
    }
    proof { lemma_first_where_at(digits@, nonzero_pred(), f as int); }
    let adjusted: i64 = exponent as i64 + before as i64 - f as i64 - 1;
    if adjusted < -308 {
        return true;
    }
    if adjusted > -308 {
        return false;
    }
    let sig = slice_chars(&digits, f, dn);
    assert(sig@ =~= digits@.skip(f as int));
    let floor = chars_of("222507385850721");
    let width: usize = if sig.len() > floor.len() { sig.len() } else { floor.len() };
    assert(underflows_spec(raw@) == padded_less_from(sig@, floor@, 0));
    let mut k: usize = 0;
    while k < width
        invariant
            underflows_spec(raw@) == padded_less_from(sig@, floor@, 0),
            width == (if sig@.len() > floor@.len() { sig@.len() } else { floor@.len() }),
            k <= width,
            padded_less_from(sig@, floor@, 0) == padded_less_from(sig@, floor@, k as int),
        decreases width - k,
    {
        let a = if k < sig.len() { sig[k] } else { '0' };
        let b = if k < floor.len() { floor[k] } else { '0' };
        if a != b {
            return a < b;
        }
        k = k + 1;
    }
    false
}

// ---------------------------------------------------------------------------
// Callables
// ---------------------------------------------------------------------------

/// The origin word of a callable token.
pub open spec fn origin_word(k: CallableOriginKind) -> Seq<char> {
    match k {
        CallableOriginKind::HelperLambda => "helper"@,
        CallableOriginKind::DefinedNameCallable => "defined"@,
    }
}

/// The token naming a registered callable: its id, its origin and its
/// summary.
pub open spec fn callable_token_spec(id: nat, origin_kind: CallableOriginKind, summary: Seq<char>) -> Seq<char> {
    "oxfml.callable."@ + decimal(id) + "."@ + origin_word(origin_kind) + "::"@ + summary
}

pub fn callable_token(id: usize, origin_kind: CallableOriginKind, summary: &str) -> (r: String)
    ensures
        r@ == callable_token_spec(id as nat, origin_kind, summary@),
{
    let mut out = chars_of("oxfml.callable.");
    push_decimal(&mut out, id as u64);
    push_str(&mut out, ".");
    match origin_kind {
        CallableOriginKind::HelperLambda => push_str(&mut out, "helper"),
        CallableOriginKind::DefinedNameCallable => push_str(&mut out, "defined"),
    }
    push_str(&mut out, "::");
    push_chars(&mut out, &chars_of(summary));
    string_of(&out)
}

/// The parameters of a `LAMBDA` head read so far: the required ones and
/// the optional ones, each in order; nothing once an argument is not a
/// parameter name.
pub open spec fn lambda_head_params(head: Seq<BoundExprModel>) -> Option<(Seq<Seq<char>>, Seq<Seq<char>>)>
    decreases head.len(),
{
    if head.len() == 0 {
        Some((Seq::empty(), Seq::empty()))
    } else {
        match lambda_head_params(head.drop_last()) {
            None => None,
            Some((params, optional)) => match head.last() {
                BoundExprModel::HelperParameterName(n) => Some((params.push(n), optional)),
                BoundExprModel::HelperOptionalParameterName(n) => Some((params, optional.push(n))),
                _ => None,
            },
        }
    }
}

/// A `LAMBDA` literal: a call of `LAMBDA` (in any ASCII case) with at least
/// one argument, all but the last being parameter names; its required
/// parameters, optional parameters and body.
pub open spec fn lambda_literal_spec(e: BoundExprModel) -> Option<(Seq<Seq<char>>, Seq<Seq<char>>, BoundExprModel)> {
    match e {
        BoundExprModel::FunctionCall { function_name, args } => if eq_ignore_case(function_name, "LAMBDA"@) && args.len() > 0 {
            match lambda_head_params(args.drop_last()) {
                Some((params, optional)) => Some((params, optional, args.last())),
                None => None,
            }
        } else {
            None
        },
        _ => None,
    }
}

proof fn lemma_head_none_extends(head: Seq<BoundExprModel>, k: int)
    requires
        0 <= k <= head.len(),
        lambda_head_params(head.take(k)) is None,
    ensures
        lambda_head_params(head) is None,
    decreases head.len() - k,
{
    if k < head.len() {
        assert(head.take(k + 1).drop_last() =~= head.take(k));
        lambda_head_params_none_step(head, k);
        lemma_head_none_extends(head, k + 1);
    } else {
        assert(head.take(k) =~= head);
    }
}

proof fn lambda_head_params_none_step(head: Seq<BoundExprModel>, k: int)
    requires
        0 <= k < head.len(),
        lambda_head_params(head.take(k)) is None,
    ensures
        lambda_head_params(head.take(k + 1)) is None,
{
    assert(head.take(k + 1).drop_last() =~= head.take(k));
}

/// The required parameters, optional parameters and body of a `LAMBDA`
/// literal, or `None` when the expression is not one.
pub fn lambda_literal_params_and_body(expr: &BoundExpr) -> (r: Option<(Vec<String>, Vec<String>, &BoundExpr)>)
    ensures
        match r {
            Some((params, optional, body)) => lambda_literal_spec(expr.model()) == Some((
                crate::text::string_views(params@),
                crate::text::string_views(optional@),
                body.model(),
            )),
            None => lambda_literal_spec(expr.model()) is None,
        },
{
    match expr {
        BoundExpr::FunctionCall { function_name, args } => {
            let ghost models = expr_models(args@);
            assert(expr.model() == BoundExprModel::FunctionCall { function_name: function_name@, args: models });
            assert(models.len() == args@.len());
            if !chars_eq_ignore_case(&chars_of(function_name.as_str()), &chars_of("LAMBDA")) || args.len() == 0 {
                return None;
            }
            let body_index = args.len() - 1;
            assert(models.drop_last() =~= expr_models(args@.take(body_index as int)));
            let mut params: Vec<String> = Vec::new();
            let mut optional: Vec<String> = Vec::new();
            let mut i: usize = 0;
            assert(models.drop_last().take(0) =~= Seq::<BoundExprModel>::empty());
            while i < body_index
                invariant
                    body_index == args@.len() - 1,
                    models == expr_models(args@),
                    models.len() == args@.len(),
                    expr.model() == (BoundExprModel::FunctionCall { function_name: function_name@, args: models }),
                    eq_ignore_case(function_name@, "LAMBDA"@),
                    i <= body_index,
                    lambda_head_params(models.drop_last().take(i as int)) == Some((
                        crate::text::string_views(params@),
                        crate::text::string_views(optional@),
                    )),
                decreases body_index - i,
            {
                let ghost head = models.drop_last();
                assert(head.take(i + 1).drop_last() =~= head.take(i as int));
                assert(head.take(i + 1).last() == args@[i as int].model());
                match &args[i] {
                    BoundExpr::HelperParameterName(name) => {
                        let ghost p0 = params@;
                        params.push(name.clone());
                        assert(crate::text::string_views(params@) =~= crate::text::string_views(p0).push(name@));
                    },
                    BoundExpr::HelperOptionalParameterName(name) => {
                        let ghost o0 = optional@;
                        optional.push(name.clone());
                        assert(crate::text::string_views(optional@) =~= crate::text::string_views(o0).push(name@));
                    },
                    _ => {
                        proof { lemma_head_none_extends(head, i + 1); }
                        assert(head.take(head.len() as int) =~= head);
                        return None;
                    },
                }
                i = i + 1;
            }
            assert(models.drop_last().take(body_index as int) =~= models.drop_last());
            assert(models.last() == args@[body_index as int].model());
            Some((params, optional, &args[body_index]))
        },
        _ => None,
    }
}

/// Whether std counts `c` as alphabetic.
pub uninterp spec fn unicode_alphabetic(c: char) -> bool;

/// Whether std counts `c` as alphanumeric.
pub uninterp spec fn unicode_alphanumeric(c: char) -> bool;

/// `char::is_alphabetic`: whether `c` has the Unicode `Alphabetic`
/// property. Which characters those are, std's tables decide; the contract
/// names the result and claims no more of it.
#[verifier::external_body]
fn char_is_unicode_alphabetic(c: char) -> (r: bool)
    ensures
        r == unicode_alphabetic(c),
{
    c.is_alphabetic()
}

/// `char::is_alphanumeric`: whether `c` is alphabetic or numeric in
/// Unicode. Which characters those are, std's tables decide; the contract
/// names the result and claims no more of it.
#[verifier::external_body]
fn char_is_unicode_alphanumeric(c: char) -> (r: bool)
    ensures
        r == unicode_alphanumeric(c),
{
    c.is_alphanumeric()
}

/// The source texts the binder gives the error references of a range,
/// union or intersection it could not bind.
pub open spec fn synthetic_error_text(t: Seq<char>) -> bool {
    t == "range"@ || t == "union"@ || t == "intersection"@
}

/// A text that reads as a defined name: not one of the binder's synthetic
/// error texts, and a letter or `_`, then letters, digits, `_` or `.`.
pub open spec fn identifier_like_spec(t: Seq<char>) -> bool {
    &&& !synthetic_error_text(t)
    &&& t.len() > 0
    &&& unicode_alphabetic(t[0]) || t[0] == '_'
    &&& forall|i: int| 1 <= i < t.len() ==> (unicode_alphanumeric(#[trigger] t[i]) || t[i] == '_' || t[i] == '.')
}

pub fn is_identifier_like(text: &str) -> (r: bool)
    ensures
        r == identifier_like_spec(text@),
{
    let t = chars_of(text);
    if chars_eq(&t, &chars_of("range")) || chars_eq(&t, &chars_of("union")) || chars_eq(&t, &chars_of("intersection")) {
        return false;
    }
    if t.len() == 0 {
        return false;
    }
    if !(char_is_unicode_alphabetic(t[0]) || t[0] == '_') {
        return false;
    }
    let mut i: usize = 1;
    while i < t.len()
        invariant
            t@ == text@,
            1 <= i <= t@.len(),
            forall|j: int| 1 <= j < i ==> (unicode_alphanumeric(#[trigger] t@[j]) || t@[j] == '_' || t@[j] == '.'),
        decreases t.len() - i,
    {
        let c = t[i];
        if !(char_is_unicode_alphanumeric(c) || c == '_' || c == '.') {
            return false;
        }
        i = i + 1;
    }
    true
}

/// The name and the dependency identity of a captured reference: a defined
/// name by its name, an unresolved `#NAME?` that reads as a name by its
/// text, and any other reference by its rendering.
pub open spec fn captured_ref_spec(r: NormalizedReferenceModel) -> (Seq<char>, Seq<char>) {
    match r {
        NormalizedReferenceModel::Name(n) => (n.name, "name:"@ + n.name),
        NormalizedReferenceModel::Error(e) => if e.error_class == "#NAME?"@ && identifier_like_spec(e.source_text) {
            (e.source_text, "name:"@ + e.source_text)
        } else {
            (render_reference(r), render_reference(r))
        },
        _ => (render_reference(r), render_reference(r)),
    }
}

pub fn captured_ref_name_and_identity(reference: &NormalizedReference) -> (r: (String, String))
    ensures
        (r.0@, r.1@) == captured_ref_spec(reference.model()),
{
    match reference {
        NormalizedReference::Name(name) => {
            let mut id = chars_of("name:");
            push_chars(&mut id, &chars_of(name.name.as_str()));
            (name.name.clone(), string_of(&id))
        },
        NormalizedReference::Error(error) => {
            if chars_eq(&chars_of(error.error_class.as_str()), &chars_of("#NAME?")) && is_identifier_like(error.source_text.as_str()) {
                let mut id = chars_of("name:");
                push_chars(&mut id, &chars_of(error.source_text.as_str()));
                (error.source_text.clone(), string_of(&id))
            } else {
                let identity = reference.to_string();
                (identity.clone(), identity)
            }
        },
        _ => {
            let identity = reference.to_string();
            (identity.clone(), identity)
        },
    }
}

// ---------------------------------------------------------------------------
// Helper slots
// ---------------------------------------------------------------------------

/// The key of a helper name: the name in ASCII upper case, so that names
/// match without regard to case.
pub fn helper_name_key(name: &str) -> (r: String)
    ensures
        r@ == upper_seq(name@),
{
    string_of(&to_upper(&chars_of(name)))
}

/// The slot of `key` among the entries, if it has one.
pub open spec fn slot_of(entries: Seq<(String, usize)>, key: Seq<char>) -> Option<usize>
    decreases entries.len(),
{
    if entries.len() == 0 {
        None
    } else if entries.last().0@ == key {
        Some(entries.last().1)
    } else {
        slot_of(entries.drop_last(), key)
    }
}

/// The helper names a compile scope has defined, each with its slot, and
/// the next free slot.
pub struct CompileHelperScope {
    pub helper_slots: Vec<(String, usize)>,
    pub next_slot: usize,
}

impl CompileHelperScope {
    /// The slot each helper key names.
    pub open spec fn slots(&self) -> Seq<(String, usize)> {
        self.helper_slots@
    }

    /// A scope with nothing defined, its first slot zero.
    pub fn new() -> (r: CompileHelperScope)
        ensures
            r.helper_slots@.len() == 0,
            r.next_slot == 0,
    {
        CompileHelperScope { helper_slots: Vec::new(), next_slot: 0 }
    }

    /// A scope for a nested body: the same definitions and next slot, which
    /// the nested body extends without touching this one.
    pub fn child(&self) -> (r: CompileHelperScope)
        ensures
            r.next_slot == self.next_slot,
            forall|k: Seq<char>| slot_of(r.slots(), k) == slot_of(self.slots(), k),
    {
        let mut entries: Vec<(String, usize)> = Vec::new();
        let mut i: usize = 0;
        while i < self.helper_slots.len()
            invariant
                i <= self.helper_slots@.len(),
                entries@ == self.helper_slots@.take(i as int),
            decreases self.helper_slots.len() - i,
        {
            let (name, slot) = (self.helper_slots[i].0.clone(), self.helper_slots[i].1);
            entries.push((name, slot));
            assert(self.helper_slots@.take(i + 1) =~= self.helper_slots@.take(i as int).push(self.helper_slots@[i as int]));
            i = i + 1;
        }
        assert(self.helper_slots@.take(self.helper_slots@.len() as int) =~= self.helper_slots@);
        CompileHelperScope { helper_slots: entries, next_slot: self.next_slot }
    }

    /// Defines a helper name in the next slot and returns the slot; the
    /// name's key now names that slot, every other key what it named.
    pub fn define_helper(&mut self, name: &str) -> (slot: usize)
        requires
            old(self).next_slot < usize::MAX,
        ensures
            slot == old(self).next_slot,
            final(self).next_slot == old(self).next_slot + 1,
            slot_of(final(self).slots(), upper_seq(name@)) == Some(slot),
            forall|k: Seq<char>| k != upper_seq(name@) ==> slot_of(final(self).slots(), k) == slot_of(old(self).slots(), k),
    {
        let slot = self.next_slot;
        self.next_slot = self.next_slot + 1;
        let key = helper_name_key(name);
        let ghost before = self.helper_slots@;
        self.helper_slots.push((key, slot));
        assert(self.helper_slots@.drop_last() =~= before);
        slot
    }

    /// The slot of a helper name, matched without regard to ASCII case.
    pub fn helper_slot(&self, name: &str) -> (r: Option<usize>)
        ensures
            r == slot_of(self.slots(), upper_seq(name@)),
    {
        let key = chars_of(helper_name_key(name).as_str());
        let mut i: usize = self.helper_slots.len();
        assert(self.helper_slots@.take(i as int) =~= self.helper_slots@);
        while i > 0
            invariant
                i <= self.helper_slots@.len(),
                key@ == upper_seq(name@),
                slot_of(self.helper_slots@, key@) == slot_of(self.helper_slots@.take(i as int), key@),
            decreases i,
        {
            let entry_key = chars_of(self.helper_slots[i - 1].0.as_str());
            assert(self.helper_slots@.take(i as int).drop_last() =~= self.helper_slots@.take(i - 1));
            assert(self.helper_slots@.take(i as int).last() == self.helper_slots@[i - 1]);
            if chars_eq(&entry_key, &key) {
                return Some(self.helper_slots[i - 1].1);
            }
            i = i - 1;
        }
        None
    }
}

} // verus!
