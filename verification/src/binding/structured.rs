//! Structured (table) references: `Table[Column]`, `[@Column]`,
//! `Table[[#Headers],[A]:[B]]` and the table regions they select.

use vstd::prelude::*;

use crate::binding::BindContext;
use crate::binding::parse::{area_target_spec, parse_area_target, default_mode, min_u32, max_u32};
use crate::binding::reference::{
    AddressMode, AreaRefModel, CellCoord, CellRef, AreaRef, CellRefModel, StructuredRef, StructuredRefModel,
    StructuredResolvedRef, StructuredResolvedRefModel, StructuredSectionKind, StructuredSelectorKind,
};
use crate::interface::{TableColumnDescriptor, TableDescriptor, TableRegionKind};
use crate::source::FormulaChannelKind;
use crate::text::{eq_ignore_case, chars_eq_ignore_case, push_str, push_chars, push_string, string_of, string_views};
use crate::text::{
    ends_with_char, starts_with_char, char_vecs, chars_eq, chars_of, find_char, first_index_of, remove_all, remove_char, slice_chars,
    to_upper, trim, trim_chars, upper_seq,
};

verus! {

/// Scans for the bracket that closes the first `[`: `None` when a `]`
/// arrives at depth zero or the text ends first.
pub open spec fn bracket_scan(s: Seq<char>, i: int, depth: nat) -> Option<int>
    decreases s.len() - i,
{
    if i < 0 || i >= s.len() {
        None
    } else if s[i] == '[' {
        bracket_scan(s, i + 1, depth + 1)
    } else if s[i] == ']' {
        if depth == 0 {
            None
        } else if depth == 1 {
            Some(i)
        } else {
            bracket_scan(s, i + 1, (depth - 1) as nat)
        }
    } else {
        bracket_scan(s, i + 1, depth)
    }
}

/// Position of the bracket that closes the outermost opening bracket.
pub open spec fn matching_outer_bracket_spec(s: Seq<char>) -> Option<int> {
    bracket_scan(s, 0, 0)
}

pub fn matching_outer_bracket_end(s: &[char]) -> (r: Option<usize>)
    ensures
        match r {
            Some(i) => matching_outer_bracket_spec(s@) == Some(i as int),
            None => matching_outer_bracket_spec(s@) is None,
        },
{
    let mut depth: usize = 0;
    let mut i: usize = 0;
    while i < s.len()
        invariant
            i <= s@.len(),
            depth <= i,
            bracket_scan(s@, i as int, depth as nat) == matching_outer_bracket_spec(s@),
        decreases s.len() - i,
    {
        if s[i] == '[' {
            depth = depth + 1;
        } else if s[i] == ']' {
            if depth == 0 {
                return None;
            }
            depth = depth - 1;
            if depth == 0 {
                return Some(i);
            }
        }
        i = i + 1;
    }
    None
}

/// Splits at `delim` outside brackets, trimming each piece.
pub open spec fn segment_scan(s: Seq<char>, i: int, depth: nat, start: int, delim: char) -> Seq<Seq<char>>
    decreases s.len() - i,
{
    if i < 0 || i >= s.len() || start < 0 || start > i {
        seq![trim(s.subrange(start, s.len() as int))]
    } else if s[i] == '[' {
        segment_scan(s, i + 1, depth + 1, start, delim)
    } else if s[i] == ']' {
        segment_scan(s, i + 1, if depth == 0 { 0 } else { (depth - 1) as nat }, start, delim)
    } else if s[i] == delim && depth == 0 {
        seq![trim(s.subrange(start, i))] + segment_scan(s, i + 1, depth, i + 1, delim)
    } else {
        segment_scan(s, i + 1, depth, start, delim)
    }
}

/// The top-level segments of `s` between `delim`s, trimmed.
pub open spec fn top_level_segments_spec(s: Seq<char>, delim: char) -> Seq<Seq<char>> {
    segment_scan(s, 0, 0, 0, delim)
}

pub fn split_top_level_segments(s: &[char], delim: char) -> (r: Vec<Vec<char>>)
    requires
        delim != '[' && delim != ']',
    ensures
        char_vecs(r@) == top_level_segments_spec(s@, delim),
{
    let mut result: Vec<Vec<char>> = Vec::new();
    let mut depth: usize = 0;
    let mut start: usize = 0;
    let mut i: usize = 0;
    while i < s.len()
        invariant
            delim != '[' && delim != ']',
            start <= i <= s@.len(),
            depth <= i,
            char_vecs(result@) + segment_scan(s@, i as int, depth as nat, start as int, delim)
                == top_level_segments_spec(s@, delim),
        decreases s.len() - i,
    {
        let c = s[i];
        if c == '[' {
            depth = depth + 1;
        } else if c == ']' {
            depth = if depth == 0 { 0 } else { depth - 1 };
        } else if c == delim && depth == 0 {
            let piece = slice_chars(s, start, i);
            let t = trim_chars(&piece);
            let ghost before = char_vecs(result@);
            result.push(t);
            assert(char_vecs(result@) =~= before.push(t@));
            assert(before + segment_scan(s@, i as int, depth as nat, start as int, delim)
                =~= char_vecs(result@) + segment_scan(s@, i + 1, depth as nat, i + 1, delim));
            start = i + 1;
        }
        i = i + 1;
    }
    let piece = slice_chars(s, start, s.len());
    let t = trim_chars(&piece);
    let ghost before = char_vecs(result@);
    result.push(t);
    assert(char_vecs(result@) =~= before.push(t@));
    assert(before + segment_scan(s@, i as int, depth as nat, start as int, delim) =~= char_vecs(result@));
    result
}

/// Position of the first `delim` outside brackets.
pub open spec fn once_scan(s: Seq<char>, i: int, depth: nat, delim: char) -> Option<int>
    decreases s.len() - i,
{
    if i < 0 || i >= s.len() {
        None
    } else if s[i] == '[' {
        once_scan(s, i + 1, depth + 1, delim)
    } else if s[i] == ']' {
        once_scan(s, i + 1, if depth == 0 { 0 } else { (depth - 1) as nat }, delim)
    } else if s[i] == delim && depth == 0 {
        Some(i)
    } else {
        once_scan(s, i + 1, depth, delim)
    }
}

/// The trimmed text before and after the first top-level `delim`.
pub open spec fn top_level_once_spec(s: Seq<char>, delim: char) -> Option<(Seq<char>, Seq<char>)> {
    match once_scan(s, 0, 0, delim) {
        Some(k) => Some((trim(s.subrange(0, k)), trim(s.subrange(k + 1, s.len() as int)))),
        None => None,
    }
}

pub fn split_top_level_once(s: &[char], delim: char) -> (r: Option<(Vec<char>, Vec<char>)>)
    requires
        delim != '[' && delim != ']',
    ensures
        match r {
            Some((a, b)) => top_level_once_spec(s@, delim) == Some((a@, b@)),
            None => top_level_once_spec(s@, delim) is None,
        },
{
    let mut depth: usize = 0;
    let mut i: usize = 0;
    while i < s.len()
        invariant
            delim != '[' && delim != ']',
            i <= s@.len(),
            depth <= i,
            once_scan(s@, i as int, depth as nat, delim) == once_scan(s@, 0, 0, delim),
        decreases s.len() - i,
    {
        let c = s[i];
        if c == '[' {
            depth = depth + 1;
        } else if c == ']' {
            depth = if depth == 0 { 0 } else { depth - 1 };
        } else if c == delim && depth == 0 {
            let left = slice_chars(s, 0, i);
            let right = slice_chars(s, i + 1, s.len());
            return Some((trim_chars(&left), trim_chars(&right)));
        }
        i = i + 1;
    }
    None
}

/// `[x]` unwrapped to `x`; other non-empty text as is; empty text refused.
pub open spec fn strip_brackets_spec(s: Seq<char>) -> Option<Seq<char>> {
    if s.len() >= 2 && s[0] == '[' && s.last() == ']' {
        Some(s.subrange(1, s.len() - 1))
    } else if s.len() > 0 {
        Some(s)
    } else {
        None
    }
}

pub fn strip_structured_brackets(s: &[char]) -> (r: Option<Vec<char>>)
    ensures
        match r {
            Some(v) => strip_brackets_spec(s@) == Some(v@),
            None => strip_brackets_spec(s@) is None,
        },
{
    if s.len() >= 2 && s[0] == '[' && s[s.len() - 1] == ']' {
        Some(slice_chars(s, 1, s.len() - 1))
    } else if s.len() > 0 {
        Some(slice_chars(s, 0, s.len()))
    } else {
        None
    }
}

/// A section specifier, compared without case and ASCII spaces:
/// `#All`, `#Data`, `#Headers`, `#Totals` or `#Total Row`, `#This Row`.
pub open spec fn section_qualifier_spec(s: Seq<char>) -> Option<StructuredSectionKind> {
    let u = remove_char(upper_seq(s), ' ');
    if u == "#ALL"@ {
        Some(StructuredSectionKind::All)
    } else if u == "#DATA"@ {
        Some(StructuredSectionKind::Data)
    } else if u == "#HEADERS"@ {
        Some(StructuredSectionKind::Headers)
    } else if u == "#TOTALS"@ || u == "#TOTALROW"@ {
        Some(StructuredSectionKind::Totals)
    } else if u == "#THISROW"@ {
        Some(StructuredSectionKind::ThisRow)
    } else {
        None
    }
}

pub fn parse_section_qualifier(s: &[char]) -> (r: Option<StructuredSectionKind>)
    ensures
        r == section_qualifier_spec(s@),
{
    let u = remove_all(&to_upper(s), ' ');
    if chars_eq(&u, &chars_of("#ALL")) {
        Some(StructuredSectionKind::All)
    } else if chars_eq(&u, &chars_of("#DATA")) {
        Some(StructuredSectionKind::Data)
    } else if chars_eq(&u, &chars_of("#HEADERS")) {
        Some(StructuredSectionKind::Headers)
    } else if chars_eq(&u, &chars_of("#TOTALS")) || chars_eq(&u, &chars_of("#TOTALROW")) {
        Some(StructuredSectionKind::Totals)
    } else if chars_eq(&u, &chars_of("#THISROW")) {
        Some(StructuredSectionKind::ThisRow)
    } else {
        None
    }
}

/// Column names of a segment: `[A]:[B]` gives both ends, `[A]` one name.
pub open spec fn column_segment_spec(s: Seq<char>) -> Option<Seq<Seq<char>>> {
    match top_level_once_spec(s, ':') {
        Some((l, r)) => match (strip_brackets_spec(l), strip_brackets_spec(r)) {
            (Some(a), Some(b)) => Some(seq![a, b]),
            _ => None,
        },
        None => match strip_brackets_spec(s) {
            Some(a) => Some(seq![a]),
            None => None,
        },
    }
}

pub fn parse_structured_column_segment(s: &[char]) -> (r: Option<Vec<Vec<char>>>)
    ensures
        match r {
            Some(v) => column_segment_spec(s@) == Some(char_vecs(v@)),
            None => column_segment_spec(s@) is None,
        },
{
    if let Some((l, rt)) = split_top_level_once(s, ':') {
        let a = match strip_structured_brackets(&l) {
            Some(a) => a,
            None => return None,
        };
        let b = match strip_structured_brackets(&rt) {
            Some(b) => b,
            None => return None,
        };
        let mut v: Vec<Vec<char>> = Vec::new();
        v.push(a);
        v.push(b);
        assert(char_vecs(v@) =~= seq![v@[0]@, v@[1]@]);
        return Some(v);
    }
    match strip_structured_brackets(s) {
        Some(a) => {
            let mut v: Vec<Vec<char>> = Vec::new();
            v.push(a);
            assert(char_vecs(v@) =~= seq![v@[0]@]);
            Some(v)
        },
        None => None,
    }
}


/// A structured reference text taken apart: the table it names (if any),
/// its section specifiers and its column names.
pub struct ParsedStructuredReference {
    pub table_name: Option<Vec<char>>,
    pub section_qualifiers: Vec<StructuredSectionKind>,
    pub column_names: Vec<Vec<char>>,
    pub caller_row_sensitive: bool,
}

pub struct ParsedStructuredModel {
    pub table_name: Option<Seq<char>>,
    pub section_qualifiers: Seq<StructuredSectionKind>,
    pub column_names: Seq<Seq<char>>,
    pub caller_row_sensitive: bool,
}

impl ParsedStructuredReference {
    pub open spec fn model(&self) -> ParsedStructuredModel {
        ParsedStructuredModel {
            table_name: match self.table_name {
                Some(t) => Some(t@),
                None => None,
            },
            section_qualifiers: self.section_qualifiers@,
            column_names: char_vecs(self.column_names@),
            caller_row_sensitive: self.caller_row_sensitive,
        }
    }
}

/// Folds the bracketed segments of `[[...],[...]]` in order: section
/// specifiers are collected, other segments contribute their column names.
pub open spec fn fold_segments(segs: Seq<Seq<char>>) -> Option<(Seq<StructuredSectionKind>, Seq<Seq<char>>, bool)>
    decreases segs.len(),
{
    if segs.len() == 0 {
        Some((seq![], seq![], false))
    } else {
        match fold_segments(segs.drop_last()) {
            None => None,
            Some((sections, columns, sensitive)) => {
                let seg = segs.last();
                match strip_brackets_spec(seg) {
                    None => None,
                    Some(stripped) => match section_qualifier_spec(stripped) {
                        Some(q) => Some((sections.push(q), columns, sensitive || q == StructuredSectionKind::ThisRow)),
                        None => match column_segment_spec(seg) {
                            None => None,
                            Some(c) => if c.len() == 0 {
                                None
                            } else {
                                Some((sections, columns + c, sensitive))
                            },
                        },
                    },
                }
            },
        }
    }
}

/// The table name (text before the first `[`) and the bracketed selector.
pub open spec fn selector_split_spec(text: Seq<char>) -> Option<(Option<Seq<char>>, Seq<char>)> {
    if starts_with_char(text, '[') {
        Some((None, text))
    } else {
        match first_index_of(text, '[') {
            None => None,
            Some(k) => Some((Some(text.take(k)), text.skip(k))),
        }
    }
}

/// Grammar of structured references: an optional table name, then one
/// balanced bracket group holding either `[@Column]`, a single section or
/// column, or a comma-separated list of bracketed sections and columns.
pub open spec fn structured_text_spec(text: Seq<char>) -> Option<ParsedStructuredModel> {
    match selector_split_spec(text) {
        None => None,
        Some((table_name, sel)) => {
            if !(starts_with_char(sel, '[') && ends_with_char(sel, ']')
                && matching_outer_bracket_spec(sel) == Some(sel.len() - 1)) {
                None
            } else {
                let inner = sel.subrange(1, sel.len() - 1);
                if inner.len() == 0 {
                    None
                } else if inner[0] == '[' {
                    match fold_segments(top_level_segments_spec(inner, ',')) {
                        None => None,
                        Some((sections, columns, sensitive)) => Some(ParsedStructuredModel {
                            table_name,
                            section_qualifiers: sections,
                            column_names: columns,
                            caller_row_sensitive: sensitive,
                        }),
                    }
                } else if inner[0] == '@' {
                    Some(ParsedStructuredModel {
                        table_name,
                        section_qualifiers: seq![StructuredSectionKind::ThisRow],
                        column_names: seq![inner.drop_first()],
                        caller_row_sensitive: true,
                    })
                } else {
                    match section_qualifier_spec(inner) {
                        Some(q) => Some(ParsedStructuredModel {
                            table_name,
                            section_qualifiers: seq![q],
                            column_names: seq![],
                            caller_row_sensitive: q == StructuredSectionKind::ThisRow,
                        }),
                        None => Some(ParsedStructuredModel {
                            table_name,
                            section_qualifiers: seq![],
                            column_names: seq![inner],
                            caller_row_sensitive: false,
                        }),
                    }
                }
            }
        },
    }
}

/// Folds the segments of a multi-part selector.
fn fold_structured_segments(segs: &Vec<Vec<char>>) -> (r: Option<(Vec<StructuredSectionKind>, Vec<Vec<char>>, bool)>)
    ensures
        match r {
            Some((a, b, c)) => fold_segments(char_vecs(segs@)) == Some((a@, char_vecs(b@), c)),
            None => fold_segments(char_vecs(segs@)) is None,
        },
{
    let mut sections: Vec<StructuredSectionKind> = Vec::new();
    let mut columns: Vec<Vec<char>> = Vec::new();
    let mut sensitive = false;
    let mut i: usize = 0;
    while i < segs.len()
        invariant
            i <= segs@.len(),
            fold_segments(char_vecs(segs@.subrange(0, i as int))) == Some((sections@, char_vecs(columns@), sensitive)),
        decreases segs.len() - i,
    {
        let ghost prefix = char_vecs(segs@.subrange(0, i + 1));
        assert(prefix.drop_last() =~= char_vecs(segs@.subrange(0, i as int)));
        assert(prefix.last() == segs@[i as int]@);
        let seg = &segs[i];
        let stripped = match strip_structured_brackets(seg) {
            Some(x) => x,
            None => {
                assert(fold_segments(prefix) is None);
                proof { lemma_fold_none_extends(char_vecs(segs@), i as int + 1); }
                assert(char_vecs(segs@).subrange(0, i + 1) =~= prefix);
                return None;
            },
        };
        match parse_section_qualifier(&stripped) {
            Some(q) => {
                sections.push(q);
                sensitive = sensitive || q == StructuredSectionKind::ThisRow;
            },
            None => {
                let cols = match parse_structured_column_segment(seg) {
                    Some(c) => c,
                    None => {
                        assert(fold_segments(prefix) is None);
                        proof { lemma_fold_none_extends(char_vecs(segs@), i as int + 1); }
                        assert(char_vecs(segs@).subrange(0, i + 1) =~= prefix);
                        return None;
                    },
                };
                if cols.len() == 0 {
                    proof { lemma_fold_none_extends(char_vecs(segs@), i as int + 1); }
                    assert(char_vecs(segs@).subrange(0, i + 1) =~= prefix);
                    return None;
                }
                let ghost before = char_vecs(columns@);
                let mut j: usize = 0;
                while j < cols.len()
                    invariant
                        j <= cols@.len(),
                        char_vecs(columns@) == before + char_vecs(cols@).subrange(0, j as int),
                    decreases cols.len() - j,
                {
                    let ghost prev = columns@;
                    let x = crate::text::copy_chars(&cols[j]);
                    columns.push(x);
                    assert(char_vecs(columns@) =~= char_vecs(prev).push(cols@[j as int]@));
                    assert(char_vecs(cols@).subrange(0, j + 1) =~= char_vecs(cols@).subrange(0, j as int).push(cols@[j as int]@));
                    j = j + 1;
                    assert(char_vecs(columns@) =~= before + char_vecs(cols@).subrange(0, j as int));
                }
                assert(char_vecs(cols@).subrange(0, cols@.len() as int) =~= char_vecs(cols@));
            },
        }
        i = i + 1;
    }
    assert(segs@.subrange(0, segs@.len() as int) =~= segs@);
    Some((sections, columns, sensitive))
}

/// If a prefix of the segments fails to fold, so do all of them.
pub proof fn lemma_fold_none_extends(segs: Seq<Seq<char>>, k: int)
    requires
        0 <= k <= segs.len(),
        fold_segments(segs.subrange(0, k)) is None,
    ensures
        fold_segments(segs) is None,
    decreases segs.len(),
{
    if k < segs.len() {
        assert(segs.drop_last().subrange(0, k) =~= segs.subrange(0, k));
        lemma_fold_none_extends(segs.drop_last(), k);
    } else {
        assert(segs.subrange(0, k) =~= segs);
    }
}

/// Takes a structured reference text apart.
pub fn parse_structured_reference_text(text: &[char]) -> (r: Option<ParsedStructuredReference>)
    ensures
        match r {
            Some(p) => structured_text_spec(text@) == Some(p.model()),
            None => structured_text_spec(text@) is None,
        },
{
    let (table_name, sel): (Option<Vec<char>>, Vec<char>) = if text.len() > 0 && text[0] == '[' {
        (None, slice_chars(text, 0, text.len()))
    } else {
        match find_char(text, '[') {
            None => return None,
            Some(k) => {
                let t = slice_chars(text, 0, k);
                let sl = slice_chars(text, k, text.len());
                assert(t@ =~= text@.take(k as int));
                assert(sl@ =~= text@.skip(k as int));
                (Some(t), sl)
            },
        }
    };
    assert(text@.subrange(0, text@.len() as int) =~= text@);
    if !(sel.len() > 0 && sel[0] == '[' && sel[sel.len() - 1] == ']') {
        return None;
    }
    match matching_outer_bracket_end(&sel) {
        Some(e) => {
            if e != sel.len() - 1 {
                return None;
            }
        },
        None => return None,
    }
    let inner = slice_chars(&sel, 1, sel.len() - 1);
    if inner.len() == 0 {
        return None;
    }
    if inner[0] == '[' {
        let segs = split_top_level_segments(&inner, ',');
        match fold_structured_segments(&segs) {
            None => None,
            Some((sections, columns, sensitive)) => Some(ParsedStructuredReference {
                table_name,
                section_qualifiers: sections,
                column_names: columns,
                caller_row_sensitive: sensitive,
            }),
        }
    } else if inner[0] == '@' {
        let mut sections: Vec<StructuredSectionKind> = Vec::new();
        sections.push(StructuredSectionKind::ThisRow);
        let mut columns: Vec<Vec<char>> = Vec::new();
        let rest = slice_chars(&inner, 1, inner.len());
        assert(rest@ =~= inner@.drop_first());
        columns.push(rest);
        assert(sections@ =~= seq![StructuredSectionKind::ThisRow]);
        assert(char_vecs(columns@) =~= seq![inner@.drop_first()]);
        Some(ParsedStructuredReference { table_name, section_qualifiers: sections, column_names: columns, caller_row_sensitive: true })
    } else {
        match parse_section_qualifier(&inner) {
            Some(q) => {
                let mut sections: Vec<StructuredSectionKind> = Vec::new();
                sections.push(q);
                assert(sections@ =~= seq![q]);
                let columns: Vec<Vec<char>> = Vec::new();
                assert(char_vecs(columns@) =~= Seq::<Seq<char>>::empty());
                Some(ParsedStructuredReference {
                    table_name,
                    section_qualifiers: sections,
                    column_names: columns,
                    caller_row_sensitive: q == StructuredSectionKind::ThisRow,
                })
            },
            None => {
                let sections: Vec<StructuredSectionKind> = Vec::new();
                let mut columns: Vec<Vec<char>> = Vec::new();
                columns.push(inner);
                assert(sections@ =~= Seq::<StructuredSectionKind>::empty());
                assert(char_vecs(columns@) =~= seq![columns@[0]@]);
                Some(ParsedStructuredReference { table_name, section_qualifiers: sections, column_names: columns, caller_row_sensitive: false })
            },
        }
    }
}


/// Index of the first element satisfying `p`.
pub open spec fn first_where<T>(s: Seq<T>, p: spec_fn(T) -> bool) -> Option<int>
    decreases s.len(),
{
    if s.len() == 0 {
        None
    } else if p(s[0]) {
        Some(0)
    } else {
        match first_where(s.drop_first(), p) {
            Some(i) => Some(i + 1),
            None => None,
        }
    }
}

pub proof fn lemma_first_where_at<T>(s: Seq<T>, p: spec_fn(T) -> bool, i: int)
    requires
        0 <= i < s.len(),
        p(s[i]),
        forall|j: int| 0 <= j < i ==> !p(#[trigger] s[j]),
    ensures
        first_where(s, p) == Some(i),
    decreases i,
{
    if i > 0 {
        assert forall|j: int| 0 <= j < i - 1 implies !p(#[trigger] s.drop_first()[j]) by {
            assert(s.drop_first()[j] == s[j + 1]);
        }
        lemma_first_where_at(s.drop_first(), p, i - 1);
    }
}

pub proof fn lemma_first_where_none<T>(s: Seq<T>, p: spec_fn(T) -> bool)
    requires
        forall|j: int| 0 <= j < s.len() ==> !p(#[trigger] s[j]),
    ensures
        first_where(s, p) is None,
    decreases s.len(),
{
    if s.len() > 0 {
        assert forall|j: int| 0 <= j < s.drop_first().len() implies !p(#[trigger] s.drop_first()[j]) by {
            assert(s.drop_first()[j] == s[j + 1]);
        }
        lemma_first_where_none(s.drop_first(), p);
    }
}

pub proof fn lemma_first_where_found<T>(s: Seq<T>, p: spec_fn(T) -> bool)
    ensures
        first_where(s, p) matches Some(i) ==> 0 <= i < s.len() && p(s[i]),
    decreases s.len(),
{
    if s.len() > 0 && !p(s[0]) {
        lemma_first_where_found(s.drop_first(), p);
    }
}

/// Tables on `sheet` whose name matches `name` without case.
pub open spec fn named_table_pred(sheet: Seq<char>, name: Seq<char>) -> spec_fn(TableDescriptor) -> bool {
    |t: TableDescriptor| t.sheet_scope_ref@ == sheet && eq_ignore_case(t.table_name@, name)
}

/// The table with id `id`.
pub open spec fn table_id_pred(id: Seq<char>) -> spec_fn(TableDescriptor) -> bool {
    |t: TableDescriptor| t.table_id@ == id
}

/// The table a structured reference denotes: the first table of the sheet
/// with that name, or, with no name, the enclosing table.
pub open spec fn structured_table_spec(table_name: Option<Seq<char>>, sheet: Seq<char>, ctx: BindContext) -> Result<int, Seq<char>> {
    match table_name {
        Some(name) => match first_where(ctx.table_catalog@, named_table_pred(sheet, name)) {
            Some(i) => Ok(i),
            None => Err("unknown structured-reference table '"@ + name + "'"@),
        },
        None => match ctx.enclosing_table_ref {
            None => Err("structured reference requires enclosing table context"@),
            Some(e) => match first_where(ctx.table_catalog@, table_id_pred(e.table_id@)) {
                Some(i) => Ok(i),
                None => Err("enclosing structured-reference table '"@ + e.table_id@ + "' is not present in table_catalog"@),
            },
        },
    }
}

/// Position of the table a structured reference denotes.
#[verifier::loop_isolation(false)]
pub fn resolve_structured_table(table_name: &Option<Vec<char>>, sheet: &String, ctx: &BindContext) -> (r: Result<usize, String>)
    ensures
        match r {
            Ok(i) => structured_table_spec(match table_name { Some(t) => Some(t@), None => None }, sheet@, *ctx) == Ok::<int, Seq<char>>(i as int)
                && i < ctx.table_catalog@.len(),
            Err(m) => structured_table_spec(match table_name { Some(t) => Some(t@), None => None }, sheet@, *ctx) == Err::<int, Seq<char>>(m@),
        },
{
    let tables = &ctx.table_catalog;
    match table_name {
        Some(name) => {
            let ghost p = named_table_pred(sheet@, name@);
            let mut i: usize = 0;
            while i < tables.len()
                invariant
                    i <= tables@.len(),
                    forall|j: int| 0 <= j < i ==> !p(#[trigger] tables@[j]),
                    p == named_table_pred(sheet@, name@),
                    tables@ == ctx.table_catalog@,
                decreases tables.len() - i,
            {
                if tables[i].sheet_scope_ref == *sheet && chars_eq_ignore_case(&crate::text::chars_of(tables[i].table_name.as_str()), name) {
                    proof {
                        lemma_first_where_at(tables@, p, i as int);
                        assert(first_where(ctx.table_catalog@, named_table_pred(sheet@, name@)) == Some(i as int));
                        assert(structured_table_spec(Some(name@), sheet@, *ctx) == Ok::<int, Seq<char>>(i as int));
                    }
                    return Ok(i);
                }
                i = i + 1;
            }
            proof { lemma_first_where_none(tables@, p); }
            let mut v: Vec<char> = Vec::new();
            push_str(&mut v, "unknown structured-reference table '");
            push_chars(&mut v, name);
            push_str(&mut v, "'");
            Err(string_of(&v))
        },
        None => {
            match &ctx.enclosing_table_ref {
                None => Err(string_of(&crate::text::chars_of("structured reference requires enclosing table context"))),
                Some(e) => {
                    let ghost p = table_id_pred(e.table_id@);
                    let mut i: usize = 0;
                    while i < tables.len()
                        invariant
                            i <= tables@.len(),
                            forall|j: int| 0 <= j < i ==> !p(#[trigger] tables@[j]),
                            p == table_id_pred(e.table_id@),
                            tables@ == ctx.table_catalog@,
                        decreases tables.len() - i,
                    {
                        if tables[i].table_id == e.table_id {
                            proof { lemma_first_where_at(tables@, p, i as int); }
                            return Ok(i);
                        }
                        i = i + 1;
                    }
                    proof { lemma_first_where_none(tables@, p); }
                    let mut v: Vec<char> = Vec::new();
                    push_str(&mut v, "enclosing structured-reference table '");
                    push_string(&mut v, &e.table_id);
                    push_str(&mut v, "' is not present in table_catalog");
                    Err(string_of(&v))
                },
            }
        },
    }
}

/// A one-cell region becomes a cell, any other an area.
pub open spec fn area_or_cell_spec(wb: Seq<char>, sheet: Seq<char>, top: u32, left: u32, bottom: u32, right: u32) -> StructuredResolvedRefModel {
    if top == bottom && left == right {
        StructuredResolvedRefModel::Cell(CellRefModel {
            workbook_id: wb,
            sheet_id: sheet,
            coord: CellCoord { row: top, col: left },
            address_mode: default_mode(),
            caller_anchor_used: false,
        })
    } else {
        StructuredResolvedRefModel::Area(AreaRefModel {
            workbook_id: wb,
            sheet_id: sheet,
            top_left: CellCoord { row: top, col: left },
            height: (bottom - top + 1) as u32,
            width: (right - left + 1) as u32,
            address_mode: default_mode(),
            caller_anchor_used: false,
        })
    }
}

pub fn area_or_cell_from_bounds(wb: &String, sheet: &String, top: u32, left: u32, bottom: u32, right: u32) -> (r: StructuredResolvedRef)
    ensures
        r.model() == area_or_cell_spec(wb@, sheet@, top, left, bottom, right),
{
    if top == bottom && left == right {
        StructuredResolvedRef::Cell(CellRef {
            workbook_id: wb.clone(),
            sheet_id: sheet.clone(),
            coord: CellCoord { row: top, col: left },
            address_mode: AddressMode { row_absolute: false, col_absolute: false },
            caller_anchor_used: false,
        })
    } else {
        StructuredResolvedRef::Area(AreaRef {
            workbook_id: wb.clone(),
            sheet_id: sheet.clone(),
            top_left: CellCoord { row: top, col: left },
            height: (bottom as i64 - top as i64 + 1) as u32,
            width: (right as i64 - left as i64 + 1) as u32,
            address_mode: AddressMode { row_absolute: false, col_absolute: false },
            caller_anchor_used: false,
        })
    }
}

/// A range text of the table parsed in the table's workbook and sheet.
pub open spec fn table_area_spec(table: TableDescriptor, text: Seq<char>, ctx: BindContext, ch: FormulaChannelKind) -> Option<AreaRefModel> {
    area_target_spec(text, table.workbook_scope_ref@, table.sheet_scope_ref@, ctx.caller_row, ctx.caller_col, ch)
}

pub fn parse_table_area(table: &TableDescriptor, text: &String, ctx: &BindContext, ch: FormulaChannelKind) -> (r: Option<AreaRef>)
    ensures
        match r {
            Some(a) => table_area_spec(*table, text@, *ctx, ch) == Some(a.model()),
            None => table_area_spec(*table, text@, *ctx, ch) is None,
        },
{
    let cs = crate::text::chars_of(text.as_str());
    parse_area_target(&cs, &table.workbook_scope_ref, &table.sheet_scope_ref, ctx.caller_row, ctx.caller_col, ch)
}

pub open spec fn first_column_msg() -> Seq<char> {
    "unable to parse first structured column_range_ref"@
}

pub open spec fn last_column_msg() -> Seq<char> {
    "unable to parse last structured column_range_ref"@
}

pub open spec fn table_range_msg(table: TableDescriptor) -> Seq<char> {
    "unable to parse table_range_ref '"@ + table.table_range_ref@ + "' for structured reference"@
}

/// The first and last selected columns' ranges, parsed.
pub open spec fn column_bounds_spec(
    table: TableDescriptor,
    first_ref: Seq<char>,
    last_ref: Seq<char>,
    ctx: BindContext,
    ch: FormulaChannelKind,
) -> Result<(AreaRefModel, AreaRefModel), Seq<char>> {
    match table_area_spec(table, first_ref, ctx, ch) {
        None => Err(first_column_msg()),
        Some(first) => match table_area_spec(table, last_ref, ctx, ch) {
            None => Err(last_column_msg()),
            Some(last) => Ok((first, last)),
        },
    }
}

fn column_bounds(table: &TableDescriptor, first_ref: &String, last_ref: &String, ctx: &BindContext, ch: FormulaChannelKind) -> (r: Result<(AreaRef, AreaRef), String>)
    ensures
        match r {
            Ok((a, b)) => column_bounds_spec(*table, first_ref@, last_ref@, *ctx, ch) == Ok::<(AreaRefModel, AreaRefModel), Seq<char>>((a.model(), b.model())),
            Err(m) => column_bounds_spec(*table, first_ref@, last_ref@, *ctx, ch) == Err::<(AreaRefModel, AreaRefModel), Seq<char>>(m@),
        },
{
    let first = match parse_table_area(table, first_ref, ctx, ch) {
        Some(a) => a,
        None => return Err(string_of(&crate::text::chars_of("unable to parse first structured column_range_ref"))),
    };
    let last = match parse_table_area(table, last_ref, ctx, ch) {
        Some(a) => a,
        None => return Err(string_of(&crate::text::chars_of("unable to parse last structured column_range_ref"))),
    };
    Ok((first, last))
}

fn table_range_error(table: &TableDescriptor) -> (r: String)
    ensures
        r@ == table_range_msg(*table),
{
    let mut v: Vec<char> = Vec::new();
    push_str(&mut v, "unable to parse table_range_ref '");
    push_string(&mut v, &table.table_range_ref);
    push_str(&mut v, "' for structured reference");
    string_of(&v)
}

/// One data row of the table, at `offset` within the first selected
/// column, across the selected columns.
pub open spec fn data_row_spec(
    table: TableDescriptor,
    first_ref: Seq<char>,
    last_ref: Seq<char>,
    offset: u32,
    ctx: BindContext,
    ch: FormulaChannelKind,
) -> Result<StructuredResolvedRefModel, Seq<char>> {
    match column_bounds_spec(table, first_ref, last_ref, ctx, ch) {
        Err(m) => Err(m),
        Ok((first, last)) => if offset >= first.height {
            Err("structured reference row offset is outside the table data body"@)
        } else {
            let row = (first.top_left.row + offset) as u32;
            Ok(area_or_cell_spec(table.workbook_scope_ref@, table.sheet_scope_ref@, row,
                min_u32(first.top_left.col, last.top_left.col), row,
                max_u32(first.top_left.col, last.top_left.col)))
        },
    }
}

/// The data body of the selected columns: the box around the first and
/// last column areas.
pub open spec fn data_area_spec(
    table: TableDescriptor,
    first_ref: Seq<char>,
    last_ref: Seq<char>,
    ctx: BindContext,
    ch: FormulaChannelKind,
) -> Result<StructuredResolvedRefModel, Seq<char>> {
    match column_bounds_spec(table, first_ref, last_ref, ctx, ch) {
        Err(m) => Err(m),
        Ok((first, last)) => Ok(area_or_cell_spec(first.workbook_id, first.sheet_id,
            min_u32(first.top_left.row, last.top_left.row),
            min_u32(first.top_left.col, last.top_left.col),
            max_u32((first.top_left.row + first.height - 1) as u32, (last.top_left.row + last.height - 1) as u32),
            max_u32(first.top_left.col, last.top_left.col))),
    }
}

/// The region selected by the given columns and section of a table; a
/// current-row reference selects the caller's data row.
pub open spec fn structured_target_spec(
    table: TableDescriptor,
    first_ref: Seq<char>,
    last_ref: Seq<char>,
    section: StructuredSectionKind,
    sensitive: bool,
    ctx: BindContext,
    ch: FormulaChannelKind,
) -> Result<StructuredResolvedRefModel, Seq<char>> {
    if sensitive {
        match ctx.caller_table_region {
            None => Err("structured reference requires caller_table_region for current-row-sensitive binding"@),
            Some(region) => if region.table_id@ != table.table_id@ {
                Err("caller_table_region table_id does not match enclosing structured-reference table"@)
            } else if region.region_kind != TableRegionKind::Data {
                Err("current-row structured reference requires a data-region caller_table_region"@)
            } else {
                match region.data_row_offset {
                    None => Err("current-row structured reference requires data_row_offset"@),
                    Some(offset) => data_row_spec(table, first_ref, last_ref, offset, ctx, ch),
                }
            },
        }
    } else {
        match section {
            StructuredSectionKind::Data => data_area_spec(table, first_ref, last_ref, ctx, ch),
            StructuredSectionKind::All => match table_area_spec(table, table.table_range_ref@, ctx, ch) {
                None => Err(table_range_msg(table)),
                Some(area) => match column_bounds_spec(table, first_ref, last_ref, ctx, ch) {
                    Err(m) => Err(m),
                    Ok((first, last)) => Ok(area_or_cell_spec(table.workbook_scope_ref@, table.sheet_scope_ref@,
                        area.top_left.row, min_u32(first.top_left.col, last.top_left.col),
                        (area.top_left.row + area.height - 1) as u32, max_u32(first.top_left.col, last.top_left.col))),
                },
            },
            StructuredSectionKind::Headers => if !table.header_row_present {
                Err("structured reference requested #Headers for a table without a header row"@)
            } else {
                section_row_spec(table, first_ref, last_ref, 0, ctx, ch)
            },
            StructuredSectionKind::Totals => if !table.totals_row_present {
                Err("structured reference requested #Total Row for a table without a totals row"@)
            } else {
                match table_area_spec(table, table.table_range_ref@, ctx, ch) {
                    None => Err(table_range_msg(table)),
                    Some(area) => section_row_spec(table, first_ref, last_ref, (area.height - 1) as u32, ctx, ch),
                }
            },
            StructuredSectionKind::ThisRow => Err("#This Row structured references require caller_table_region and are not standalone"@),
        }
    }
}

/// The rows a resolved structured target covers, first and last.
pub open spec fn resolved_rows(r: Result<StructuredResolvedRefModel, Seq<char>>) -> Option<(int, int)> {
    match r {
        Ok(StructuredResolvedRefModel::Cell(c)) => Some((c.coord.row as int, c.coord.row as int)),
        Ok(StructuredResolvedRefModel::Area(a)) => Some((a.top_left.row as int, a.top_left.row + a.height - 1)),
        _ => None,
    }
}

/// The section rows of a table: `#Headers` selects the first row of the
/// table's range and `#Totals` its last row (top row plus height, less
/// one), each across the selected columns; with more than one row these
/// are different rows. Both need the table to have that row; an explicit
/// `#Data` section selects the rows of the first and last column areas.
pub proof fn lemma_section_rows(
    table: TableDescriptor,
    first_ref: Seq<char>,
    last_ref: Seq<char>,
    ctx: BindContext,
    ch: FormulaChannelKind,
    area: AreaRefModel,
)
    requires
        table_area_spec(table, table.table_range_ref@, ctx, ch) == Some(area),
        area.height >= 1,
        area.top_left.row + area.height - 1 <= u32::MAX,
    ensures
        table.totals_row_present && structured_target_spec(table, first_ref, last_ref, StructuredSectionKind::Totals, false, ctx, ch) is Ok
            ==> resolved_rows(structured_target_spec(table, first_ref, last_ref, StructuredSectionKind::Totals, false, ctx, ch))
                == Some((area.top_left.row + area.height - 1, area.top_left.row + area.height - 1)),
        table.header_row_present && structured_target_spec(table, first_ref, last_ref, StructuredSectionKind::Headers, false, ctx, ch) is Ok
            ==> resolved_rows(structured_target_spec(table, first_ref, last_ref, StructuredSectionKind::Headers, false, ctx, ch))
                == Some((area.top_left.row as int, area.top_left.row as int)),
        !table.totals_row_present ==> structured_target_spec(table, first_ref, last_ref, StructuredSectionKind::Totals, false, ctx, ch) is Err,
        !table.header_row_present ==> structured_target_spec(table, first_ref, last_ref, StructuredSectionKind::Headers, false, ctx, ch) is Err,
{
}

/// One row of the table (header or totals) across the selected columns.
pub open spec fn section_row_spec(
    table: TableDescriptor,
    first_ref: Seq<char>,
    last_ref: Seq<char>,
    offset: u32,
    ctx: BindContext,
    ch: FormulaChannelKind,
) -> Result<StructuredResolvedRefModel, Seq<char>> {
    match table_area_spec(table, table.table_range_ref@, ctx, ch) {
        None => Err(table_range_msg(table)),
        Some(area) => match column_bounds_spec(table, first_ref, last_ref, ctx, ch) {
            Err(m) => Err(m),
            Ok((first, last)) => {
                let row = (area.top_left.row + offset) as u32;
                Ok(area_or_cell_spec(table.workbook_scope_ref@, table.sheet_scope_ref@, row,
                    min_u32(first.top_left.col, last.top_left.col), row, max_u32(first.top_left.col, last.top_left.col)))
            },
        },
    }
}

fn min32(a: u32, b: u32) -> (r: u32)
    ensures
        r == min_u32(a, b),
{
    if a <= b { a } else { b }
}

fn max32(a: u32, b: u32) -> (r: u32)
    ensures
        r == max_u32(a, b),
{
    if a >= b { a } else { b }
}

fn resolve_structured_section_row_target(
    table: &TableDescriptor,
    first_ref: &String,
    last_ref: &String,
    offset: u32,
    ctx: &BindContext,
    ch: FormulaChannelKind,
) -> (r: Result<StructuredResolvedRef, String>)
    ensures
        match r {
            Ok(v) => section_row_spec(*table, first_ref@, last_ref@, offset, *ctx, ch) == Ok::<StructuredResolvedRefModel, Seq<char>>(v.model()),
            Err(m) => section_row_spec(*table, first_ref@, last_ref@, offset, *ctx, ch) == Err::<StructuredResolvedRefModel, Seq<char>>(m@),
        },
{
    let area = match parse_table_area(table, &table.table_range_ref, ctx, ch) {
        Some(a) => a,
        None => return Err(table_range_error(table)),
    };
    let (first, last) = match column_bounds(table, first_ref, last_ref, ctx, ch) {
        Ok(x) => x,
        Err(m) => return Err(m),
    };
    let row = (area.top_left.row as i64 + offset as i64) as u32;
    Ok(area_or_cell_from_bounds(&table.workbook_scope_ref, &table.sheet_scope_ref, row,
        min32(first.top_left.col, last.top_left.col), row, max32(first.top_left.col, last.top_left.col)))
}

fn resolve_structured_data_row_target(
    table: &TableDescriptor,
    first_ref: &String,
    last_ref: &String,
    offset: u32,
    ctx: &BindContext,
    ch: FormulaChannelKind,
) -> (r: Result<StructuredResolvedRef, String>)
    ensures
        match r {
            Ok(v) => data_row_spec(*table, first_ref@, last_ref@, offset, *ctx, ch) == Ok::<StructuredResolvedRefModel, Seq<char>>(v.model()),
            Err(m) => data_row_spec(*table, first_ref@, last_ref@, offset, *ctx, ch) == Err::<StructuredResolvedRefModel, Seq<char>>(m@),
        },
{
    let (first, last) = match column_bounds(table, first_ref, last_ref, ctx, ch) {
        Ok(x) => x,
        Err(m) => return Err(m),
    };
    if offset >= first.height {
        return Err(text_error("structured reference row offset is outside the table data body"));
    }
    let row = (first.top_left.row as i64 + offset as i64) as u32;
    Ok(area_or_cell_from_bounds(&table.workbook_scope_ref, &table.sheet_scope_ref, row,
        min32(first.top_left.col, last.top_left.col), row, max32(first.top_left.col, last.top_left.col)))
}

fn resolve_structured_data_area_target(
    table: &TableDescriptor,
    first_ref: &String,
    last_ref: &String,
    ctx: &BindContext,
    ch: FormulaChannelKind,
) -> (r: Result<StructuredResolvedRef, String>)
    ensures
        match r {
            Ok(v) => data_area_spec(*table, first_ref@, last_ref@, *ctx, ch) == Ok::<StructuredResolvedRefModel, Seq<char>>(v.model()),
            Err(m) => data_area_spec(*table, first_ref@, last_ref@, *ctx, ch) == Err::<StructuredResolvedRefModel, Seq<char>>(m@),
        },
{
    let (first, last) = match column_bounds(table, first_ref, last_ref, ctx, ch) {
        Ok(x) => x,
        Err(m) => return Err(m),
    };
    let first_bottom = (first.top_left.row as i64 + first.height as i64 - 1) as u32;
    let last_bottom = (last.top_left.row as i64 + last.height as i64 - 1) as u32;
    Ok(area_or_cell_from_bounds(&first.workbook_id, &first.sheet_id,
        min32(first.top_left.row, last.top_left.row),
        min32(first.top_left.col, last.top_left.col),
        max32(first_bottom, last_bottom),
        max32(first.top_left.col, last.top_left.col)))
}

fn text_error(s: &str) -> (r: String)
    ensures
        r@ == s@,
{
    string_of(&crate::text::chars_of(s))
}

pub fn resolve_structured_reference_target(
    table: &TableDescriptor,
    first_ref: &String,
    last_ref: &String,
    section: StructuredSectionKind,
    sensitive: bool,
    ctx: &BindContext,
    ch: FormulaChannelKind,
) -> (r: Result<StructuredResolvedRef, String>)
    ensures
        match r {
            Ok(v) => structured_target_spec(*table, first_ref@, last_ref@, section, sensitive, *ctx, ch) == Ok::<StructuredResolvedRefModel, Seq<char>>(v.model()),
            Err(m) => structured_target_spec(*table, first_ref@, last_ref@, section, sensitive, *ctx, ch) == Err::<StructuredResolvedRefModel, Seq<char>>(m@),
        },
{
    if sensitive {
        let region = match &ctx.caller_table_region {
            None => return Err(text_error("structured reference requires caller_table_region for current-row-sensitive binding")),
            Some(region) => region,
        };
        if region.table_id != table.table_id {
            return Err(text_error("caller_table_region table_id does not match enclosing structured-reference table"));
        }
        if region.region_kind != TableRegionKind::Data {
            return Err(text_error("current-row structured reference requires a data-region caller_table_region"));
        }
        let offset = match region.data_row_offset {
            None => return Err(text_error("current-row structured reference requires data_row_offset")),
            Some(o) => o,
        };
        return resolve_structured_data_row_target(table, first_ref, last_ref, offset, ctx, ch);
    }
    match section {
        StructuredSectionKind::Data => resolve_structured_data_area_target(table, first_ref, last_ref, ctx, ch),
        StructuredSectionKind::All => {
            let area = match parse_table_area(table, &table.table_range_ref, ctx, ch) {
                Some(a) => a,
                None => return Err(table_range_error(table)),
            };
            let (first, last) = match column_bounds(table, first_ref, last_ref, ctx, ch) {
                Ok(x) => x,
                Err(m) => return Err(m),
            };
            let bottom = (area.top_left.row as i64 + area.height as i64 - 1) as u32;
            Ok(area_or_cell_from_bounds(&table.workbook_scope_ref, &table.sheet_scope_ref,
                area.top_left.row, min32(first.top_left.col, last.top_left.col),
                bottom, max32(first.top_left.col, last.top_left.col)))
        },
        StructuredSectionKind::Headers => {
            if !table.header_row_present {
                return Err(text_error("structured reference requested #Headers for a table without a header row"));
            }
            resolve_structured_section_row_target(table, first_ref, last_ref, 0, ctx, ch)
        },
        StructuredSectionKind::Totals => {
            if !table.totals_row_present {
                return Err(text_error("structured reference requested #Total Row for a table without a totals row"));
            }
            let area = match parse_table_area(table, &table.table_range_ref, ctx, ch) {
                Some(a) => a,
                None => return Err(table_range_error(table)),
            };
            resolve_structured_section_row_target(table, first_ref, last_ref, (area.height as i64 - 1) as u32, ctx, ch)
        },
        StructuredSectionKind::ThisRow => Err(text_error("#This Row structured references require caller_table_region and are not standalone")),
    }
}


/// Positions as integers.
pub open spec fn as_ints(v: Seq<usize>) -> Seq<int> {
    v.map_values(|i: usize| i as int)
}

/// Ids of the columns at the given positions.
pub open spec fn column_ids_at(table: TableDescriptor, idx: Seq<int>) -> Seq<Seq<char>> {
    idx.map_values(|i: int| table.columns@[i].column_id@)
}

/// All positions below `n`.
pub open spec fn all_positions(n: nat) -> Seq<int> {
    Seq::new(n, |i: int| i)
}

/// Columns whose name matches `name` without case.
pub open spec fn column_name_pred(name: Seq<char>) -> spec_fn(TableColumnDescriptor) -> bool {
    |c: TableColumnDescriptor| eq_ignore_case(c.column_name@, name)
}

/// Indices below `n` of the columns whose ordinal lies in `lo..=hi`, in order.
pub open spec fn select_upto(cols: Seq<TableColumnDescriptor>, lo: u32, hi: u32, n: nat) -> Seq<int>
    decreases n,
{
    if n == 0 {
        seq![]
    } else {
        let prev = select_upto(cols, lo, hi, (n - 1) as nat);
        if lo <= cols[n - 1].ordinal && cols[n - 1].ordinal <= hi {
            prev.push(n - 1)
        } else {
            prev
        }
    }
}

pub open spec fn unknown_column_msg(name: Seq<char>) -> Seq<char> {
    "unknown structured-reference column '"@ + name + "'"@
}

/// The columns a structured reference selects, by position in the table:
/// all of them when it names none, else those whose ordinal lies between
/// the ordinals of the first and last named columns.
pub open spec fn selected_columns_spec(names: Seq<Seq<char>>, table: TableDescriptor) -> Result<Seq<int>, Seq<char>> {
    let cols = table.columns@;
    if names.len() == 0 {
        Ok(all_positions(cols.len()))
    } else {
        match first_where(cols, column_name_pred(names[0])) {
            None => Err(unknown_column_msg(names[0])),
            Some(f) => match first_where(cols, column_name_pred(names.last())) {
                None => Err(unknown_column_msg(names.last())),
                Some(l) => {
                    let lo = min_u32(cols[f].ordinal, cols[l].ordinal);
                    let hi = max_u32(cols[f].ordinal, cols[l].ordinal);
                    Ok(select_upto(cols, lo, hi, cols.len()))
                },
            },
        }
    }
}

/// The column of the table whose name matches `name` without case.
fn find_table_column(table: &TableDescriptor, name: &Vec<char>) -> (r: Result<usize, String>)
    ensures
        match r {
            Ok(i) => first_where(table.columns@, column_name_pred(name@)) == Some(i as int) && i < table.columns@.len(),
            Err(m) => first_where(table.columns@, column_name_pred(name@)) is None && m@ == unknown_column_msg(name@),
        },
{
    let ghost p = column_name_pred(name@);
    let mut i: usize = 0;
    while i < table.columns.len()
        invariant
            i <= table.columns@.len(),
            p == column_name_pred(name@),
            forall|j: int| 0 <= j < i ==> !p(#[trigger] table.columns@[j]),
        decreases table.columns.len() - i,
    {
        if chars_eq_ignore_case(&crate::text::chars_of(table.columns[i].column_name.as_str()), name) {
            proof { lemma_first_where_at(table.columns@, p, i as int); }
            return Ok(i);
        }
        i = i + 1;
    }
    proof { lemma_first_where_none(table.columns@, p); }
    let mut v: Vec<char> = Vec::new();
    push_str(&mut v, "unknown structured-reference column '");
    push_chars(&mut v, name);
    push_str(&mut v, "'");
    Err(string_of(&v))
}

/// Positions of the selected columns.
fn selected_column_indices(names: &Vec<Vec<char>>, table: &TableDescriptor) -> (r: Result<Vec<usize>, String>)
    ensures
        match r {
            Ok(v) => selected_columns_spec(char_vecs(names@), *table) == Ok::<Seq<int>, Seq<char>>(as_ints(v@))
                && forall|k: int| 0 <= k < v@.len() ==> v@[k] < table.columns@.len(),
            Err(m) => selected_columns_spec(char_vecs(names@), *table) == Err::<Seq<int>, Seq<char>>(m@),
        },
{
    let cols = &table.columns;
    let mut out: Vec<usize> = Vec::new();
    if names.len() == 0 {
        let mut i: usize = 0;
        while i < cols.len()
            invariant
                i <= cols@.len(),
                as_ints(out@) == all_positions(i as nat),
                forall|k: int| 0 <= k < out@.len() ==> out@[k] < cols@.len(),
            decreases cols.len() - i,
        {
            let ghost prev = out@;
            out.push(i);
            i = i + 1;
            assert(as_ints(out@) =~= as_ints(prev).push((i - 1) as int));
            assert(as_ints(out@) =~= all_positions(i as nat));
        }
        return Ok(out);
    }
    let f = match find_table_column(table, &names[0]) {
        Ok(f) => f,
        Err(m) => return Err(m),
    };
    let l = match find_table_column(table, &names[names.len() - 1]) {
        Ok(l) => l,
        Err(m) => return Err(m),
    };
    assert(char_vecs(names@)[0] == names@[0]@);
    assert(char_vecs(names@).last() == names@[names@.len() - 1]@);
    let lo = min32(cols[f].ordinal, cols[l].ordinal);
    let hi = max32(cols[f].ordinal, cols[l].ordinal);
    let mut i: usize = 0;
    while i < cols.len()
        invariant
            i <= cols@.len(),
            cols@ == table.columns@,
            as_ints(out@) == select_upto(cols@, lo, hi, i as nat),
            forall|k: int| 0 <= k < out@.len() ==> out@[k] < cols@.len(),
        decreases cols.len() - i,
    {
        let ghost prev = out@;
        if lo <= cols[i].ordinal && cols[i].ordinal <= hi {
            out.push(i);
            assert(as_ints(out@) =~= as_ints(prev).push(i as int));
        }
        i = i + 1;
        assert(as_ints(out@) =~= select_upto(cols@, lo, hi, i as nat));
    }
    Ok(out)
}

/// The section a structured reference resolves: the current row when it is
/// row-sensitive, else its first section specifier, else the data body.
pub open spec fn effective_section_spec(p: ParsedStructuredModel) -> StructuredSectionKind {
    if p.caller_row_sensitive {
        StructuredSectionKind::ThisRow
    } else if p.section_qualifiers.len() > 0 {
        p.section_qualifiers[0]
    } else {
        StructuredSectionKind::Data
    }
}

pub open spec fn selector_kind_spec(p: ParsedStructuredModel) -> StructuredSelectorKind {
    if p.caller_row_sensitive {
        StructuredSelectorKind::ThisRowColumn
    } else if p.column_names.len() == 0 {
        StructuredSelectorKind::Section
    } else if p.section_qualifiers.len() == 0 {
        StructuredSelectorKind::Column
    } else {
        StructuredSelectorKind::SectionColumn
    }
}

pub open spec fn section_list_spec(p: ParsedStructuredModel) -> Seq<StructuredSectionKind> {
    if p.section_qualifiers.len() == 0 && !p.caller_row_sensitive {
        seq![StructuredSectionKind::Data]
    } else {
        p.section_qualifiers
    }
}

/// Whether any specifier other than `#This Row` is present.
pub open spec fn has_other_section(s: Seq<StructuredSectionKind>) -> bool {
    exists|i: int| 0 <= i < s.len() && s[i] != StructuredSectionKind::ThisRow
}

/// A structured reference checked against its table and resolved to a region.
pub open spec fn build_structured_spec(
    p: ParsedStructuredModel,
    table: TableDescriptor,
    ctx: BindContext,
    ch: FormulaChannelKind,
) -> Result<StructuredRefModel, Seq<char>> {
    let secs = p.section_qualifiers;
    let this_row = secs.contains(StructuredSectionKind::ThisRow);
    if this_row && has_other_section(secs) {
        Err("#This Row must not be combined with #Headers, #Total Row, #Data, or #All"@)
    } else if p.column_names.len() == 0 && this_row {
        Err("standalone #This Row structured references are not yet supported"@)
    } else if secs.len() > 1 && !this_row {
        Err("structured reference section unions beyond the first local floor are not yet supported"@)
    } else {
        match selected_columns_spec(p.column_names, table) {
            Err(m) => Err(m),
            Ok(idx) => if idx.len() == 0 {
                Err("structured reference did not resolve any table columns"@)
            } else {
                let first_ref = table.columns@[idx[0]].column_range_ref@;
                let last_ref = table.columns@[idx.last()].column_range_ref@;
                match structured_target_spec(table, first_ref, last_ref, effective_section_spec(p), p.caller_row_sensitive, ctx, ch) {
                    Err(m) => Err(m),
                    Ok(resolved) => Ok(StructuredRefModel {
                        table_id: table.table_id@,
                        table_name: table.table_name@,
                        selector_kind: selector_kind_spec(p),
                        section_qualifiers: section_list_spec(p),
                        selected_column_ids: column_ids_at(table, idx),
                        caller_row_sensitive: p.caller_row_sensitive,
                        workbook_scope_ref: table.workbook_scope_ref@,
                        sheet_scope_ref: table.sheet_scope_ref@,
                        resolved_reference: resolved,
                    }),
                }
            },
        }
    }
}

fn sections_contain(s: &Vec<StructuredSectionKind>, k: StructuredSectionKind) -> (r: bool)
    ensures
        r == s@.contains(k),
{
    let mut i: usize = 0;
    while i < s.len()
        invariant
            i <= s@.len(),
            forall|j: int| 0 <= j < i ==> s@[j] != k,
        decreases s.len() - i,
    {
        if s[i] == k {
            assert(s@[i as int] == k);
            return true;
        }
        i = i + 1;
    }
    false
}

fn sections_have_other(s: &Vec<StructuredSectionKind>) -> (r: bool)
    ensures
        r == has_other_section(s@),
{
    let mut i: usize = 0;
    while i < s.len()
        invariant
            i <= s@.len(),
            forall|j: int| 0 <= j < i ==> s@[j] == StructuredSectionKind::ThisRow,
        decreases s.len() - i,
    {
        if s[i] != StructuredSectionKind::ThisRow {
            return true;
        }
        i = i + 1;
    }
    false
}

/// Ids of the columns at the given positions.
fn collect_column_ids(table: &TableDescriptor, idx: &Vec<usize>) -> (r: Vec<String>)
    requires
        forall|q: int| 0 <= q < idx@.len() ==> idx@[q] < table.columns@.len(),
    ensures
        string_views(r@) == column_ids_at(*table, as_ints(idx@)),
{
    let mut ids: Vec<String> = Vec::new();
    let mut k: usize = 0;
    while k < idx.len()
        invariant
            k <= idx@.len(),
            forall|q: int| 0 <= q < idx@.len() ==> idx@[q] < table.columns@.len(),
            string_views(ids@) == column_ids_at(*table, as_ints(idx@).subrange(0, k as int)),
        decreases idx.len() - k,
    {
        let ghost prev = ids@;
        ids.push(table.columns[idx[k]].column_id.clone());
        k = k + 1;
        assert(string_views(ids@) =~= string_views(prev).push(table.columns@[idx@[k - 1] as int].column_id@));
        assert(column_ids_at(*table, as_ints(idx@).subrange(0, k as int)) =~= column_ids_at(*table, as_ints(idx@).subrange(0, k - 1)).push(table.columns@[idx@[k - 1] as int].column_id@));
    }
    assert(as_ints(idx@).subrange(0, idx@.len() as int) =~= as_ints(idx@));
    ids
}

/// The section list a structured reference records.
fn section_list(p: &ParsedStructuredReference) -> (r: Vec<StructuredSectionKind>)
    ensures
        r@ == section_list_spec(p.model()),
{
    let mut sections: Vec<StructuredSectionKind> = Vec::new();
    if p.section_qualifiers.len() == 0 && !p.caller_row_sensitive {
        sections.push(StructuredSectionKind::Data);
        assert(sections@ =~= seq![StructuredSectionKind::Data]);
    } else {
        let mut q: usize = 0;
        while q < p.section_qualifiers.len()
            invariant
                q <= p.section_qualifiers@.len(),
                sections@ == p.section_qualifiers@.subrange(0, q as int),
            decreases p.section_qualifiers.len() - q,
        {
            sections.push(p.section_qualifiers[q]);
            q = q + 1;
        }
        assert(p.section_qualifiers@.subrange(0, p.section_qualifiers@.len() as int) =~= p.section_qualifiers@);
    }
    sections
}

/// The section a structured reference resolves in: the current row when
/// it is row-sensitive, else its first section qualifier, else the data body.
fn effective_structured_section(p: &ParsedStructuredReference) -> (r: StructuredSectionKind)
    ensures
        r == effective_section_spec(p.model()),
{
    if p.caller_row_sensitive {
        StructuredSectionKind::ThisRow
    } else if p.section_qualifiers.len() > 0 {
        p.section_qualifiers[0]
    } else {
        StructuredSectionKind::Data
    }
}

/// Checks a parsed structured reference against its table and resolves it.
pub fn build_structured_reference(
    p: &ParsedStructuredReference,
    table: &TableDescriptor,
    ctx: &BindContext,
    ch: FormulaChannelKind,
) -> (r: Result<StructuredRef, String>)
    ensures
        match r {
            Ok(v) => build_structured_spec(p.model(), *table, *ctx, ch) == Ok::<StructuredRefModel, Seq<char>>(v.model()),
            Err(m) => build_structured_spec(p.model(), *table, *ctx, ch) == Err::<StructuredRefModel, Seq<char>>(m@),
        },
{
    let this_row = sections_contain(&p.section_qualifiers, StructuredSectionKind::ThisRow);
    if this_row && sections_have_other(&p.section_qualifiers) {
        return Err(text_error("#This Row must not be combined with #Headers, #Total Row, #Data, or #All"));
    }
    if p.column_names.len() == 0 && this_row {
        return Err(text_error("standalone #This Row structured references are not yet supported"));
    }
    if p.section_qualifiers.len() > 1 && !this_row {
        return Err(text_error("structured reference section unions beyond the first local floor are not yet supported"));
    }
    let idx = match selected_column_indices(&p.column_names, table) {
        Ok(v) => v,
        Err(m) => return Err(m),
    };
    if idx.len() == 0 {
        return Err(text_error("structured reference did not resolve any table columns"));
    }
    let ids = collect_column_ids(table, &idx);
    let first = &table.columns[idx[0]];
    let last = &table.columns[idx[idx.len() - 1]];
    let section = effective_structured_section(p);
    assert(as_ints(idx@)[0] == idx@[0] as int);
    assert(as_ints(idx@).last() == idx@[idx@.len() - 1] as int);
    let resolved = match resolve_structured_reference_target(table, &first.column_range_ref, &last.column_range_ref, section, p.caller_row_sensitive, ctx, ch) {
        Ok(x) => x,
        Err(m) => return Err(m),
    };
    let selector_kind = if p.caller_row_sensitive {
        StructuredSelectorKind::ThisRowColumn
    } else if p.column_names.len() == 0 {
        StructuredSelectorKind::Section
    } else if p.section_qualifiers.len() == 0 {
        StructuredSelectorKind::Column
    } else {
        StructuredSelectorKind::SectionColumn
    };
    let sections = section_list(p);
    Ok(StructuredRef {
        table_id: table.table_id.clone(),
        table_name: table.table_name.clone(),
        selector_kind,
        section_qualifiers: sections,
        selected_column_ids: ids,
        caller_row_sensitive: p.caller_row_sensitive,
        workbook_scope_ref: table.workbook_scope_ref.clone(),
        sheet_scope_ref: table.sheet_scope_ref.clone(),
        resolved_reference: resolved,
    })
}

} // verus!
