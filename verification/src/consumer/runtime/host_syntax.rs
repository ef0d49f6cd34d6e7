//! Host reference syntax: finding the spans of formula text that a host's
//! declared reference syntax covers, outside string literals, and
//! projecting those spans to formal tokens.
//!
//! Scanning walks characters; spans count UTF-8 bytes.

use vstd::prelude::*;

use crate::consumer::runtime::{HostSyntaxMatchModel, RuntimeHostFormulaContext, RuntimeHostReferenceSyntaxMatch, RuntimeHostReferenceSyntaxRule};
use crate::binding::reference::opt_view;
use crate::offsets::{byte_len, byte_len_fits, byte_offset, byte_offsets, lemma_byte_offset_bound, lemma_byte_offset_mono};
use crate::consumer::runtime::projection::{all_sat, lemma_projectable, on_text, projection_spec, span_end};
use crate::consumer::runtime::RuntimeHostReferenceSyntaxProjection;
use crate::source::FormulaSourceRecord;
use crate::binding::profile::copy_opt_string;
use crate::source::TextSpan;
use crate::text::{
    chars_eq, chars_have_at, chars_of, push_chars, push_decimal, push_str, push_string, slice_chars, string_of,
    string_views, decimal, join, char_is_alnum, char_is_alpha, char_is_ws, char_vecs, has_at, is_alnum, is_alpha, is_ws,
    trim, trim_chars, join_char_vecs, split_on, split_on_char,
};

verus! {

/// A character that can continue an identifier next to host syntax.
pub open spec fn ident_char(c: char) -> bool {
    is_alnum(c) || c == '_' || c == '$'
}

/// A character of a qualifier base or tail.
pub open spec fn base_char(c: char) -> bool {
    is_alnum(c) || c == '_' || c == '$' || c == '.'
}

/// A character that can start a qualifier base or tail.
pub open spec fn base_leading(c: char) -> bool {
    is_alpha(c) || c == '_' || c == '$'
}

/// Index of the last non-whitespace character before `end`.
pub open spec fn prev_non_ws(t: Seq<char>, end: int) -> Option<int>
    decreases end,
{
    if end <= 0 || end > t.len() {
        None
    } else if !is_ws(t[end - 1]) {
        Some(end - 1)
    } else {
        prev_non_ws(t, end - 1)
    }
}

/// Index of the first non-whitespace character from `start` on.
pub open spec fn next_non_ws(t: Seq<char>, start: int) -> Option<int>
    decreases t.len() - start,
{
    if start < 0 || start >= t.len() {
        None
    } else if !is_ws(t[start]) {
        Some(start)
    } else {
        next_non_ws(t, start + 1)
    }
}

/// No identifier character comes right before `start`, whitespace aside.
pub open spec fn boundary_before(t: Seq<char>, start: int) -> bool {
    match prev_non_ws(t, start) {
        None => true,
        Some(j) => !ident_char(t[j]),
    }
}

/// No identifier character comes right after `end`, whitespace aside.
pub open spec fn boundary_after(t: Seq<char>, end: int) -> bool {
    match next_non_ws(t, end) {
        None => true,
        Some(j) => !ident_char(t[j]),
    }
}

/// End of the run of base characters from `from`.
pub open spec fn base_run_end(t: Seq<char>, from: int) -> int
    decreases t.len() - from,
{
    if 0 <= from < t.len() && base_char(t[from]) {
        base_run_end(t, from + 1)
    } else {
        from
    }
}

/// Start of the run of base characters that ends at `end`.
pub open spec fn base_run_start(t: Seq<char>, end: int) -> int
    decreases end,
{
    if 0 < end <= t.len() && base_char(t[end - 1]) {
        base_run_start(t, end - 1)
    } else {
        end
    }
}

/// The qualifier base before the dot at `dot`: where it starts and its text.
pub open spec fn base_before_dot(t: Seq<char>, dot: int) -> Option<(int, Seq<char>)> {
    if dot <= 0 || dot > t.len() {
        None
    } else {
        let s = base_run_start(t, dot);
        if s == dot || !base_leading(t[s]) {
            None
        } else {
            Some((s, t.subrange(s, dot)))
        }
    }
}

/// The qualifier base of a pattern matched at `k`.
pub open spec fn qualified_base(t: Seq<char>, k: int, p: Seq<char>) -> Option<(int, Seq<char>)> {
    if p.len() > 0 && p[0] == '.' {
        base_before_dot(t, k)
    } else if k <= 0 || k > t.len() || t[k - 1] != '.' {
        None
    } else {
        base_before_dot(t, k - 1)
    }
}

/// The qualifier tail after a selector ending at `se`: where it ends and its text.
pub open spec fn qualified_tail(t: Seq<char>, se: int) -> Option<(int, Seq<char>)> {
    if se < 0 || se >= t.len() || t[se] != '.' {
        None
    } else if se + 1 >= t.len() || !base_leading(t[se + 1]) {
        None
    } else {
        let e = base_run_end(t, se + 1);
        Some((e, t.subrange(se + 1, e)))
    }
}

pub proof fn lemma_base_run_end(t: Seq<char>, from: int)
    requires
        0 <= from <= t.len(),
    ensures
        from <= base_run_end(t, from) <= t.len(),
        forall|j: int| from <= j < base_run_end(t, from) ==> base_char(#[trigger] t[j]),
        base_run_end(t, from) == t.len() || !base_char(t[base_run_end(t, from)]),
    decreases t.len() - from,
{
    if from < t.len() && base_char(t[from]) {
        lemma_base_run_end(t, from + 1);
    }
}

pub proof fn lemma_base_run_start(t: Seq<char>, end: int)
    requires
        0 <= end <= t.len(),
    ensures
        0 <= base_run_start(t, end) <= end,
        forall|j: int| base_run_start(t, end) <= j < end ==> base_char(#[trigger] t[j]),
        base_run_start(t, end) == 0 || !base_char(t[base_run_start(t, end) - 1]),
    decreases end,
{
    if 0 < end && base_char(t[end - 1]) {
        lemma_base_run_start(t, end - 1);
    }
}

pub fn host_syntax_identifier_char(c: char) -> (r: bool)
    ensures
        r == ident_char(c),
{
    char_is_alnum(c) || c == '_' || c == '$'
}

pub fn host_reference_base_char(c: char) -> (r: bool)
    ensures
        r == base_char(c),
{
    char_is_alnum(c) || c == '_' || c == '$' || c == '.'
}

pub fn host_reference_base_leading_char(c: char) -> (r: bool)
    ensures
        r == base_leading(c),
{
    char_is_alpha(c) || c == '_' || c == '$'
}

pub fn host_syntax_boundary_before(t: &[char], start: usize) -> (r: bool)
    requires
        start <= t@.len(),
    ensures
        r == boundary_before(t@, start as int),
{
    match previous_non_whitespace_char(t, start) {
        None => true,
        Some(c) => !host_syntax_identifier_char(c),
    }
}

pub fn host_syntax_boundary_after(t: &[char], end: usize) -> (r: bool)
    ensures
        r == boundary_after(t@, end as int),
{
    match next_non_whitespace_char(t, end) {
        None => true,
        Some(c) => !host_syntax_identifier_char(c),
    }
}

/// The last character before `end` that is not whitespace.
pub fn previous_non_whitespace_char(t: &[char], end: usize) -> (r: Option<char>)
    requires
        end <= t@.len(),
    ensures
        r == match prev_non_ws(t@, end as int) {
            Some(j) => Some(t@[j]),
            None => None::<char>,
        },
{
    let mut e = end;
    while e > 0
        invariant
            e <= end <= t@.len(),
            prev_non_ws(t@, end as int) == prev_non_ws(t@, e as int),
        decreases e,
    {
        if !char_is_ws(t[e - 1]) {
            return Some(t[e - 1]);
        }
        e = e - 1;
    }
    None
}

/// The first character from `start` on that is not whitespace.
pub fn next_non_whitespace_char(t: &[char], start: usize) -> (r: Option<char>)
    ensures
        r == match next_non_ws(t@, start as int) {
            Some(j) => Some(t@[j]),
            None => None::<char>,
        },
{
    let mut i = start;
    while i < t.len()
        invariant
            start <= i,
            next_non_ws(t@, start as int) == next_non_ws(t@, i as int),
        decreases t.len() - i,
    {
        if !char_is_ws(t[i]) {
            return Some(t[i]);
        }
        i = i + 1;
    }
    None
}

pub fn base_run_end_at(t: &[char], from: usize) -> (r: usize)
    requires
        from <= t@.len(),
    ensures
        r == base_run_end(t@, from as int),
        from <= r <= t@.len(),
{
    proof { lemma_base_run_end(t@, from as int); }
    let mut i = from;
    while i < t.len() && host_reference_base_char(t[i])
        invariant
            from <= i <= t@.len(),
            base_run_end(t@, from as int) == base_run_end(t@, i as int),
        decreases t.len() - i,
    {
        i = i + 1;
    }
    i
}

pub fn base_run_start_at(t: &[char], end: usize) -> (r: usize)
    requires
        end <= t@.len(),
    ensures
        r == base_run_start(t@, end as int),
        r <= end,
{
    let mut i = end;
    while i > 0 && host_reference_base_char(t[i - 1])
        invariant
            i <= end <= t@.len(),
            base_run_start(t@, end as int) == base_run_start(t@, i as int),
        decreases i,
    {
        i = i - 1;
    }
    i
}

pub fn qualified_host_reference_base_before_dot(t: &[char], dot: usize) -> (r: Option<(usize, Vec<char>)>)
    ensures
        match r {
            Some(b) => base_before_dot(t@, dot as int) == Some((b.0 as int, b.1@)) && b.0 < dot <= t@.len(),
            None => base_before_dot(t@, dot as int) is None,
        },
{
    if dot == 0 || dot > t.len() {
        return None;
    }
    let s = base_run_start_at(t, dot);
    if s == dot || !host_reference_base_leading_char(t[s]) {
        return None;
    }
    Some((s, crate::text::slice_chars(t, s, dot)))
}

pub fn qualified_host_reference_base(t: &[char], k: usize, p: &[char]) -> (r: Option<(usize, Vec<char>)>)
    ensures
        match r {
            Some(b) => qualified_base(t@, k as int, p@) == Some((b.0 as int, b.1@)) && b.0 <= k && b.0 < t@.len(),
            None => qualified_base(t@, k as int, p@) is None,
        },
{
    if p.len() > 0 && p[0] == '.' {
        qualified_host_reference_base_before_dot(t, k)
    } else if k == 0 || k > t.len() || t[k - 1] != '.' {
        None
    } else {
        qualified_host_reference_base_before_dot(t, k - 1)
    }
}

pub fn qualified_host_reference_tail(t: &[char], se: usize) -> (r: Option<(usize, Vec<char>)>)
    ensures
        match r {
            Some(x) => qualified_tail(t@, se as int) == Some((x.0 as int, x.1@)) && se < x.0 <= t@.len(),
            None => qualified_tail(t@, se as int) is None,
        },
{
    if se >= t.len() || t[se] != '.' {
        return None;
    }
    if se + 1 >= t.len() || !host_reference_base_leading_char(t[se + 1]) {
        return None;
    }
    let e = base_run_end_at(t, se + 1);
    Some((e, crate::text::slice_chars(t, se + 1, e)))
}


/// Where a literal array that opened before `c` closes, scanning outside strings.
pub open spec fn array_end_from(t: Seq<char>, c: int) -> Option<int>
    decreases t.len() - c,
{
    if c < 0 || c >= t.len() {
        None
    } else if t[c] == '}' {
        Some(c + 1)
    } else if t[c] == '"' {
        array_string_from(t, c + 1)
    } else {
        array_end_from(t, c + 1)
    }
}

/// The same scan inside a string literal, where `""` stands for a quote.
pub open spec fn array_string_from(t: Seq<char>, c: int) -> Option<int>
    decreases t.len() - c,
{
    if c < 0 || c >= t.len() {
        None
    } else if t[c] == '"' {
        if c + 1 < t.len() && t[c + 1] == '"' {
            array_string_from(t, c + 2)
        } else {
            array_end_from(t, c + 1)
        }
    } else {
        array_string_from(t, c + 1)
    }
}

/// The trimmed elements of a literal array token `{a, b, ...}`, when none is empty.
pub open spec fn array_elements(token: Seq<char>) -> Option<Seq<Seq<char>>> {
    if token.len() >= 2 && token[0] == '{' && token.last() == '}' {
        let parts = split_on(token.subrange(1, token.len() - 1), ',').map_values(|p: Seq<char>| trim(p));
        if forall|i: int| 0 <= i < parts.len() ==> (#[trigger] parts[i]).len() > 0 {
            Some(parts)
        } else {
            None
        }
    } else {
        None
    }
}

/// Where a bracketed segment that opened before `c` closes; `'` escapes the next character.
pub open spec fn segment_from(t: Seq<char>, c: int, saw: bool) -> Option<int>
    decreases t.len() - c,
{
    if c < 0 || c >= t.len() {
        None
    } else if t[c] == '\'' {
        if c + 1 >= t.len() {
            None
        } else {
            segment_from(t, c + 2, true)
        }
    } else if t[c] == ']' {
        if saw { Some(c + 1) } else { None }
    } else {
        segment_from(t, c + 1, true)
    }
}

/// Where a non-empty bracketed segment starting at `s` ends.
pub open spec fn segment_end(t: Seq<char>, s: int) -> Option<int> {
    if 0 <= s < t.len() && t[s] == '[' {
        segment_from(t, s + 1, false)
    } else {
        None
    }
}

pub proof fn lemma_segment_from(t: Seq<char>, c: int, saw: bool)
    ensures
        segment_from(t, c, saw) matches Some(e) ==> c < e <= t.len(),
    decreases t.len() - c,
{
    if 0 <= c < t.len() {
        if t[c] == '\'' {
            if c + 1 < t.len() {
                lemma_segment_from(t, c + 2, true);
            }
        } else if t[c] != ']' {
            lemma_segment_from(t, c + 1, true);
        }
    }
}

/// A path `[seg]` followed by `.[seg]` or `.name` parts: where the path
/// continues after `e`.
pub open spec fn path_from(t: Seq<char>, e: int) -> Option<int>
    decreases t.len() - e,
{
    if e < 0 || e >= t.len() || t[e] != '.' {
        Some(e)
    } else if e + 1 >= t.len() {
        None
    } else if t[e + 1] == '[' {
        proof { lemma_segment_from(t, e + 2, false); }
        match segment_end(t, e + 1) {
            None => None,
            Some(e2) => path_from(t, e2),
        }
    } else if base_leading(t[e + 1]) {
        proof { lemma_base_run_end(t, e + 1); }
        path_from(t, base_run_end(t, e + 1))
    } else {
        Some(e)
    }
}

/// Where a bracket path starting at `b` ends.
pub open spec fn path_end(t: Seq<char>, b: int) -> Option<int> {
    match segment_end(t, b) {
        None => None,
        Some(e) => path_from(t, e),
    }
}

/// Where consecutive copies of `p` from `k` end.
pub open spec fn repeat_end(t: Seq<char>, k: int, p: Seq<char>) -> int
    decreases t.len() - k,
{
    if p.len() > 0 && 0 <= k && has_at(t, k, p) {
        repeat_end(t, k + p.len(), p)
    } else {
        k
    }
}

pub proof fn lemma_array_end(t: Seq<char>, c: int)
    ensures
        array_end_from(t, c) matches Some(e) ==> c < e <= t.len(),
        array_string_from(t, c) matches Some(e) ==> c < e <= t.len(),
    decreases t.len() - c,
{
    if 0 <= c < t.len() {
        lemma_array_end(t, c + 1);
        if c + 2 <= t.len() {
            lemma_array_end(t, c + 2);
        }
    }
}

pub fn host_reference_literal_array_end(t: &[char], start: usize) -> (r: Option<usize>)
    ensures
        match r {
            Some(e) => array_end_from(t@, start + 1) == Some(e as int) && start + 1 < e <= t@.len(),
            None => array_end_from(t@, start + 1) is None,
        },
{
    proof { lemma_array_end(t@, start + 1); }
    if start >= t.len() {
        return None;
    }
    let mut c: usize = start + 1;
    let mut in_string = false;
    while c < t.len()
        invariant
            start + 1 <= c,
            array_end_from(t@, start + 1) == if in_string { array_string_from(t@, c as int) } else { array_end_from(t@, c as int) },
        decreases t.len() - c,
    {
        let x = t[c];
        if in_string {
            if x == '"' {
                if c + 1 < t.len() && t[c + 1] == '"' {
                    c = c + 2;
                } else {
                    in_string = false;
                    c = c + 1;
                }
            } else {
                c = c + 1;
            }
        } else if x == '}' {
            return Some(c + 1);
        } else if x == '"' {
            in_string = true;
            c = c + 1;
        } else {
            c = c + 1;
        }
    }
    None
}

pub fn host_reference_bracketed_segment_end(t: &[char], s: usize) -> (r: Option<usize>)
    ensures
        match r {
            Some(e) => segment_end(t@, s as int) == Some(e as int) && s < e <= t@.len(),
            None => segment_end(t@, s as int) is None,
        },
{
    if s >= t.len() || t[s] != '[' {
        return None;
    }
    proof { lemma_segment_from(t@, s + 1, false); }
    let mut c: usize = s + 1;
    let mut saw = false;
    while c < t.len()
        invariant
            s + 1 <= c,
            segment_end(t@, s as int) == segment_from(t@, c as int, saw),
        decreases t.len() - c,
    {
        let x = t[c];
        if x == '\'' {
            if c + 1 >= t.len() {
                return None;
            }
            saw = true;
            c = c + 2;
        } else if x == ']' {
            if saw {
                return Some(c + 1);
            } else {
                return None;
            }
        } else {
            saw = true;
            c = c + 1;
        }
    }
    None
}

pub fn host_reference_path_token_end(t: &[char], b: usize) -> (r: Option<usize>)
    ensures
        match r {
            Some(e) => path_end(t@, b as int) == Some(e as int) && b < e <= t@.len(),
            None => path_end(t@, b as int) is None,
        },
{
    let mut e = match host_reference_bracketed_segment_end(t, b) {
        Some(e) => e,
        None => return None,
    };
    while e < t.len() && t[e] == '.'
        invariant
            b < e <= t@.len(),
            path_end(t@, b as int) == path_from(t@, e as int),
        decreases t.len() - e,
    {
        if e + 1 >= t.len() {
            return None;
        }
        if t[e + 1] == '[' {
            match host_reference_bracketed_segment_end(t, e + 1) {
                Some(e2) => {
                    e = e2;
                },
                None => return None,
            }
        } else if host_reference_base_leading_char(t[e + 1]) {
            e = base_run_end_at(t, e + 1);
        } else {
            return Some(e);
        }
    }
    Some(e)
}

pub fn repeat_end_at(t: &[char], k: usize, p: &[char]) -> (r: usize)
    requires
        p@.len() > 0,
        k <= t@.len(),
    ensures
        r == repeat_end(t@, k as int, p@),
        k <= r <= t@.len(),
{
    let mut e = k;
    while crate::text::chars_have_at(t, e, p)
        invariant
            k <= e <= t@.len(),
            p@.len() > 0,
            repeat_end(t@, k as int, p@) == repeat_end(t@, e as int, p@),
        decreases t.len() - e,
    {
        e = e + p.len();
    }
    e
}

/// The trimmed elements of a literal array token, when none is empty.
pub fn host_reference_literal_array_element_token_texts(token: &[char]) -> (r: Option<Vec<Vec<char>>>)
    ensures
        match r {
            Some(v) => array_elements(token@) == Some(char_vecs(v@)),
            None => array_elements(token@) is None,
        },
{
    let n = token.len();
    if !(n >= 2 && token[0] == '{' && token[n - 1] == '}') {
        return None;
    }
    let inner = crate::text::slice_chars(token, 1, n - 1);
    let parts = split_on_char(&inner, ',');
    let ghost expected = split_on(inner@, ',').map_values(|p: Seq<char>| trim(p));
    let mut out: Vec<Vec<char>> = Vec::new();
    let mut i: usize = 0;
    while i < parts.len()
        invariant
            i <= parts@.len(),
            inner@ == token@.subrange(1, token@.len() - 1),
            char_vecs(parts@) == split_on(inner@, ','),
            expected == split_on(inner@, ',').map_values(|p: Seq<char>| trim(p)),
            char_vecs(out@) == expected.take(i as int),
            forall|j: int| 0 <= j < i ==> (#[trigger] expected[j]).len() > 0,
        decreases parts.len() - i,
    {
        let piece = trim_chars(&parts[i]);
        assert(char_vecs(parts@)[i as int] == parts@[i as int]@);
        if piece.len() == 0 {
            assert(expected[i as int].len() == 0);
            return None;
        }
        let ghost prev = out@;
        out.push(piece);
        assert(char_vecs(out@) =~= char_vecs(prev).push(expected[i as int]));
        assert(expected.take(i + 1) =~= expected.take(i as int).push(expected[i as int]));
        i = i + 1;
    }
    assert(expected.take(i as int) =~= expected);
    Some(out)
}


pub proof fn lemma_path_from(t: Seq<char>, e: int)
    ensures
        path_from(t, e) matches Some(x) ==> e <= x,
        0 <= e <= t.len() ==> (path_from(t, e) matches Some(x) ==> x <= t.len()),
    decreases t.len() - e,
{
    if 0 <= e < t.len() && t[e] == '.' && e + 1 < t.len() {
        if t[e + 1] == '[' {
            lemma_segment_from(t, e + 2, false);
            match segment_end(t, e + 1) {
                Some(e2) => lemma_path_from(t, e2),
                None => {},
            }
        } else if base_leading(t[e + 1]) {
            lemma_base_run_end(t, e + 1);
            lemma_path_from(t, base_run_end(t, e + 1));
        }
    }
}

pub proof fn lemma_repeat_end(t: Seq<char>, k: int, p: Seq<char>)
    requires
        0 <= k <= t.len(),
    ensures
        k <= repeat_end(t, k, p) <= t.len(),
    decreases t.len() - k,
{
    if p.len() > 0 && has_at(t, k, p) {
        lemma_repeat_end(t, k + p.len(), p);
    }
}

pub proof fn lemma_positive_quotient(x: int, m: int)
    requires
        x >= 0,
        m > 0,
        x / m > 0,
    ensures
        x > 0,
{
    if x == 0 {
        assert(0int / m == 0) by (nonlinear_arith)
            requires m > 0;
    }
}

pub proof fn lemma_qualified_tail(t: Seq<char>, se: int)
    ensures
        qualified_tail(t, se) matches Some(x) ==> se < x.0 <= t.len(),
{
    if 0 <= se && se + 1 < t.len() {
        lemma_base_run_end(t, se + 1);
    }
}

/// Byte span of the characters `start..end`.
pub open spec fn byte_span(t: Seq<char>, start: int, end: int) -> TextSpan {
    TextSpan {
        start: byte_offset(t, start) as usize,
        len: (byte_offset(t, end) - byte_offset(t, start)) as usize,
    }
}

/// The match of `rule` covering characters `start..end`.
pub open spec fn match_model(
    ctx: RuntimeHostFormulaContext,
    rule: RuntimeHostReferenceSyntaxRule,
    t: Seq<char>,
    start: int,
    end: int,
    payload: Option<Seq<char>>,
) -> HostSyntaxMatchModel {
    let span = byte_span(t, start, end);
    HostSyntaxMatchModel {
        syntax_match_handle: "host-reference-syntax:"@ + ctx.dialect_id@ + ":"@ + rule.rule_id@ + ":"@
            + decimal(span.start as nat) + ":"@ + decimal(span.len as nat),
        rule_id: rule.rule_id@,
        rule_family: rule.rule_family@,
        source_span: span,
        source_token_text: t.subrange(start, end),
        token_kind: rule.token_kind@,
        opaque_selector_payload: payload,
        resolution_layer: rule.resolution_layer@,
        shape_hint: opt_view(rule.shape_hint),
        caller_context_dependent: rule.caller_context_dependent,
        diagnostics: Seq::empty(),
    }
}

/// The rule's payload, or `fallback` when it has none.
pub open spec fn payload_or(rule: RuntimeHostReferenceSyntaxRule, fallback: Seq<char>) -> Seq<char> {
    match opt_view(rule.opaque_selector_payload) {
        Some(p) => p,
        None => fallback,
    }
}

/// A literal array of references `{a, b}` at `k`.
pub open spec fn array_match(ctx: RuntimeHostFormulaContext, rule: RuntimeHostReferenceSyntaxRule, t: Seq<char>, k: int) -> Option<(int, HostSyntaxMatchModel)> {
    match array_end_from(t, k + 1) {
        None => None,
        Some(end) => if !boundary_before(t, k) || !boundary_after(t, end) {
            None
        } else {
            match array_elements(t.subrange(k, end)) {
                None => None,
                Some(els) => Some((end, match_model(ctx, rule, t, k, end,
                    Some(payload_or(rule, "selector-family:reference-literal-array"@) + ";element_token_texts="@ + join(els, "|"@))))),
            }
        },
    }
}

/// Repeated copies of the pattern at `k`, with an optional qualifier tail.
pub open spec fn prefix_match(ctx: RuntimeHostFormulaContext, rule: RuntimeHostReferenceSyntaxRule, t: Seq<char>, k: int) -> Option<(int, HostSyntaxMatchModel)> {
    let p = rule.pattern_text@;
    if !boundary_before(t, k) {
        None
    } else {
        let se = repeat_end(t, k, p);
        let count = (se - k) / (p.len() as int);
        if count <= 0 {
            None
        } else {
            let tail = qualified_tail(t, se);
            let end = match tail {
                Some(x) => x.0,
                None => se,
            };
            if !boundary_after(t, end) {
                None
            } else {
                let payload = payload_or(rule, "selector-family:repeated-prefix"@) + ";repeat_count="@ + decimal(count as nat)
                    + match tail {
                        Some(x) => ";tail_token_text="@ + x.1,
                        None => Seq::empty(),
                    };
                Some((end, match_model(ctx, rule, t, k, end, Some(payload))))
            }
        }
    }
}

/// An escaped bracket path at `k`, with an optional qualifier base.
pub open spec fn bracket_match(ctx: RuntimeHostFormulaContext, rule: RuntimeHostReferenceSyntaxRule, t: Seq<char>, k: int) -> Option<(int, HostSyntaxMatchModel)> {
    let base = if 0 < k <= t.len() && t[k - 1] == '.' { base_before_dot(t, k - 1) } else { None };
    if base is None && !boundary_before(t, k) {
        None
    } else {
        match path_end(t, k) {
            None => None,
            Some(end) => if !boundary_after(t, end) {
                None
            } else {
                let start = match base {
                    Some(b) => b.0,
                    None => k,
                };
                Some((end, match_model(ctx, rule, t, start, end,
                    Some(payload_or(rule, "selector-family:escaped-path"@) + ";path_token_text="@ + t.subrange(start, end)))))
            },
        }
    }
}

/// The payload of a literal match with a qualifier base or tail.
pub open spec fn qualified_payload(rule: RuntimeHostReferenceSyntaxRule, base: Option<(int, Seq<char>)>, tail: Option<(int, Seq<char>)>) -> Seq<char> {
    payload_or(rule, "selector-family:unknown"@)
        + match base {
            Some(b) => ";base_token_text="@ + b.1,
            None => Seq::empty(),
        }
        + match tail {
            Some(x) => ";tail_token_text="@ + x.1,
            None => Seq::empty(),
        }
}

/// The plain literal match of the pattern at `k`: where scanning resumes,
/// and the match if there is one.
pub open spec fn literal_step(ctx: RuntimeHostFormulaContext, rule: RuntimeHostReferenceSyntaxRule, t: Seq<char>, k: int) -> (int, Option<HostSyntaxMatchModel>) {
    let p = rule.pattern_text@;
    let se = k + p.len();
    if p.len() > 0 && p.last() == '*' && se < t.len() && t[se] == '*' {
        (k + 1, None)
    } else {
        let base = qualified_base(t, k, p);
        let tail = qualified_tail(t, se);
        let end = match tail {
            Some(x) => x.0,
            None => se,
        };
        let unqualified = boundary_before(t, k) && boundary_after(t, end);
        let qualified = base is Some && boundary_after(t, end);
        if !unqualified && !qualified {
            (k + 1, None)
        } else {
            let start = match base {
                Some(b) => b.0,
                None => k,
            };
            let payload = if base is Some || tail is Some {
                Some(qualified_payload(rule, base, tail))
            } else {
                opt_view(rule.opaque_selector_payload)
            };
            (se, Some(match_model(ctx, rule, t, start, end, payload)))
        }
    }
}

/// The matches of `rule` in `t` from `k` on, after `acc`; `in_string`
/// tells whether `k` lies inside a string literal.
pub open spec fn scan(
    ctx: RuntimeHostFormulaContext,
    rule: RuntimeHostReferenceSyntaxRule,
    t: Seq<char>,
    k: int,
    in_string: bool,
    acc: Seq<HostSyntaxMatchModel>,
) -> Seq<HostSyntaxMatchModel>
    decreases t.len() - k,
{
    let p = rule.pattern_text@;
    if k < 0 || k >= t.len() || p.len() == 0 {
        acc
    } else if in_string {
        if t[k] == '"' {
            if k + 1 < t.len() && t[k + 1] == '"' {
                scan(ctx, rule, t, k + 2, true, acc)
            } else {
                scan(ctx, rule, t, k + 1, false, acc)
            }
        } else {
            scan(ctx, rule, t, k + 1, true, acc)
        }
    } else if t[k] == '"' {
        scan(ctx, rule, t, k + 1, true, acc)
    } else if has_at(t, k, p) {
        if p == "{"@ && array_match(ctx, rule, t, k) is Some {
            proof { lemma_array_end(t, k + 1); }
            let (e, m) = array_match(ctx, rule, t, k)->0;
            scan(ctx, rule, t, e, false, acc.push(m))
        } else if p == "^"@ && prefix_match(ctx, rule, t, k) is Some {
            proof {
                lemma_repeat_end(t, k, p);
                lemma_positive_quotient(repeat_end(t, k, p) - k, p.len() as int);
                lemma_qualified_tail(t, repeat_end(t, k, p));
            }
            let (e, m) = prefix_match(ctx, rule, t, k)->0;
            scan(ctx, rule, t, e, false, acc.push(m))
        } else if p == "["@ && bracket_match(ctx, rule, t, k) is Some {
            proof {
                lemma_segment_from(t, k + 1, false);
                if segment_end(t, k) is Some {
                    lemma_path_from(t, segment_end(t, k)->0);
                }
            }
            let (e, m) = bracket_match(ctx, rule, t, k)->0;
            scan(ctx, rule, t, e, false, acc.push(m))
        } else {
            let (next, m) = literal_step(ctx, rule, t, k);
            match m {
                None => scan(ctx, rule, t, k + 1, false, acc),
                Some(m) => scan(ctx, rule, t, k + p.len(), false, acc.push(m)),
            }
        }
    } else {
        scan(ctx, rule, t, k + 1, false, acc)
    }
}

/// The matches a rule declares in a formula text.
pub open spec fn declared_matches(ctx: RuntimeHostFormulaContext, rule: RuntimeHostReferenceSyntaxRule, t: Seq<char>) -> Seq<HostSyntaxMatchModel> {
    scan(ctx, rule, t, 0, false, Seq::empty())
}

pub open spec fn match_models(s: Seq<RuntimeHostReferenceSyntaxMatch>) -> Seq<HostSyntaxMatchModel> {
    s.map_values(|m: RuntimeHostReferenceSyntaxMatch| m.model())
}


/// The rule's payload, or `fallback` when it has none, as characters.
fn payload_or_chars(rule: &RuntimeHostReferenceSyntaxRule, fallback: &str) -> (r: Vec<char>)
    ensures
        r@ == payload_or(*rule, fallback@),
{
    match &rule.opaque_selector_payload {
        Some(p) => chars_of(p.as_str()),
        None => chars_of(fallback),
    }
}

/// The match of `rule` covering characters `start..end`.
fn make_match(
    ctx: &RuntimeHostFormulaContext,
    rule: &RuntimeHostReferenceSyntaxRule,
    t: &[char],
    off: &Vec<usize>,
    start: usize,
    end: usize,
    payload: Option<String>,
) -> (m: RuntimeHostReferenceSyntaxMatch)
    requires
        start <= end <= t@.len(),
        off@.len() == t@.len() + 1,
        forall|i: int| 0 <= i <= t@.len() ==> off@[i] == byte_offset(t@, i),
    ensures
        m.model() == match_model(*ctx, *rule, t@, start as int, end as int, opt_view(payload)),
{
    proof { lemma_byte_offset_mono(t@, start as int, end as int); }
    let bs = off[start];
    let be = off[end];
    let span = TextSpan { start: bs, len: be - bs };
    let mut handle: Vec<char> = Vec::new();
    push_str(&mut handle, "host-reference-syntax:");
    push_string(&mut handle, &ctx.dialect_id);
    push_str(&mut handle, ":");
    push_string(&mut handle, &rule.rule_id);
    push_str(&mut handle, ":");
    push_decimal(&mut handle, bs as u64);
    push_str(&mut handle, ":");
    push_decimal(&mut handle, (be - bs) as u64);
    let diagnostics: Vec<String> = Vec::new();
    let m = RuntimeHostReferenceSyntaxMatch {
        syntax_match_handle: string_of(&handle),
        rule_id: rule.rule_id.clone(),
        rule_family: rule.rule_family.clone(),
        source_span: span,
        source_token_text: string_of(&slice_chars(t, start, end)),
        token_kind: rule.token_kind.clone(),
        opaque_selector_payload: payload,
        resolution_layer: rule.resolution_layer.clone(),
        shape_hint: copy_opt_string(&rule.shape_hint),
        caller_context_dependent: rule.caller_context_dependent,
        diagnostics,
    };
    assert(string_views(m.diagnostics@) =~= Seq::<Seq<char>>::empty());
    assert(m.model() =~= match_model(*ctx, *rule, t@, start as int, end as int, opt_view(m.opaque_selector_payload)));
    m
}

fn declared_host_reference_literal_array_syntax_match(
    ctx: &RuntimeHostFormulaContext,
    rule: &RuntimeHostReferenceSyntaxRule,
    t: &[char],
    off: &Vec<usize>,
    k: usize,
) -> (r: Option<(usize, RuntimeHostReferenceSyntaxMatch)>)
    requires
        k < t@.len(),
        off@.len() == t@.len() + 1,
        forall|i: int| 0 <= i <= t@.len() ==> off@[i] == byte_offset(t@, i),
    ensures
        match r {
            Some(x) => array_match(*ctx, *rule, t@, k as int) == Some((x.0 as int, x.1.model())) && k < x.0 <= t@.len(),
            None => array_match(*ctx, *rule, t@, k as int) is None,
        },
{
    let end = match host_reference_literal_array_end(t, k) {
        Some(e) => e,
        None => return None,
    };
    if !host_syntax_boundary_before(t, k) || !host_syntax_boundary_after(t, end) {
        return None;
    }
    let token = slice_chars(t, k, end);
    let els = match host_reference_literal_array_element_token_texts(&token) {
        Some(v) => v,
        None => return None,
    };
    let mut payload = payload_or_chars(rule, "selector-family:reference-literal-array");
    push_str(&mut payload, ";element_token_texts=");
    let joined = join_char_vecs(&els, "|");
    push_chars(&mut payload, &joined);
    let m = make_match(ctx, rule, t, off, k, end, Some(string_of(&payload)));
    Some((end, m))
}

fn declared_host_reference_repeated_prefix_syntax_match(
    ctx: &RuntimeHostFormulaContext,
    rule: &RuntimeHostReferenceSyntaxRule,
    t: &[char],
    off: &Vec<usize>,
    k: usize,
    p: &[char],
) -> (r: Option<(usize, RuntimeHostReferenceSyntaxMatch)>)
    requires
        k < t@.len(),
        p@ == rule.pattern_text@,
        p@.len() > 0,
        off@.len() == t@.len() + 1,
        forall|i: int| 0 <= i <= t@.len() ==> off@[i] == byte_offset(t@, i),
    ensures
        match r {
            Some(x) => prefix_match(*ctx, *rule, t@, k as int) == Some((x.0 as int, x.1.model())) && k < x.0 <= t@.len(),
            None => prefix_match(*ctx, *rule, t@, k as int) is None,
        },
{
    if !host_syntax_boundary_before(t, k) {
        return None;
    }
    let se = repeat_end_at(t, k, p);
    let count = (se - k) / p.len();
    if count == 0 {
        return None;
    }
    proof { lemma_positive_quotient((se - k) as int, p@.len() as int); }
    let tail = qualified_host_reference_tail(t, se);
    let end = match &tail {
        Some(x) => x.0,
        None => se,
    };
    if !host_syntax_boundary_after(t, end) {
        return None;
    }
    let mut payload = payload_or_chars(rule, "selector-family:repeated-prefix");
    push_str(&mut payload, ";repeat_count=");
    push_decimal(&mut payload, count as u64);
    let ghost before_tail = payload@;
    match &tail {
        Some(x) => {
            push_str(&mut payload, ";tail_token_text=");
            push_chars(&mut payload, &x.1);
        },
        None => {},
    }
    assert(payload@ =~= before_tail + match qualified_tail(t@, se as int) {
        Some(x) => ";tail_token_text="@ + x.1,
        None => Seq::<char>::empty(),
    });
    let m = make_match(ctx, rule, t, off, k, end, Some(string_of(&payload)));
    Some((end, m))
}

fn declared_host_reference_bracket_path_syntax_match(
    ctx: &RuntimeHostFormulaContext,
    rule: &RuntimeHostReferenceSyntaxRule,
    t: &[char],
    off: &Vec<usize>,
    k: usize,
) -> (r: Option<(usize, RuntimeHostReferenceSyntaxMatch)>)
    requires
        k < t@.len(),
        off@.len() == t@.len() + 1,
        forall|i: int| 0 <= i <= t@.len() ==> off@[i] == byte_offset(t@, i),
    ensures
        match r {
            Some(x) => bracket_match(*ctx, *rule, t@, k as int) == Some((x.0 as int, x.1.model())) && k < x.0 <= t@.len(),
            None => bracket_match(*ctx, *rule, t@, k as int) is None,
        },
{
    let base = if k > 0 && t[k - 1] == '.' {
        qualified_host_reference_base_before_dot(t, k - 1)
    } else {
        None
    };
    if base.is_none() && !host_syntax_boundary_before(t, k) {
        return None;
    }
    let end = match host_reference_path_token_end(t, k) {
        Some(e) => e,
        None => return None,
    };
    if !host_syntax_boundary_after(t, end) {
        return None;
    }
    let start = match &base {
        Some(b) => b.0,
        None => k,
    };
    let mut payload = payload_or_chars(rule, "selector-family:escaped-path");
    push_str(&mut payload, ";path_token_text=");
    let token = slice_chars(t, start, end);
    push_chars(&mut payload, &token);
    let m = make_match(ctx, rule, t, off, start, end, Some(string_of(&payload)));
    Some((end, m))
}

/// A found token as its position and text.
pub open spec fn token_model(o: Option<(usize, Vec<char>)>) -> Option<(int, Seq<char>)> {
    match o {
        Some(x) => Some((x.0 as int, x.1@)),
        None => None,
    }
}

/// The pattern ends in `*` and the text goes on with another `*`: the
/// pattern is only the start of a longer token.
fn host_reference_literal_pattern_is_prefix_of_longer_token(t: &[char], selector_end: usize, p: &[char]) -> (r: bool)
    ensures
        r == (p@.len() > 0 && p@.last() == '*' && selector_end < t@.len() && t@[selector_end as int] == '*'),
{
    p.len() > 0 && p[p.len() - 1] == '*' && selector_end < t.len() && t[selector_end] == '*'
}

/// The rule's payload with the qualifying base and tail tokens appended.
fn host_reference_selector_payload_with_qualifiers(
    rule: &RuntimeHostReferenceSyntaxRule,
    base: &Option<(usize, Vec<char>)>,
    tail: &Option<(usize, Vec<char>)>,
) -> (r: String)
    ensures
        r@ == qualified_payload(*rule, token_model(*base), token_model(*tail)),
{
    let mut v = payload_or_chars(rule, "selector-family:unknown");
    match base {
        Some(b) => {
            push_str(&mut v, ";base_token_text=");
            push_chars(&mut v, &b.1);
        },
        None => {},
    }
    match tail {
        Some(x) => {
            push_str(&mut v, ";tail_token_text=");
            push_chars(&mut v, &x.1);
        },
        None => {},
    }
    assert(v@ =~= qualified_payload(*rule, token_model(*base), token_model(*tail)));
    string_of(&v)
}

fn literal_step_at(
    ctx: &RuntimeHostFormulaContext,
    rule: &RuntimeHostReferenceSyntaxRule,
    t: &[char],
    off: &Vec<usize>,
    k: usize,
    p: &[char],
) -> (r: (usize, Option<RuntimeHostReferenceSyntaxMatch>))
    requires
        k < t@.len(),
        has_at(t@, k as int, p@),
        p@ == rule.pattern_text@,
        p@.len() > 0,
        off@.len() == t@.len() + 1,
        forall|i: int| 0 <= i <= t@.len() ==> off@[i] == byte_offset(t@, i),
    ensures
        r.0 == literal_step(*ctx, *rule, t@, k as int).0,
        k < r.0 <= t@.len(),
        match r.1 {
            Some(m) => literal_step(*ctx, *rule, t@, k as int).1 == Some(m.model()),
            None => literal_step(*ctx, *rule, t@, k as int).1 is None,
        },
{
    let n = t.len();
    let se = k + p.len();
    if host_reference_literal_pattern_is_prefix_of_longer_token(t, se, p) {
        return (k + 1, None);
    }
    let base = qualified_host_reference_base(t, k, p);
    let tail = qualified_host_reference_tail(t, se);
    let end = match &tail {
        Some(x) => x.0,
        None => se,
    };
    let after = host_syntax_boundary_after(t, end);
    let unqualified = host_syntax_boundary_before(t, k) && after;
    let qualified = base.is_some() && after;
    if !unqualified && !qualified {
        return (k + 1, None);
    }
    let start = match &base {
        Some(b) => b.0,
        None => k,
    };
    let payload = if base.is_some() || tail.is_some() {
        assert(token_model(base) == qualified_base(t@, k as int, p@));
        assert(token_model(tail) == qualified_tail(t@, se as int));
        Some(host_reference_selector_payload_with_qualifiers(rule, &base, &tail))
    } else {
        copy_opt_string(&rule.opaque_selector_payload)
    };
    let m = make_match(ctx, rule, t, off, start, end, payload);
    (se, Some(m))
}

/// The matches `rule` declares in the text `t`, whose byte offsets are `off`.
fn scan_rule(ctx: &RuntimeHostFormulaContext, rule: &RuntimeHostReferenceSyntaxRule, t: &[char], off: &Vec<usize>) -> (r: Vec<RuntimeHostReferenceSyntaxMatch>)
    requires
        off@.len() == t@.len() + 1,
        forall|i: int| 0 <= i <= t@.len() ==> off@[i] == byte_offset(t@, i),
    ensures
        match_models(r@) == declared_matches(*ctx, *rule, t@),
{
    let p = chars_of(rule.pattern_text.as_str());
    let mut matches: Vec<RuntimeHostReferenceSyntaxMatch> = Vec::new();
    if p.len() == 0 {
        assert(match_models(matches@) =~= Seq::<HostSyntaxMatchModel>::empty());
        return matches;
    }
    let is_brace = chars_eq(&p, &chars_of("{"));
    let is_caret = chars_eq(&p, &chars_of("^"));
    let is_bracket = chars_eq(&p, &chars_of("["));
    let mut k: usize = 0;
    let mut in_string = false;
    assert(match_models(matches@) =~= Seq::<HostSyntaxMatchModel>::empty());
    while k < t.len()
        invariant
            p@ == rule.pattern_text@,
            p@.len() > 0,
            is_brace == (p@ == "{"@),
            is_caret == (p@ == "^"@),
            is_bracket == (p@ == "["@),
            off@.len() == t@.len() + 1,
            forall|i: int| 0 <= i <= t@.len() ==> off@[i] == byte_offset(t@, i),
            declared_matches(*ctx, *rule, t@) == scan(*ctx, *rule, t@, k as int, in_string, match_models(matches@)),
        decreases t.len() - k,
    {
        let ghost before = matches@;
        let c = t[k];
        if in_string {
            if c == '"' {
                if k + 1 < t.len() && t[k + 1] == '"' {
                    k = k + 2;
                } else {
                    in_string = false;
                    k = k + 1;
                }
            } else {
                k = k + 1;
            }
            continue;
        }
        if c == '"' {
            in_string = true;
            k = k + 1;
            continue;
        }
        if chars_have_at(t, k, &p) {
            if is_brace {
                if let Some((e, m)) = declared_host_reference_literal_array_syntax_match(ctx, rule, t, off, k) {
                    let ghost mm = m.model();
                    matches.push(m);
                    assert(match_models(matches@) =~= match_models(before).push(mm));
                    k = e;
                    continue;
                }
            }
            if is_caret {
                if let Some((e, m)) = declared_host_reference_repeated_prefix_syntax_match(ctx, rule, t, off, k, &p) {
                    let ghost mm = m.model();
                    matches.push(m);
                    assert(match_models(matches@) =~= match_models(before).push(mm));
                    k = e;
                    continue;
                }
            }
            if is_bracket {
                if let Some((e, m)) = declared_host_reference_bracket_path_syntax_match(ctx, rule, t, off, k) {
                    let ghost mm = m.model();
                    matches.push(m);
                    assert(match_models(matches@) =~= match_models(before).push(mm));
                    k = e;
                    continue;
                }
            }
            let (next, found) = literal_step_at(ctx, rule, t, off, k, &p);
            match found {
                Some(m) => {
                    let ghost mm = m.model();
                    matches.push(m);
                    assert(match_models(matches@) =~= match_models(before).push(mm));
                    k = next;
                },
                None => {
                    k = k + 1;
                },
            }
            continue;
        }
        k = k + 1;
    }
    matches
}


pub proof fn lemma_base_before_dot(t: Seq<char>, dot: int)
    ensures
        base_before_dot(t, dot) matches Some(b) ==> 0 <= b.0 < dot <= t.len(),
{
    if 0 < dot <= t.len() {
        lemma_base_run_start(t, dot);
    }
}

proof fn lemma_match_on_text(
    ctx: RuntimeHostFormulaContext,
    rule: RuntimeHostReferenceSyntaxRule,
    t: Seq<char>,
    s: int,
    e: int,
    p: Option<Seq<char>>,
)
    requires
        0 <= s <= e <= t.len(),
        byte_len(t) <= usize::MAX,
    ensures
        on_text(t)(match_model(ctx, rule, t, s, e, p)),
{
    lemma_byte_offset_mono(t, s, e);
    lemma_byte_offset_bound(t, e);
    let m = match_model(ctx, rule, t, s, e, p);
    assert(m.source_span.start == byte_offset(t, s));
    assert(span_end(m.source_span) == byte_offset(t, e));
    assert(0 <= s <= t.len() && byte_offset(t, s) == m.source_span.start as int);
    assert(0 <= e <= t.len() && byte_offset(t, e) == span_end(m.source_span));
}

/// Every match a scan finds covers characters of the scanned text.
pub proof fn lemma_scan_on_text(
    ctx: RuntimeHostFormulaContext,
    rule: RuntimeHostReferenceSyntaxRule,
    t: Seq<char>,
    k: int,
    in_string: bool,
    acc: Seq<HostSyntaxMatchModel>,
)
    requires
        all_sat(acc, on_text(t)),
        byte_len(t) <= usize::MAX,
    ensures
        all_sat(scan(ctx, rule, t, k, in_string, acc), on_text(t)),
    decreases t.len() - k,
{
    let p = rule.pattern_text@;
    if k < 0 || k >= t.len() || p.len() == 0 {
    } else if in_string {
        if t[k] == '"' {
            if k + 1 < t.len() && t[k + 1] == '"' {
                lemma_scan_on_text(ctx, rule, t, k + 2, true, acc);
            } else {
                lemma_scan_on_text(ctx, rule, t, k + 1, false, acc);
            }
        } else {
            lemma_scan_on_text(ctx, rule, t, k + 1, true, acc);
        }
    } else if t[k] == '"' {
        lemma_scan_on_text(ctx, rule, t, k + 1, true, acc);
    } else if has_at(t, k, p) {
        if p == "{"@ && array_match(ctx, rule, t, k) is Some {
            lemma_array_end(t, k + 1);
            let (e, m) = array_match(ctx, rule, t, k)->0;
            let end = array_end_from(t, k + 1)->0;
            let els = array_elements(t.subrange(k, end))->0;
            lemma_match_on_text(ctx, rule, t, k, end,
                Some(payload_or(rule, "selector-family:reference-literal-array"@) + ";element_token_texts="@ + join(els, "|"@)));
            lemma_push_sat(acc, m, on_text(t));
            lemma_scan_on_text(ctx, rule, t, e, false, acc.push(m));
        } else if p == "^"@ && prefix_match(ctx, rule, t, k) is Some {
            lemma_repeat_end(t, k, p);
            lemma_positive_quotient(repeat_end(t, k, p) - k, p.len() as int);
            lemma_qualified_tail(t, repeat_end(t, k, p));
            let (e, m) = prefix_match(ctx, rule, t, k)->0;
            let se = repeat_end(t, k, p);
            let count = (se - k) / (p.len() as int);
            let tail = qualified_tail(t, se);
            let payload = payload_or(rule, "selector-family:repeated-prefix"@) + ";repeat_count="@ + decimal(count as nat)
                + match tail {
                    Some(x) => ";tail_token_text="@ + x.1,
                    None => Seq::empty(),
                };
            lemma_match_on_text(ctx, rule, t, k, e, Some(payload));
            lemma_push_sat(acc, m, on_text(t));
            lemma_scan_on_text(ctx, rule, t, e, false, acc.push(m));
        } else if p == "["@ && bracket_match(ctx, rule, t, k) is Some {
            lemma_segment_from(t, k + 1, false);
            if segment_end(t, k) is Some {
                lemma_path_from(t, segment_end(t, k)->0);
            }
            let base = if 0 < k <= t.len() && t[k - 1] == '.' { base_before_dot(t, k - 1) } else { None };
            lemma_base_before_dot(t, k - 1);
            let (e, m) = bracket_match(ctx, rule, t, k)->0;
            let start = match base {
                Some(b) => b.0,
                None => k,
            };
            lemma_match_on_text(ctx, rule, t, start, e,
                Some(payload_or(rule, "selector-family:escaped-path"@) + ";path_token_text="@ + t.subrange(start, e)));
            lemma_push_sat(acc, m, on_text(t));
            lemma_scan_on_text(ctx, rule, t, e, false, acc.push(m));
        } else {
            let (next, found) = literal_step(ctx, rule, t, k);
            match found {
                None => lemma_scan_on_text(ctx, rule, t, k + 1, false, acc),
                Some(m) => {
                    let se = k + p.len();
                    let base = qualified_base(t, k, p);
                    let tail = qualified_tail(t, se);
                    lemma_qualified_tail(t, se);
                    lemma_base_before_dot(t, k);
                    lemma_base_before_dot(t, k - 1);
                    let end = match tail {
                        Some(x) => x.0,
                        None => se,
                    };
                    let start = match base {
                        Some(b) => b.0,
                        None => k,
                    };
                    let payload = if base is Some || tail is Some {
                        Some(qualified_payload(rule, base, tail))
                    } else {
                        opt_view(rule.opaque_selector_payload)
                    };
                    lemma_match_on_text(ctx, rule, t, start, end, payload);
                    lemma_push_sat(acc, m, on_text(t));
                    lemma_scan_on_text(ctx, rule, t, k + p.len(), false, acc.push(m));
                },
            }
        }
    } else {
        lemma_scan_on_text(ctx, rule, t, k + 1, false, acc);
    }
}

proof fn lemma_push_sat(s: Seq<HostSyntaxMatchModel>, m: HostSyntaxMatchModel, pred: spec_fn(HostSyntaxMatchModel) -> bool)
    requires
        all_sat(s, pred),
        pred(m),
    ensures
        all_sat(s.push(m), pred),
{
    assert forall|i: int| 0 <= i < s.push(m).len() implies pred(#[trigger] s.push(m)[i]) by {
        if i < s.len() {
            assert(s.push(m)[i] == s[i]);
        }
    }
}

proof fn lemma_concat_sat(a: Seq<HostSyntaxMatchModel>, b: Seq<HostSyntaxMatchModel>, pred: spec_fn(HostSyntaxMatchModel) -> bool)
    requires
        all_sat(a, pred),
        all_sat(b, pred),
    ensures
        all_sat(a + b, pred),
{
    assert forall|i: int| 0 <= i < (a + b).len() implies pred(#[trigger] (a + b)[i]) by {
        if i < a.len() {
            assert((a + b)[i] == a[i]);
        } else {
            assert((a + b)[i] == b[i - a.len()]);
        }
    }
}

/// The matches of every rule of a context, rule after rule.
pub open spec fn all_declared(ctx: RuntimeHostFormulaContext, rules: Seq<RuntimeHostReferenceSyntaxRule>, t: Seq<char>) -> Seq<HostSyntaxMatchModel>
    decreases rules.len(),
{
    if rules.len() == 0 {
        Seq::empty()
    } else {
        all_declared(ctx, rules.drop_last(), t) + declared_matches(ctx, rules.last(), t)
    }
}

/// The scan of a rule reads the context only through its dialect.
proof fn lemma_scan_dialect(
    c1: RuntimeHostFormulaContext,
    c2: RuntimeHostFormulaContext,
    rule: RuntimeHostReferenceSyntaxRule,
    t: Seq<char>,
    k: int,
    in_string: bool,
    acc: Seq<HostSyntaxMatchModel>,
)
    requires
        c1.dialect_id@ == c2.dialect_id@,
    ensures
        scan(c1, rule, t, k, in_string, acc) == scan(c2, rule, t, k, in_string, acc),
    decreases t.len() - k,
{
    let p = rule.pattern_text@;
    if k < 0 || k >= t.len() || p.len() == 0 {
    } else if in_string {
        if t[k] == '"' {
            if k + 1 < t.len() && t[k + 1] == '"' {
                lemma_scan_dialect(c1, c2, rule, t, k + 2, true, acc);
            } else {
                lemma_scan_dialect(c1, c2, rule, t, k + 1, false, acc);
            }
        } else {
            lemma_scan_dialect(c1, c2, rule, t, k + 1, true, acc);
        }
    } else if t[k] == '"' {
        lemma_scan_dialect(c1, c2, rule, t, k + 1, true, acc);
    } else if has_at(t, k, p) {
        assert(array_match(c1, rule, t, k) == array_match(c2, rule, t, k));
        assert(prefix_match(c1, rule, t, k) == prefix_match(c2, rule, t, k));
        assert(bracket_match(c1, rule, t, k) == bracket_match(c2, rule, t, k));
        assert(literal_step(c1, rule, t, k) == literal_step(c2, rule, t, k));
        if p == "{"@ && array_match(c1, rule, t, k) is Some {
            lemma_array_end(t, k + 1);
            let (e, m) = array_match(c1, rule, t, k)->0;
            lemma_scan_dialect(c1, c2, rule, t, e, false, acc.push(m));
        } else if p == "^"@ && prefix_match(c1, rule, t, k) is Some {
            lemma_repeat_end(t, k, p);
            lemma_positive_quotient(repeat_end(t, k, p) - k, p.len() as int);
            lemma_qualified_tail(t, repeat_end(t, k, p));
            let (e, m) = prefix_match(c1, rule, t, k)->0;
            lemma_scan_dialect(c1, c2, rule, t, e, false, acc.push(m));
        } else if p == "["@ && bracket_match(c1, rule, t, k) is Some {
            lemma_segment_from(t, k + 1, false);
            if segment_end(t, k) is Some {
                lemma_path_from(t, segment_end(t, k)->0);
            }
            let (e, m) = bracket_match(c1, rule, t, k)->0;
            lemma_scan_dialect(c1, c2, rule, t, e, false, acc.push(m));
        } else {
            let (next, m) = literal_step(c1, rule, t, k);
            match m {
                None => lemma_scan_dialect(c1, c2, rule, t, k + 1, false, acc),
                Some(m) => lemma_scan_dialect(c1, c2, rule, t, k + p.len(), false, acc.push(m)),
            }
        }
    } else {
        lemma_scan_dialect(c1, c2, rule, t, k + 1, false, acc);
    }
}

proof fn lemma_all_declared_dialect(
    c1: RuntimeHostFormulaContext,
    c2: RuntimeHostFormulaContext,
    rules: Seq<RuntimeHostReferenceSyntaxRule>,
    t: Seq<char>,
)
    requires
        c1.dialect_id@ == c2.dialect_id@,
    ensures
        all_declared(c1, rules, t) == all_declared(c2, rules, t),
    decreases rules.len(),
{
    if rules.len() > 0 {
        lemma_all_declared_dialect(c1, c2, rules.drop_last(), t);
        lemma_scan_dialect(c1, c2, rules.last(), t, 0, false, Seq::empty());
    }
}

proof fn lemma_all_declared_concat(
    ctx: RuntimeHostFormulaContext,
    r1: Seq<RuntimeHostReferenceSyntaxRule>,
    r2: Seq<RuntimeHostReferenceSyntaxRule>,
    t: Seq<char>,
)
    ensures
        all_declared(ctx, r1 + r2, t) == all_declared(ctx, r1, t) + all_declared(ctx, r2, t),
    decreases r2.len(),
{
    if r2.len() == 0 {
        assert(r1 + r2 =~= r1);
        assert(all_declared(ctx, r1, t) + all_declared(ctx, r2, t) =~= all_declared(ctx, r1, t));
    } else {
        lemma_all_declared_concat(ctx, r1, r2.drop_last(), t);
        assert((r1 + r2).drop_last() =~= r1 + r2.drop_last());
        assert((r1 + r2).last() == r2.last());
        assert(all_declared(ctx, r1 + r2, t) =~= all_declared(ctx, r1, t) + all_declared(ctx, r2, t));
    }
}

/// Matches of concatenated rule lists concatenate: a context whose rules
/// are those of `c1` followed by those of `c2`, the three agreeing on every
/// other field, declares the matches of `c1` followed by those of `c2`;
/// a context with no rules declares none.
pub proof fn lemma_declared_matches_concatenate(
    c: RuntimeHostFormulaContext,
    c1: RuntimeHostFormulaContext,
    c2: RuntimeHostFormulaContext,
    t: Seq<char>,
)
    requires
        c.dialect_id == c1.dialect_id && c.dialect_id == c2.dialect_id,
        c.capability_profile_id == c1.capability_profile_id && c.capability_profile_id == c2.capability_profile_id,
        c.resolution_rule_version == c1.resolution_rule_version && c.resolution_rule_version == c2.resolution_rule_version,
        c.host_namespace_version == c1.host_namespace_version && c.host_namespace_version == c2.host_namespace_version,
        c.registry_snapshot_identity == c1.registry_snapshot_identity && c.registry_snapshot_identity == c2.registry_snapshot_identity,
        c.structure_context_version == c1.structure_context_version && c.structure_context_version == c2.structure_context_version,
        c.caller_context_identity == c1.caller_context_identity && c.caller_context_identity == c2.caller_context_identity,
        c.table_context_identity == c1.table_context_identity && c.table_context_identity == c2.table_context_identity,
        c.host_reference_syntax_rules@ == c1.host_reference_syntax_rules@ + c2.host_reference_syntax_rules@,
    ensures
        all_declared(c, c.host_reference_syntax_rules@, t)
            == all_declared(c1, c1.host_reference_syntax_rules@, t) + all_declared(c2, c2.host_reference_syntax_rules@, t),
        c.host_reference_syntax_rules@.len() == 0 ==> all_declared(c, c.host_reference_syntax_rules@, t).len() == 0,
{
    let r1 = c1.host_reference_syntax_rules@;
    let r2 = c2.host_reference_syntax_rules@;
    lemma_all_declared_concat(c, r1, r2, t);
    lemma_all_declared_dialect(c, c1, r1, t);
    lemma_all_declared_dialect(c, c2, r2, t);
}

proof fn lemma_all_declared_on_text(ctx: RuntimeHostFormulaContext, rules: Seq<RuntimeHostReferenceSyntaxRule>, t: Seq<char>)
    requires
        byte_len(t) <= usize::MAX,
    ensures
        all_sat(all_declared(ctx, rules, t), on_text(t)),
    decreases rules.len(),
{
    if rules.len() > 0 {
        lemma_all_declared_on_text(ctx, rules.drop_last(), t);
        lemma_scan_on_text(ctx, rules.last(), t, 0, false, Seq::empty());
        lemma_concat_sat(all_declared(ctx, rules.drop_last(), t), declared_matches(ctx, rules.last(), t), on_text(t));
    }
}

/// The matches `rule` declares in the entered text of `source`.
pub fn declared_host_reference_syntax_matches(
    source: &FormulaSourceRecord,
    context: &RuntimeHostFormulaContext,
    rule: &RuntimeHostReferenceSyntaxRule,
) -> (r: Vec<RuntimeHostReferenceSyntaxMatch>)
    ensures
        match_models(r@) == declared_matches(*context, *rule, source.entered_formula_text@),
{
    let t = chars_of(source.entered_formula_text.as_str());
    let off = byte_offsets(&source.entered_formula_text);
    scan_rule(context, rule, &t, &off)
}

impl RuntimeHostFormulaContext {
    /// The matches of every declared rule in the entered text, rule after rule.
    pub fn declared_host_reference_syntax_matches(&self, source: &FormulaSourceRecord) -> (r: Vec<RuntimeHostReferenceSyntaxMatch>)
        ensures
            match_models(r@) == all_declared(*self, self.host_reference_syntax_rules@, source.entered_formula_text@),
            all_sat(match_models(r@), on_text(source.entered_formula_text@)),
    {
        let rules = &self.host_reference_syntax_rules;
        let mut out: Vec<RuntimeHostReferenceSyntaxMatch> = Vec::new();
        let mut i: usize = 0;
        assert(rules@.take(0) =~= Seq::<RuntimeHostReferenceSyntaxRule>::empty());
        assert(match_models(out@) =~= Seq::<HostSyntaxMatchModel>::empty());
        while i < rules.len()
            invariant
                i <= rules@.len(),
                rules@ == self.host_reference_syntax_rules@,
                match_models(out@) == all_declared(*self, rules@.take(i as int), source.entered_formula_text@),
            decreases rules.len() - i,
        {
            let found = declared_host_reference_syntax_matches(source, self, &rules[i]);
            let ghost before = match_models(out@);
            let mut j: usize = 0;
            while j < found.len()
                invariant
                    j <= found@.len(),
                    match_models(out@) == before + match_models(found@).take(j as int),
                decreases found.len() - j,
            {
                let ghost prev = match_models(out@);
                out.push(found[j].duplicate());
                assert(match_models(out@) =~= prev.push(found@[j as int].model()));
                assert(match_models(found@).take(j + 1) =~= match_models(found@).take(j as int).push(found@[j as int].model()));
                j = j + 1;
            }
            assert(match_models(found@).take(found@.len() as int) =~= match_models(found@));
            assert(rules@.take(i + 1).drop_last() =~= rules@.take(i as int));
            i = i + 1;
        }
        assert(rules@.take(rules@.len() as int) =~= rules@);
        let ghost t = source.entered_formula_text@;
        byte_len_fits(&source.entered_formula_text);
        proof { lemma_all_declared_on_text(*self, self.host_reference_syntax_rules@, t); }
        out
    }

    /// The projection of the context's own declared matches onto the source.
    pub fn project_declared_host_reference_syntax(&self, source: &FormulaSourceRecord) -> (r: RuntimeHostReferenceSyntaxProjection)
        ensures
            r.source.model() == projection_spec(source.model(), all_declared(*self, self.host_reference_syntax_rules@, source.entered_formula_text@)).0,
            match_models(r.matches@) == projection_spec(source.model(), all_declared(*self, self.host_reference_syntax_rules@, source.entered_formula_text@)).1,
            string_views(r.diagnostics@) == projection_spec(source.model(), all_declared(*self, self.host_reference_syntax_rules@, source.entered_formula_text@)).2,
    {
        let matches = self.declared_host_reference_syntax_matches(source);
        proof { lemma_projectable(source.model(), match_models(matches@)); }
        self.project_host_reference_syntax_matches(source, matches)
    }
}

} // verus!
