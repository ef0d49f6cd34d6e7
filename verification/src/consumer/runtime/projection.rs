//! Projecting host reference syntax matches into formula text: matches are
//! taken in order of their start, overlapping ones are diagnosed and
//! dropped, and each accepted span is replaced by its formal token.

use vstd::prelude::*;

use crate::consumer::runtime::host_syntax::match_models;
use crate::consumer::runtime::{
    formal_token, HostSyntaxMatchModel, RuntimeHostFormulaContext, RuntimeHostReferenceSyntaxMatch,
    RuntimeHostReferenceSyntaxProjection,
};
use crate::offsets::{byte_offset, byte_offsets, lemma_byte_offset_step};
use crate::source::{FormulaSourceModel, FormulaSourceRecord, TextSpan};
use crate::text::{chars_of, decimal, push_chars, push_decimal, push_str, push_string, slice_chars, string_of, string_views};

verus! {

/// `sorted` with `m` placed after every element that starts no later.
pub open spec fn insert_by_start(sorted: Seq<HostSyntaxMatchModel>, m: HostSyntaxMatchModel) -> Seq<HostSyntaxMatchModel>
    decreases sorted.len(),
{
    if sorted.len() == 0 {
        seq![m]
    } else if sorted.last().source_span.start <= m.source_span.start {
        sorted.push(m)
    } else {
        insert_by_start(sorted.drop_last(), m).push(sorted.last())
    }
}

/// The matches in order of their start; matches starting together keep
/// their order (a stable sort).
pub open spec fn sort_by_start(s: Seq<HostSyntaxMatchModel>) -> Seq<HostSyntaxMatchModel>
    decreases s.len(),
{
    if s.len() == 0 {
        Seq::empty()
    } else {
        insert_by_start(sort_by_start(s.drop_last()), s.last())
    }
}

/// One past the last byte of a span.
pub open spec fn span_end(sp: TextSpan) -> int {
    sp.start + sp.len
}

/// `b` is the byte offset of a character of `t`, or its end.
pub open spec fn is_boundary(t: Seq<char>, b: int) -> bool {
    exists|i: int| 0 <= i <= t.len() && byte_offset(t, i) == b
}

/// The character index at byte offset `b`.
pub open spec fn char_at_byte(t: Seq<char>, b: int) -> int {
    choose|i: int| 0 <= i <= t.len() && byte_offset(t, i) == b
}

/// Every span's end fits in a `usize`.
pub open spec fn spans_fit(ms: Seq<HostSyntaxMatchModel>) -> bool {
    forall|i: int| 0 <= i < ms.len() ==> span_end(#[trigger] ms[i].source_span) <= usize::MAX
}

/// The spans that projection accepts, from `i` on with the text consumed up
/// to byte `cursor`, start and end on character boundaries.
pub open spec fn accepted_on_boundaries(t: Seq<char>, sorted: Seq<HostSyntaxMatchModel>, i: int, cursor: int) -> bool
    decreases sorted.len() - i,
{
    if i < 0 || i >= sorted.len() {
        true
    } else {
        let m = sorted[i];
        if m.source_span.start < cursor {
            accepted_on_boundaries(t, sorted, i + 1, cursor)
        } else {
            is_boundary(t, m.source_span.start as int) && is_boundary(t, span_end(m.source_span))
                && accepted_on_boundaries(t, sorted, i + 1, span_end(m.source_span))
        }
    }
}

/// The diagnostic for a match that overlaps an accepted one.
pub open spec fn overlap_diagnostic(m: HostSyntaxMatchModel) -> Seq<char> {
    "overlapping_host_reference_syntax_match:"@ + m.source_token_text + ":"@ + decimal(m.source_span.start as nat) + "-"@
        + decimal(span_end(m.source_span) as nat)
}

/// Projection from the `i`-th sorted match on: the text so far, the byte
/// consumed up to, the accepted matches and the diagnostics.
pub open spec fn project_from(
    t: Seq<char>,
    sorted: Seq<HostSyntaxMatchModel>,
    i: int,
    st: (Seq<char>, int, Seq<HostSyntaxMatchModel>, Seq<Seq<char>>),
) -> (Seq<char>, int, Seq<HostSyntaxMatchModel>, Seq<Seq<char>>)
    decreases sorted.len() - i,
{
    if i < 0 || i >= sorted.len() {
        st
    } else {
        let m = sorted[i];
        if m.source_span.start < st.1 {
            project_from(t, sorted, i + 1, (st.0, st.1, st.2, st.3.push(overlap_diagnostic(m))))
        } else {
            let piece = t.subrange(char_at_byte(t, st.1), char_at_byte(t, m.source_span.start as int));
            project_from(t, sorted, i + 1, (st.0 + piece + formal_token(m.source_span), span_end(m.source_span), st.2.push(m), st.3))
        }
    }
}

/// The projection of `matches` onto a source: the projected source, the
/// accepted matches and the diagnostics. Without an accepted match the
/// source is unchanged; otherwise its entered text is projected and the
/// text it had is kept as the stored text.
pub open spec fn projection_spec(source: FormulaSourceModel, matches: Seq<HostSyntaxMatchModel>) -> (FormulaSourceModel, Seq<HostSyntaxMatchModel>, Seq<Seq<char>>) {
    let t = source.entered_formula_text;
    let (out, cursor, accepted, diagnostics) = project_from(t, sort_by_start(matches), 0, (Seq::empty(), 0, Seq::empty(), Seq::empty()));
    if accepted.len() == 0 {
        (source, accepted, diagnostics)
    } else {
        (
            FormulaSourceModel {
                entered_formula_text: out + t.subrange(char_at_byte(t, cursor), t.len() as int),
                stored_formula_text: Some(t),
                ..source
            },
            accepted,
            diagnostics,
        )
    }
}

/// Projection accepts the inputs on which slicing the text at the accepted
/// spans succeeds.
pub open spec fn projectable(source: FormulaSourceModel, matches: Seq<HostSyntaxMatchModel>) -> bool {
    &&& spans_fit(matches)
    &&& accepted_on_boundaries(source.entered_formula_text, sort_by_start(matches), 0, 0)
}

pub proof fn lemma_byte_offset_strict(t: Seq<char>, i: int, j: int)
    requires
        0 <= i < j <= t.len(),
    ensures
        byte_offset(t, i) < byte_offset(t, j),
    decreases j - i,
{
    lemma_byte_offset_step(t, j - 1);
    if i < j - 1 {
        lemma_byte_offset_strict(t, i, j - 1);
    }
}

/// The character index at a boundary is the one whose offset it is.
pub proof fn lemma_char_at_byte(t: Seq<char>, i: int)
    requires
        0 <= i <= t.len(),
    ensures
        is_boundary(t, byte_offset(t, i) as int),
        char_at_byte(t, byte_offset(t, i) as int) == i,
{
    let b = byte_offset(t, i) as int;
    assert(0 <= i <= t.len() && byte_offset(t, i) == b);
    let k = char_at_byte(t, b);
    if k < i {
        lemma_byte_offset_strict(t, k, i);
    } else if k > i {
        lemma_byte_offset_strict(t, i, k);
    }
}

proof fn lemma_insert_fits(sorted: Seq<HostSyntaxMatchModel>, m: HostSyntaxMatchModel)
    requires
        spans_fit(sorted),
        span_end(m.source_span) <= usize::MAX,
    ensures
        spans_fit(insert_by_start(sorted, m)),
    decreases sorted.len(),
{
    if sorted.len() > 0 && sorted.last().source_span.start > m.source_span.start {
        assert(spans_fit(sorted.drop_last())) by {
            assert forall|i: int| 0 <= i < sorted.drop_last().len() implies span_end(#[trigger] sorted.drop_last()[i].source_span) <= usize::MAX by {
                assert(sorted.drop_last()[i] == sorted[i]);
            }
        }
        lemma_insert_fits(sorted.drop_last(), m);
        let r = insert_by_start(sorted.drop_last(), m);
        assert(span_end(sorted[sorted.len() - 1].source_span) <= usize::MAX);
        assert forall|i: int| 0 <= i < r.push(sorted.last()).len() implies span_end(#[trigger] r.push(sorted.last())[i].source_span) <= usize::MAX by {
            if i < r.len() {
                assert(r.push(sorted.last())[i] == r[i]);
            }
        }
    } else if sorted.len() > 0 {
        assert forall|i: int| 0 <= i < sorted.push(m).len() implies span_end(#[trigger] sorted.push(m)[i].source_span) <= usize::MAX by {
            if i < sorted.len() {
                assert(sorted.push(m)[i] == sorted[i]);
            }
        }
    }
}

/// Sorting keeps every span end within a `usize`.
pub proof fn lemma_sort_fits(s: Seq<HostSyntaxMatchModel>)
    requires
        spans_fit(s),
    ensures
        spans_fit(sort_by_start(s)),
    decreases s.len(),
{
    if s.len() > 0 {
        assert(spans_fit(s.drop_last())) by {
            assert forall|i: int| 0 <= i < s.drop_last().len() implies span_end(#[trigger] s.drop_last()[i].source_span) <= usize::MAX by {
                assert(s.drop_last()[i] == s[i]);
            }
        }
        lemma_sort_fits(s.drop_last());
        assert(span_end(s[s.len() - 1].source_span) <= usize::MAX);
        lemma_insert_fits(sort_by_start(s.drop_last()), s.last());
    }
}

/// Index of the character at byte offset `b`, if `b` is a boundary.
fn index_of_offset(off: &Vec<usize>, b: usize, t: Ghost<Seq<char>>) -> (r: Option<usize>)
    requires
        off@.len() == t@.len() + 1,
        forall|i: int| 0 <= i <= t@.len() ==> off@[i] == byte_offset(t@, i),
    ensures
        match r {
            Some(i) => i <= t@.len() && off@[i as int] == b && char_at_byte(t@, b as int) == i,
            None => !is_boundary(t@, b as int),
        },
{
    let mut i: usize = 0;
    while i < off.len()
        invariant
            i <= off@.len(),
            off@.len() == t@.len() + 1,
            forall|k: int| 0 <= k <= t@.len() ==> off@[k] == byte_offset(t@, k),
            forall|k: int| 0 <= k < i ==> off@[k] != b,
        decreases off.len() - i,
    {
        if off[i] == b {
            proof { lemma_char_at_byte(t@, i as int); }
            return Some(i);
        }
        i = i + 1;
    }
    proof {
        if is_boundary(t@, b as int) {
            let k = choose|k: int| 0 <= k <= t@.len() && byte_offset(t@, k) == b;
            assert(off@[k] == b);
        }
    }
    None
}

/// `sorted` with `m` inserted after every match that starts no later.
fn insert_match(sorted: Vec<RuntimeHostReferenceSyntaxMatch>, m: RuntimeHostReferenceSyntaxMatch) -> (r: Vec<RuntimeHostReferenceSyntaxMatch>)
    ensures
        match_models(r@) == insert_by_start(match_models(sorted@), m.model()),
    decreases sorted@.len(),
{
    let mut sorted = sorted;
    let n = sorted.len();
    if n == 0 {
        let mut v: Vec<RuntimeHostReferenceSyntaxMatch> = Vec::new();
        v.push(m);
        assert(match_models(v@) =~= seq![m.model()]);
        return v;
    }
    let ghost models = match_models(sorted@);
    if sorted[n - 1].source_span.start <= m.source_span.start {
        let ghost mm = m.model();
        sorted.push(m);
        assert(match_models(sorted@) =~= models.push(mm));
        return sorted;
    }
    let last = match sorted.pop() {
        Some(x) => x,
        None => vstd::pervasive::unreached(),
    };
    assert(match_models(sorted@) =~= models.drop_last());
    let ghost lm = last.model();
    let mut r = insert_match(sorted, m);
    let ghost before = match_models(r@);
    r.push(last);
    assert(match_models(r@) =~= before.push(lm));
    r
}

/// The matches sorted by start, stably.
fn sort_matches(matches: &Vec<RuntimeHostReferenceSyntaxMatch>) -> (r: Vec<RuntimeHostReferenceSyntaxMatch>)
    ensures
        match_models(r@) == sort_by_start(match_models(matches@)),
{
    let ghost models = match_models(matches@);
    let mut sorted: Vec<RuntimeHostReferenceSyntaxMatch> = Vec::new();
    let mut i: usize = 0;
    assert(models.take(0) =~= Seq::<HostSyntaxMatchModel>::empty());
    assert(match_models(sorted@) =~= Seq::<HostSyntaxMatchModel>::empty());
    while i < matches.len()
        invariant
            i <= matches@.len(),
            models == match_models(matches@),
            match_models(sorted@) == sort_by_start(models.take(i as int)),
        decreases matches.len() - i,
    {
        let m = matches[i].duplicate();
        assert(models.take(i + 1).drop_last() =~= models.take(i as int));
        assert(models.take(i + 1).last() == models[i as int]);
        sorted = insert_match(sorted, m);
        i = i + 1;
    }
    assert(models.take(matches@.len() as int) =~= models);
    sorted
}

impl RuntimeHostFormulaContext {
    /// Replaces the spans of the accepted matches in the source's entered
    /// text by their formal tokens.
    pub fn project_host_reference_syntax_matches(
        &self,
        source: &FormulaSourceRecord,
        matches: Vec<RuntimeHostReferenceSyntaxMatch>,
    ) -> (r: RuntimeHostReferenceSyntaxProjection)
        requires
            projectable(source.model(), match_models(matches@)),
        ensures
            r.source.model() == projection_spec(source.model(), match_models(matches@)).0,
            match_models(r.matches@) == projection_spec(source.model(), match_models(matches@)).1,
            string_views(r.diagnostics@) == projection_spec(source.model(), match_models(matches@)).2,
    {
        let ghost t = source.entered_formula_text@;
        let sorted = sort_matches(&matches);
        let ghost sm = match_models(sorted@);
        proof { lemma_sort_fits(match_models(matches@)); }
        let text = chars_of(source.entered_formula_text.as_str());
        let off = byte_offsets(&source.entered_formula_text);
        let mut out: Vec<char> = Vec::new();
        let mut accepted: Vec<RuntimeHostReferenceSyntaxMatch> = Vec::new();
        let mut diagnostics: Vec<String> = Vec::new();
        let mut cursor: usize = 0;
        let mut cursor_char: usize = 0;
        proof {
            lemma_char_at_byte(t, 0);
            assert(t.take(0) =~= Seq::<char>::empty());
        }
        assert(match_models(accepted@) =~= Seq::<HostSyntaxMatchModel>::empty());
        assert(string_views(diagnostics@) =~= Seq::<Seq<char>>::empty());
        let mut i: usize = 0;
        while i < sorted.len()
            invariant
                i <= sorted@.len(),
                text@ == t,
                t == source.entered_formula_text@,
                sm == match_models(sorted@),
                sm == sort_by_start(match_models(matches@)),
                spans_fit(sm),
                off@.len() == t.len() + 1,
                forall|k: int| 0 <= k <= t.len() ==> off@[k] == byte_offset(t, k),
                cursor_char <= t.len(),
                off@[cursor_char as int] == cursor,
                char_at_byte(t, cursor as int) == cursor_char,
                accepted_on_boundaries(t, sm, i as int, cursor as int),
                project_from(t, sm, 0, (Seq::empty(), 0, Seq::empty(), Seq::empty()))
                    == project_from(t, sm, i as int, (out@, cursor as int, match_models(accepted@), string_views(diagnostics@))),
            decreases sorted.len() - i,
        {
            let m = sorted[i].duplicate();
            assert(sm[i as int] == sorted@[i as int].model());
            assert(span_end(sm[i as int].source_span) <= usize::MAX);
            let start = m.source_span.start;
            let end = m.source_span.start + m.source_span.len;
            if start < cursor {
                let mut d: Vec<char> = Vec::new();
                push_str(&mut d, "overlapping_host_reference_syntax_match:");
                push_string(&mut d, &m.source_token_text);
                push_str(&mut d, ":");
                push_decimal(&mut d, start as u64);
                push_str(&mut d, "-");
                push_decimal(&mut d, end as u64);
                let ghost before = string_views(diagnostics@);
                diagnostics.push(string_of(&d));
                assert(string_views(diagnostics@) =~= before.push(overlap_diagnostic(sm[i as int])));
            } else {
                let sc = match index_of_offset(&off, start, Ghost(t)) {
                    Some(x) => x,
                    None => vstd::pervasive::unreached(),
                };
                let ec = match index_of_offset(&off, end, Ghost(t)) {
                    Some(x) => x,
                    None => vstd::pervasive::unreached(),
                };
                proof {
                    if sc < cursor_char {
                        lemma_byte_offset_strict(t, sc as int, cursor_char as int);
                    }
                    if ec < sc {
                        lemma_byte_offset_strict(t, ec as int, sc as int);
                    }
                }
                let piece = slice_chars(&text, cursor_char, sc);
                let ghost out0 = out@;
                push_chars(&mut out, &piece);
                let token = m.formal_token_text();
                push_string(&mut out, &token);
                let ghost mm = m.model();
                let ghost acc0 = match_models(accepted@);
                accepted.push(m);
                assert(match_models(accepted@) =~= acc0.push(mm));
                cursor = end;
                cursor_char = ec;
            }
            i = i + 1;
        }
        let stored = source.entered_formula_text.clone();
        if accepted.len() == 0 {
            return RuntimeHostReferenceSyntaxProjection { source: source.duplicate(), matches: accepted, diagnostics };
        }
        let rest = slice_chars(&text, cursor_char, text.len());
        push_chars(&mut out, &rest);
        let mut projected = source.duplicate();
        projected.stored_formula_text = Some(stored);
        projected.entered_formula_text = string_of(&out);
        RuntimeHostReferenceSyntaxProjection { source: projected, matches: accepted, diagnostics }
    }
}


/// Every element satisfies `pred`.
pub open spec fn all_sat(s: Seq<HostSyntaxMatchModel>, pred: spec_fn(HostSyntaxMatchModel) -> bool) -> bool {
    forall|i: int| 0 <= i < s.len() ==> pred(#[trigger] s[i])
}

proof fn lemma_insert_sat(sorted: Seq<HostSyntaxMatchModel>, m: HostSyntaxMatchModel, pred: spec_fn(HostSyntaxMatchModel) -> bool)
    requires
        all_sat(sorted, pred),
        pred(m),
    ensures
        all_sat(insert_by_start(sorted, m), pred),
    decreases sorted.len(),
{
    if sorted.len() > 0 && sorted.last().source_span.start > m.source_span.start {
        assert(all_sat(sorted.drop_last(), pred)) by {
            assert forall|i: int| 0 <= i < sorted.drop_last().len() implies pred(#[trigger] sorted.drop_last()[i]) by {
                assert(sorted.drop_last()[i] == sorted[i]);
            }
        }
        lemma_insert_sat(sorted.drop_last(), m, pred);
        let r = insert_by_start(sorted.drop_last(), m);
        assert(pred(sorted[sorted.len() - 1]));
        assert forall|i: int| 0 <= i < r.push(sorted.last()).len() implies pred(#[trigger] r.push(sorted.last())[i]) by {
            if i < r.len() {
                assert(r.push(sorted.last())[i] == r[i]);
            }
        }
    } else if sorted.len() > 0 {
        assert forall|i: int| 0 <= i < sorted.push(m).len() implies pred(#[trigger] sorted.push(m)[i]) by {
            if i < sorted.len() {
                assert(sorted.push(m)[i] == sorted[i]);
            }
        }
    } else {
        assert(seq![m][0] == m);
    }
}

/// Sorting keeps every element that satisfies `pred`.
pub proof fn lemma_sort_sat(s: Seq<HostSyntaxMatchModel>, pred: spec_fn(HostSyntaxMatchModel) -> bool)
    requires
        all_sat(s, pred),
    ensures
        all_sat(sort_by_start(s), pred),
    decreases s.len(),
{
    if s.len() > 0 {
        assert(all_sat(s.drop_last(), pred)) by {
            assert forall|i: int| 0 <= i < s.drop_last().len() implies pred(#[trigger] s.drop_last()[i]) by {
                assert(s.drop_last()[i] == s[i]);
            }
        }
        lemma_sort_sat(s.drop_last(), pred);
        assert(pred(s[s.len() - 1]));
        lemma_insert_sat(sort_by_start(s.drop_last()), s.last(), pred);
    }
}

/// A match whose span is the byte span of characters of `t`.
pub open spec fn on_text(t: Seq<char>) -> spec_fn(HostSyntaxMatchModel) -> bool {
    |m: HostSyntaxMatchModel| is_boundary(t, m.source_span.start as int) && is_boundary(t, span_end(m.source_span))
        && span_end(m.source_span) <= usize::MAX
}

/// Matches on boundaries project without slicing off a boundary.
pub proof fn lemma_accepted_on_text(t: Seq<char>, sorted: Seq<HostSyntaxMatchModel>, i: int, cursor: int)
    requires
        all_sat(sorted, on_text(t)),
    ensures
        accepted_on_boundaries(t, sorted, i, cursor),
    decreases sorted.len() - i,
{
    if 0 <= i < sorted.len() {
        assert(on_text(t)(sorted[i]));
        lemma_accepted_on_text(t, sorted, i + 1, cursor);
        lemma_accepted_on_text(t, sorted, i + 1, span_end(sorted[i].source_span));
    }
}

/// Matches on the text of a source can be projected onto it.
pub proof fn lemma_projectable(source: FormulaSourceModel, matches: Seq<HostSyntaxMatchModel>)
    requires
        all_sat(matches, on_text(source.entered_formula_text)),
    ensures
        projectable(source, matches),
{
    let t = source.entered_formula_text;
    lemma_sort_sat(matches, on_text(t));
    lemma_accepted_on_text(t, sort_by_start(matches), 0, 0);
    assert forall|i: int| 0 <= i < matches.len() implies span_end(#[trigger] matches[i].source_span) <= usize::MAX by {
        assert(on_text(t)(matches[i]));
    }
}

/// Accepted spans come in order and do not overlap: each ends by the start
/// of the next, and by `cursor`.
pub open spec fn accepted_in_order(acc: Seq<HostSyntaxMatchModel>, cursor: int) -> bool {
    &&& forall|a: int, b: int| 0 <= a < b < acc.len() ==> span_end(#[trigger] acc[a].source_span) <= (#[trigger] acc[b]).source_span.start
    &&& forall|a: int| 0 <= a < acc.len() ==> span_end(#[trigger] acc[a].source_span) <= cursor
}

proof fn lemma_insert_len(sorted: Seq<HostSyntaxMatchModel>, m: HostSyntaxMatchModel)
    ensures
        insert_by_start(sorted, m).len() == sorted.len() + 1,
    decreases sorted.len(),
{
    if sorted.len() > 0 && sorted.last().source_span.start > m.source_span.start {
        lemma_insert_len(sorted.drop_last(), m);
    }
}

proof fn lemma_sort_len(s: Seq<HostSyntaxMatchModel>)
    ensures
        sort_by_start(s).len() == s.len(),
    decreases s.len(),
{
    if s.len() > 0 {
        lemma_sort_len(s.drop_last());
        lemma_insert_len(sort_by_start(s.drop_last()), s.last());
    }
}

proof fn lemma_project_from_in_order(
    t: Seq<char>,
    sorted: Seq<HostSyntaxMatchModel>,
    i: int,
    st: (Seq<char>, int, Seq<HostSyntaxMatchModel>, Seq<Seq<char>>),
)
    requires
        0 <= i <= sorted.len(),
        accepted_in_order(st.2, st.1),
    ensures
        accepted_in_order(project_from(t, sorted, i, st).2, project_from(t, sorted, i, st).1),
        project_from(t, sorted, i, st).2.len() + project_from(t, sorted, i, st).3.len() == st.2.len() + st.3.len() + sorted.len() - i,
    decreases sorted.len() - i,
{
    if i < sorted.len() {
        let m = sorted[i];
        if m.source_span.start < st.1 {
            lemma_project_from_in_order(t, sorted, i + 1, (st.0, st.1, st.2, st.3.push(overlap_diagnostic(m))));
        } else {
            let piece = t.subrange(char_at_byte(t, st.1), char_at_byte(t, m.source_span.start as int));
            let next = (st.0 + piece + formal_token(m.source_span), span_end(m.source_span), st.2.push(m), st.3);
            assert forall|a: int, b: int| 0 <= a < b < next.2.len() implies span_end(#[trigger] next.2[a].source_span) <= (#[trigger] next.2[b]).source_span.start by {
                if b == st.2.len() {
                    assert(next.2[a] == st.2[a]);
                } else {
                    assert(next.2[a] == st.2[a]);
                    assert(next.2[b] == st.2[b]);
                }
            }
            assert forall|a: int| 0 <= a < next.2.len() implies span_end(#[trigger] next.2[a].source_span) <= next.1 by {
                if a < st.2.len() {
                    assert(next.2[a] == st.2[a]);
                }
            }
            lemma_project_from_in_order(t, sorted, i + 1, next);
        }
    }
}

/// Projection never accepts two overlapping matches: the accepted spans
/// come in order, each ending by the start of the next; and every match is
/// either accepted or answered by a diagnostic.
pub proof fn lemma_projection_accepts_disjoint_spans(source: FormulaSourceModel, matches: Seq<HostSyntaxMatchModel>)
    ensures
        forall|a: int, b: int| 0 <= a < b < projection_spec(source, matches).1.len() ==>
            span_end(#[trigger] projection_spec(source, matches).1[a].source_span) <= (#[trigger] projection_spec(source, matches).1[b]).source_span.start,
        projection_spec(source, matches).1.len() + projection_spec(source, matches).2.len() == matches.len(),
{
    let t = source.entered_formula_text;
    let st0 = (Seq::<char>::empty(), 0int, Seq::<HostSyntaxMatchModel>::empty(), Seq::<Seq<char>>::empty());
    lemma_sort_len(matches);
    lemma_project_from_in_order(t, sort_by_start(matches), 0, st0);
}

} // verus!
