//! Summaries of metadata versions: the distinct versions a prepared formula
//! saw, in order, folded into one version string.

use vstd::prelude::*;

use crate::text::{char_vecs, chars_eq, chars_of, join, join_char_vecs, push_chars, push_str, string_of, string_views};

verus! {

/// Strict lexicographic order of character sequences by code point. This
/// is the order of `String`'s `Ord`: it compares UTF-8 bytes, and UTF-8
/// keeps the order of code points.
pub open spec fn lex_lt(a: Seq<char>, b: Seq<char>) -> bool
    decreases a.len(),
{
    if a.len() == 0 {
        b.len() > 0
    } else if b.len() == 0 {
        false
    } else if a[0] < b[0] {
        true
    } else if a[0] == b[0] {
        lex_lt(a.drop_first(), b.drop_first())
    } else {
        false
    }
}

pub proof fn lemma_lex_irreflexive(a: Seq<char>)
    ensures
        !lex_lt(a, a),
    decreases a.len(),
{
    if a.len() > 0 {
        lemma_lex_irreflexive(a.drop_first());
    }
}

pub proof fn lemma_lex_transitive(a: Seq<char>, b: Seq<char>, c: Seq<char>)
    requires
        lex_lt(a, b),
        lex_lt(b, c),
    ensures
        lex_lt(a, c),
    decreases a.len(),
{
    if a.len() > 0 && b.len() > 0 && c.len() > 0 && a[0] == b[0] && b[0] == c[0] {
        lemma_lex_transitive(a.drop_first(), b.drop_first(), c.drop_first());
    }
}

pub proof fn lemma_lex_total(a: Seq<char>, b: Seq<char>)
    requires
        a != b,
    ensures
        lex_lt(a, b) || lex_lt(b, a),
    decreases a.len(),
{
    if a.len() == 0 && b.len() == 0 {
        assert(a =~= b);
    } else if a.len() > 0 && b.len() > 0 {
        if a[0] == b[0] {
            if a.drop_first() == b.drop_first() {
                assert(a =~= seq![a[0]] + a.drop_first());
                assert(b =~= seq![b[0]] + b.drop_first());
                assert(a == b);
            } else {
                lemma_lex_total(a.drop_first(), b.drop_first());
            }
        }
    }
}

/// The elements of `u` rise strictly.
pub open spec fn strictly_sorted(u: Seq<Seq<char>>) -> bool {
    forall|i: int, j: int| 0 <= i < j < u.len() ==> lex_lt(#[trigger] u[i], #[trigger] u[j])
}

/// The distinct elements of `v` in rising order.
pub open spec fn sorted_distinct(v: Seq<Seq<char>>) -> Seq<Seq<char>> {
    choose|u: Seq<Seq<char>>| strictly_sorted(u) && u.to_set() == v.to_set()
}

/// Two rising listings of one set are the same listing.
pub proof fn lemma_sorted_unique(u: Seq<Seq<char>>, w: Seq<Seq<char>>)
    requires
        strictly_sorted(u),
        strictly_sorted(w),
        u.to_set() == w.to_set(),
    ensures
        u == w,
    decreases u.len(),
{
    if u.len() == 0 {
        if w.len() > 0 {
            assert(w.to_set().contains(w[0]));
        }
        assert(u =~= w);
    } else {
        assert(u.to_set().contains(u[0]));
        assert(w.len() > 0);
        assert(w.to_set().contains(w[0]));
        let k = choose|k: int| 0 <= k < w.len() && w[k] == u[0];
        let m = choose|m: int| 0 <= m < u.len() && u[m] == w[0];
        if k > 0 {
            assert(lex_lt(w[0], w[k]));
            if m == 0 {
                lemma_lex_irreflexive(u[0]);
            } else {
                assert(lex_lt(u[0], u[m]));
                lemma_lex_transitive(u[0], u[m], u[0]);
                lemma_lex_irreflexive(u[0]);
            }
        }
        assert(w[0] == u[0]);
        let u1 = u.drop_first();
        let w1 = w.drop_first();
        assert forall|x: Seq<char>| u1.to_set().contains(x) <==> w1.to_set().contains(x) by {
            if u1.to_set().contains(x) {
                let i = choose|i: int| 0 <= i < u1.len() && u1[i] == x;
                assert(u[i + 1] == x);
                assert(lex_lt(u[0], u[i + 1]));
                lemma_lex_irreflexive(x);
                assert(u.to_set().contains(x));
                assert(w.to_set().contains(x));
                let j = choose|j: int| 0 <= j < w.len() && w[j] == x;
                assert(j != 0);
                assert(w1[j - 1] == x);
            }
            if w1.to_set().contains(x) {
                let i = choose|i: int| 0 <= i < w1.len() && w1[i] == x;
                assert(w[i + 1] == x);
                assert(lex_lt(w[0], w[i + 1]));
                lemma_lex_irreflexive(x);
                assert(w.to_set().contains(x));
                assert(u.to_set().contains(x));
                let j = choose|j: int| 0 <= j < u.len() && u[j] == x;
                assert(j != 0);
                assert(u1[j - 1] == x);
            }
        }
        assert(u1.to_set() =~= w1.to_set());
        lemma_sorted_unique(u1, w1);
        assert(u =~= seq![u[0]] + u1);
        assert(w =~= seq![w[0]] + w1);
    }
}

/// `a` and `b` compare as `lex_lt`.
fn chars_lex_lt(a: &[char], b: &[char]) -> (r: bool)
    ensures
        r == lex_lt(a@, b@),
{
    let mut i: usize = 0;
    assert(a@.skip(0) =~= a@);
    assert(b@.skip(0) =~= b@);
    while i < a.len() && i < b.len() && a[i] == b[i]
        invariant
            i <= a@.len(),
            i <= b@.len(),
            forall|j: int| 0 <= j < i ==> a@[j] == b@[j],
            lex_lt(a@, b@) == lex_lt(a@.skip(i as int), b@.skip(i as int)),
        decreases a.len() - i,
    {
        assert(a@.skip(i + 1) =~= a@.skip(i as int).drop_first());
        assert(b@.skip(i + 1) =~= b@.skip(i as int).drop_first());
        i = i + 1;
    }
    if i == a.len() {
        i < b.len()
    } else if i == b.len() {
        false
    } else {
        assert(a@.skip(i as int)[0] == a@[i as int]);
        assert(b@.skip(i as int)[0] == b@[i as int]);
        a[i] < b[i]
    }
}

/// The distinct `versions` in rising order.
pub fn sorted_distinct_strings(versions: &Vec<String>) -> (r: Vec<Vec<char>>)
    ensures
        strictly_sorted(char_vecs(r@)),
        char_vecs(r@).to_set() == string_views(versions@).to_set(),
{
    let mut out: Vec<Vec<char>> = Vec::new();
    let mut i: usize = 0;
    assert(char_vecs(out@).to_set() =~= string_views(versions@.take(0)).to_set());
    while i < versions.len()
        invariant
            i <= versions@.len(),
            strictly_sorted(char_vecs(out@)),
            char_vecs(out@).to_set() == string_views(versions@.take(i as int)).to_set(),
        decreases versions.len() - i,
    {
        let x = chars_of(versions[i].as_str());
        let ghost u = char_vecs(out@);
        let mut j: usize = 0;
        while j < out.len() && chars_lex_lt(&out[j], &x)
            invariant
                j <= out@.len(),
                u == char_vecs(out@),
                forall|k: int| 0 <= k < j ==> lex_lt(#[trigger] u[k], x@),
            decreases out.len() - j,
        {
            j = j + 1;
        }
        assert(string_views(versions@.take(i + 1)) =~= string_views(versions@.take(i as int)).push(x@));
        proof {
            string_views(versions@.take(i as int)).lemma_push_to_set_commute(x@);
        }
        if j < out.len() && chars_eq(&out[j], &x) {
            assert(u[j as int] == x@);
            assert(u.contains(x@));
            assert(u.to_set().contains(x@));
            assert(char_vecs(out@).to_set() =~= string_views(versions@.take(i + 1)).to_set());
        } else {
            proof {
                if j < u.len() {
                    assert(!lex_lt(u[j as int], x@));
                    assert(u[j as int] != x@);
                    lemma_lex_total(u[j as int], x@);
                }
            }
            out.insert(j, x);
            let ghost w = char_vecs(out@);
            assert(w =~= u.insert(j as int, x@));
            assert forall|a: int, b: int| 0 <= a < b < w.len() implies lex_lt(#[trigger] w[a], #[trigger] w[b]) by {
                if b < j {
                } else if b == j {
                    assert(w[a] == u[a]);
                } else if a == j {
                    assert(w[b] == u[b - 1]);
                    if b - 1 > j {
                        assert(lex_lt(u[j as int], u[b - 1]));
                        lemma_lex_transitive(x@, u[j as int], u[b - 1]);
                    }
                } else if a < j {
                    assert(w[a] == u[a]);
                    assert(w[b] == u[b - 1]);
                } else {
                    assert(w[a] == u[a - 1]);
                    assert(w[b] == u[b - 1]);
                }
            }
            assert forall|y: Seq<char>| w.to_set().contains(y) <==> u.to_set().insert(x@).contains(y) by {
                if w.to_set().contains(y) {
                    let k = choose|k: int| 0 <= k < w.len() && w[k] == y;
                    if k < j {
                        assert(u[k] == y);
                    } else if k > j {
                        assert(u[k - 1] == y);
                    }
                }
                if u.to_set().contains(y) {
                    let k = choose|k: int| 0 <= k < u.len() && u[k] == y;
                    if k < j {
                        assert(w[k] == y);
                    } else {
                        assert(w[k + 1] == y);
                    }
                }
                if y == x@ {
                    assert(w[j as int] == y);
                }
            }
            assert(w.to_set() =~= string_views(versions@.take(i + 1)).to_set());
        }
        i = i + 1;
    }
    assert(versions@.take(versions@.len() as int) =~= versions@);
    out
}

/// The summary of a family of metadata versions: none when there is no
/// version, the version itself when all agree, and otherwise the family's
/// set marker followed by the distinct versions in order, joined by `|`.
pub open spec fn version_summary_spec(versions: Seq<Seq<char>>, family: Seq<char>) -> Option<Seq<char>> {
    let u = sorted_distinct(versions);
    if u.len() == 0 {
        None
    } else if u.len() == 1 {
        Some(u[0])
    } else {
        Some(family + ".set.v1;"@ + join(u, "|"@))
    }
}

pub fn runtime_metadata_version_summary(versions: Vec<String>, version_family: &str) -> (r: Option<String>)
    ensures
        match r {
            Some(s) => version_summary_spec(string_views(versions@), version_family@) == Some(s@),
            None => version_summary_spec(string_views(versions@), version_family@) is None,
        },
{
    let sorted = sorted_distinct_strings(&versions);
    proof {
        let u = char_vecs(sorted@);
        let v = string_views(versions@);
        assert(strictly_sorted(u) && u.to_set() == v.to_set());
        lemma_sorted_unique(u, sorted_distinct(v));
    }
    if sorted.len() == 0 {
        None
    } else if sorted.len() == 1 {
        Some(string_of(&sorted[0]))
    } else {
        let mut out: Vec<char> = chars_of(version_family);
        push_str(&mut out, ".set.v1;");
        let joined = join_char_vecs(&sorted, "|");
        push_chars(&mut out, &joined);
        Some(string_of(&out))
    }
}

/// A version summary depends only on which versions occur: neither their
/// order nor their repetitions change it.
pub proof fn lemma_version_summary_depends_on_set(v: Seq<Seq<char>>, w: Seq<Seq<char>>, family: Seq<char>)
    requires
        v.to_set() == w.to_set(),
    ensures
        version_summary_spec(v, family) == version_summary_spec(w, family),
{
}

} // verus!
