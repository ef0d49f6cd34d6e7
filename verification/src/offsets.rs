//! Byte offsets of characters in UTF-8 text: spans in formula text count
//! bytes, while scanners walk characters.

use vstd::prelude::*;

use vstd::utf8::{encode_utf8, has_width_1_encoding, has_width_2_encoding, has_width_3_encoding};

verus! {

/// Number of bytes of a character in UTF-8.
pub open spec fn char_width(c: char) -> nat {
    if has_width_1_encoding(c as u32) {
        1
    } else if has_width_2_encoding(c as u32) {
        2
    } else if has_width_3_encoding(c as u32) {
        3
    } else {
        4
    }
}

/// Number of bytes of a character sequence in UTF-8.
pub open spec fn byte_len(s: Seq<char>) -> nat
    decreases s.len(),
{
    if s.len() == 0 {
        0
    } else {
        char_width(s[0]) + byte_len(s.drop_first())
    }
}

/// Byte offset of the character at index `i`.
pub open spec fn byte_offset(s: Seq<char>, i: int) -> nat {
    byte_len(s.take(i))
}

pub proof fn lemma_byte_len_encoding(s: Seq<char>)
    ensures
        byte_len(s) == encode_utf8(s).len(),
    decreases s.len(),
{
    if s.len() > 0 {
        lemma_byte_len_encoding(s.drop_first());
    }
}

pub proof fn lemma_byte_len_concat(a: Seq<char>, b: Seq<char>)
    ensures
        byte_len(a + b) == byte_len(a) + byte_len(b),
    decreases a.len(),
{
    if a.len() > 0 {
        assert((a + b).drop_first() =~= a.drop_first() + b);
        lemma_byte_len_concat(a.drop_first(), b);
    } else {
        assert(a + b =~= b);
    }
}

/// The offset of `i + 1` is the offset of `i` plus the width of character `i`.
pub proof fn lemma_byte_offset_step(s: Seq<char>, i: int)
    requires
        0 <= i < s.len(),
    ensures
        byte_offset(s, i + 1) == byte_offset(s, i) + char_width(s[i]),
{
    assert(s.take(i + 1) =~= s.take(i) + seq![s[i]]);
    lemma_byte_len_concat(s.take(i), seq![s[i]]);
    assert(seq![s[i]].drop_first() =~= Seq::<char>::empty());
    assert(byte_len(Seq::<char>::empty()) == 0);
    assert(byte_len(seq![s[i]]) == char_width(s[i]) + byte_len(seq![s[i]].drop_first()));
}

/// Offsets grow with the index.
pub proof fn lemma_byte_offset_mono(s: Seq<char>, i: int, j: int)
    requires
        0 <= i <= j <= s.len(),
    ensures
        byte_offset(s, i) <= byte_offset(s, j),
    decreases j - i,
{
    if i < j {
        lemma_byte_offset_step(s, j - 1);
        lemma_byte_offset_mono(s, i, j - 1);
    }
}

/// No offset exceeds the whole length.
pub proof fn lemma_byte_offset_bound(s: Seq<char>, i: int)
    requires
        0 <= i <= s.len(),
    ensures
        byte_offset(s, i) <= byte_len(s),
{
    lemma_byte_offset_mono(s, i, s.len() as int);
    assert(s.take(s.len() as int) =~= s);
}

pub fn char_width_of(c: char) -> (w: usize)
    ensures
        w == char_width(c),
{
    let v = c as u32;
    if v <= 0x7F {
        1
    } else if v <= 0x7FF {
        2
    } else if v <= 0xFFFF {
        3
    } else {
        4
    }
}

/// Byte offsets of every character index of `s`, and of its end.
pub fn byte_offsets(s: &String) -> (r: Vec<usize>)
    ensures
        r@.len() == s@.len() + 1,
        forall|i: int| 0 <= i <= s@.len() ==> r@[i] == byte_offset(s@, i),
        byte_len(s@) <= usize::MAX,
{
    let bytes = s.as_str().as_bytes();
    let _total: usize = bytes.len();
    proof {
        lemma_byte_len_encoding(s@);
    }
    let chars = crate::text::chars_of(s.as_str());
    let mut r: Vec<usize> = Vec::new();
    let mut acc: usize = 0;
    let mut i: usize = 0;
    assert(s@.take(0) =~= Seq::<char>::empty());
    assert(byte_offset(s@, 0) == 0);
    assert(bytes@ == encode_utf8(s@));
    r.push(0);
    while i < chars.len()
        invariant
            chars@ == s@,
            i <= chars@.len(),
            r@.len() == i + 1,
            acc == byte_offset(s@, i as int),
            forall|j: int| 0 <= j <= i ==> r@[j] == byte_offset(s@, j),
            byte_len(s@) == bytes@.len(),
            bytes@.len() <= usize::MAX,
        decreases chars.len() - i,
    {
        proof {
            lemma_byte_offset_step(s@, i as int);
            lemma_byte_offset_bound(s@, i + 1);
        }
        acc = acc + char_width_of(chars[i]);
        i = i + 1;
        r.push(acc);
    }
    r
}

/// A string's UTF-8 length fits in a `usize`.
pub fn byte_len_fits(s: &String)
    ensures
        byte_len(s@) <= usize::MAX,
{
    let bytes = s.as_str().as_bytes();
    let _total: usize = bytes.len();
    proof { lemma_byte_len_encoding(s@); }
}

} // verus!
