//! Character classification, case folding and decimal conversions on
//! character sequences, the building blocks of every reference parser.

use vstd::prelude::*;

verus! {

/// `c` is an ASCII letter.
pub open spec fn is_alpha(c: char) -> bool {
    ('a' <= c && c <= 'z') || ('A' <= c && c <= 'Z')
}

/// `c` is an ASCII decimal digit.
pub open spec fn is_digit(c: char) -> bool {
    '0' <= c && c <= '9'
}

/// `c` is an ASCII letter or digit.
pub open spec fn is_alnum(c: char) -> bool {
    is_alpha(c) || is_digit(c)
}

/// ASCII upper-casing of one character; other characters are unchanged.
pub open spec fn upper_char(c: char) -> char {
    if 'a' <= c && c <= 'z' {
        ((c as u32) - 32) as char
    } else {
        c
    }
}

/// ASCII lower-casing of one character; other characters are unchanged.
pub open spec fn lower_char(c: char) -> char {
    if 'A' <= c && c <= 'Z' {
        ((c as u32) + 32) as char
    } else {
        c
    }
}

/// ASCII upper-casing of a whole sequence.
pub open spec fn upper_seq(s: Seq<char>) -> Seq<char> {
    s.map_values(|c: char| upper_char(c))
}

/// ASCII lower-casing of a whole sequence.
pub open spec fn lower_seq(s: Seq<char>) -> Seq<char> {
    s.map_values(|c: char| lower_char(c))
}

/// Two sequences are equal up to ASCII case.
pub open spec fn eq_ignore_case(a: Seq<char>, b: Seq<char>) -> bool {
    a.len() == b.len() && forall|i: int| 0 <= i < a.len() ==> upper_char(#[trigger] a[i]) == upper_char(b[i])
}

/// Every character of `s` is an ASCII digit.
pub open spec fn all_digits(s: Seq<char>) -> bool {
    forall|i: int| 0 <= i < s.len() ==> is_digit(#[trigger] s[i])
}

/// Every character of `s` is an ASCII letter.
pub open spec fn all_alpha(s: Seq<char>) -> bool {
    forall|i: int| 0 <= i < s.len() ==> is_alpha(#[trigger] s[i])
}

/// Numeric value of one decimal digit character.
pub open spec fn digit_value(c: char) -> nat {
    ((c as u32) - ('0' as u32)) as nat
}

/// Value of a digit string read in base ten.
pub open spec fn decimal_value(s: Seq<char>) -> nat
    decreases s.len(),
{
    if s.len() == 0 {
        0
    } else {
        decimal_value(s.drop_last()) * 10 + digit_value(s.last())
    }
}

/// The text with one leading `+` removed, if there is one.
pub open spec fn without_plus(s: Seq<char>) -> Seq<char> {
    if s.len() > 0 && s[0] == '+' {
        s.drop_first()
    } else {
        s
    }
}

/// What `str::parse::<u32>` gives: an optional `+`, then at least one digit,
/// and a value that fits in 32 bits.
pub open spec fn parse_u32_spec(s: Seq<char>) -> Option<u32> {
    let body = without_plus(s);
    if body.len() > 0 && all_digits(body) && decimal_value(body) <= u32::MAX {
        Some(decimal_value(body) as u32)
    } else {
        None
    }
}

/// What `str::parse::<i32>` gives: an optional sign, at least one digit,
/// and a value inside the 32-bit signed range.
pub open spec fn parse_i32_spec(s: Seq<char>) -> Option<i32> {
    if s.len() > 0 && s[0] == '-' {
        let body = s.drop_first();
        if body.len() > 0 && all_digits(body) && decimal_value(body) <= 0x8000_0000 {
            Some((0 - decimal_value(body)) as i32)
        } else {
            None
        }
    } else {
        let body = without_plus(s);
        if body.len() > 0 && all_digits(body) && decimal_value(body) <= i32::MAX {
            Some(decimal_value(body) as i32)
        } else {
            None
        }
    }
}

/// Character of a single decimal digit value.
pub open spec fn digit_char(d: nat) -> char {
    (('0' as u32) + d) as char
}

/// Shortest base-ten rendering of `n`.
pub open spec fn decimal(n: nat) -> Seq<char>
    decreases n,
{
    if n < 10 {
        seq![digit_char(n)]
    } else {
        decimal(n / 10).push(digit_char(n % 10))
    }
}

pub fn char_is_alpha(c: char) -> (r: bool)
    ensures
        r == is_alpha(c),
{
    ('a' <= c && c <= 'z') || ('A' <= c && c <= 'Z')
}

pub fn char_is_digit(c: char) -> (r: bool)
    ensures
        r == is_digit(c),
{
    '0' <= c && c <= '9'
}

pub fn char_is_alnum(c: char) -> (r: bool)
    ensures
        r == is_alnum(c),
{
    char_is_alpha(c) || char_is_digit(c)
}

pub fn char_to_upper(c: char) -> (r: char)
    ensures
        r == upper_char(c),
{
    if 'a' <= c && c <= 'z' {
        let b: u8 = (c as u32 - 32) as u8;
        b as char
    } else {
        c
    }
}

pub fn char_to_lower(c: char) -> (r: char)
    ensures
        r == lower_char(c),
{
    if 'A' <= c && c <= 'Z' {
        let b: u8 = (c as u32 + 32) as u8;
        b as char
    } else {
        c
    }
}

/// `String::push` appends one character, as std documents.
pub assume_specification[ std::string::String::push ](target: &mut std::string::String, ch: char)
    ensures
        final(target)@ == old(target)@.push(ch),
;

/// The characters of a string slice.
pub fn chars_of(s: &str) -> (r: Vec<char>)
    ensures
        r@ == s@,
{
    broadcast use vstd::string::axiom_spec_iter;
    let mut v: Vec<char> = Vec::new();
    for c in it: s.chars()
        invariant
            v@ == it.seq().take(it.index() as int),
    {
        v.push(c);
    }
    v
}

/// A string holding exactly the given characters.
pub fn string_of(v: &[char]) -> (r: String)
    ensures
        r@ == v@,
{
    let mut s = String::new();
    let mut i: usize = 0;
    while i < v.len()
        invariant
            i <= v@.len(),
            s@ == v@.take(i as int),
        decreases v.len() - i,
    {
        s.push(v[i]);
        i = i + 1;
        assert(v@.take(i as int) =~= v@.take(i - 1).push(v@[i - 1]));
    }
    assert(v@.take(v@.len() as int) =~= v@);
    s
}

/// A copy of a string.
pub fn copy_string(s: &String) -> (r: String)
    ensures
        r@ == s@,
{
    s.clone()
}

/// Characters `s[from..to]` as a new vector.
pub fn slice_chars(s: &[char], from: usize, to: usize) -> (r: Vec<char>)
    requires
        from <= to <= s@.len(),
    ensures
        r@ == s@.subrange(from as int, to as int),
{
    let mut r: Vec<char> = Vec::new();
    let mut i = from;
    while i < to
        invariant
            from <= i <= to <= s@.len(),
            r@ == s@.subrange(from as int, i as int),
        decreases to - i,
    {
        r.push(s[i]);
        i = i + 1;
    }
    r
}

/// Concatenation of two character slices.
pub fn concat_chars(a: &[char], b: &[char]) -> (r: Vec<char>)
    ensures
        r@ == a@ + b@,
{
    let mut r = slice_chars(a, 0, a.len());
    let mut i: usize = 0;
    while i < b.len()
        invariant
            i <= b@.len(),
            r@ == a@ + b@.subrange(0, i as int),
        decreases b.len() - i,
    {
        r.push(b[i]);
        i = i + 1;
    }
    r
}

/// ASCII upper-casing of every character.
pub fn to_upper(s: &[char]) -> (r: Vec<char>)
    ensures
        r@ == upper_seq(s@),
{
    let mut r: Vec<char> = Vec::new();
    let mut i: usize = 0;
    while i < s.len()
        invariant
            i <= s@.len(),
            r@ == upper_seq(s@.subrange(0, i as int)),
        decreases s.len() - i,
    {
        r.push(char_to_upper(s[i]));
        i = i + 1;
        assert(upper_seq(s@.subrange(0, i as int)) =~= upper_seq(s@.subrange(0, i - 1)).push(upper_char(s@[i - 1])));
    }
    assert(s@.subrange(0, s@.len() as int) =~= s@);
    r
}

/// ASCII lower-casing of every character.
pub fn to_lower(s: &[char]) -> (r: Vec<char>)
    ensures
        r@ == lower_seq(s@),
{
    let mut r: Vec<char> = Vec::new();
    let mut i: usize = 0;
    while i < s.len()
        invariant
            i <= s@.len(),
            r@ == lower_seq(s@.subrange(0, i as int)),
        decreases s.len() - i,
    {
        r.push(char_to_lower(s[i]));
        i = i + 1;
        assert(lower_seq(s@.subrange(0, i as int)) =~= lower_seq(s@.subrange(0, i - 1)).push(lower_char(s@[i - 1])));
    }
    assert(s@.subrange(0, s@.len() as int) =~= s@);
    r
}

/// Character-sequence equality.
pub fn chars_eq(a: &[char], b: &[char]) -> (r: bool)
    ensures
        r == (a@ == b@),
{
    if a.len() != b.len() {
        return false;
    }
    let mut i: usize = 0;
    while i < a.len()
        invariant
            a@.len() == b@.len(),
            i <= a@.len(),
            forall|j: int| 0 <= j < i ==> a@[j] == b@[j],
        decreases a.len() - i,
    {
        if a[i] != b[i] {
            return false;
        }
        i = i + 1;
    }
    assert(a@ =~= b@);
    true
}

/// Equality up to ASCII case, as `str::eq_ignore_ascii_case`.
pub fn chars_eq_ignore_case(a: &[char], b: &[char]) -> (r: bool)
    ensures
        r == eq_ignore_case(a@, b@),
{
    if a.len() != b.len() {
        return false;
    }
    let mut i: usize = 0;
    while i < a.len()
        invariant
            a@.len() == b@.len(),
            i <= a@.len(),
            forall|j: int| 0 <= j < i ==> upper_char(#[trigger] a@[j]) == upper_char(b@[j]),
        decreases a.len() - i,
    {
        if char_to_upper(a[i]) != char_to_upper(b[i]) {
            return false;
        }
        i = i + 1;
    }
    true
}

/// Whether `prefix` begins `s` at position `at`.
pub open spec fn has_at(s: Seq<char>, at: int, p: Seq<char>) -> bool {
    0 <= at && at + p.len() <= s.len() && s.subrange(at, at + p.len()) == p
}

/// Whether `p` occurs in `s` at position `at`.
pub fn chars_have_at(s: &[char], at: usize, p: &[char]) -> (r: bool)
    ensures
        r == has_at(s@, at as int, p@),
{
    if at > s.len() || p.len() > s.len() - at {
        return false;
    }
    let mut i: usize = 0;
    while i < p.len()
        invariant
            at + p@.len() <= s@.len(),
            s@.len() <= usize::MAX,
            i <= p@.len(),
            forall|j: int| 0 <= j < i ==> s@[at + j] == p@[j],
        decreases p.len() - i,
    {
        if s[at + i] != p[i] {
            assert(s@.subrange(at as int, at + p@.len())[i as int] != p@[i as int]);
            return false;
        }
        i = i + 1;
    }
    assert(s@.subrange(at as int, at + p@.len()) =~= p@);
    true
}

/// Index of the first occurrence of `c`, if any.
pub open spec fn first_index_of(s: Seq<char>, c: char) -> Option<int>
    decreases s.len(),
{
    if s.len() == 0 {
        None
    } else if s[0] == c {
        Some(0)
    } else {
        match first_index_of(s.drop_first(), c) {
            Some(i) => Some(i + 1),
            None => None,
        }
    }
}

pub proof fn lemma_first_index_of(s: Seq<char>, c: char)
    ensures
        first_index_of(s, c) matches Some(i) ==> 0 <= i < s.len() && s[i] == c && forall|j: int| 0 <= j < i ==> s[j] != c,
        first_index_of(s, c) is None ==> forall|j: int| 0 <= j < s.len() ==> s[j] != c,
    decreases s.len(),
{
    if s.len() > 0 {
        lemma_first_index_of(s.drop_first(), c);
        if s[0] != c {
            assert forall|j: int| 1 <= j < s.len() implies s[j] == s.drop_first()[j - 1] by {}
        }
    }
}

pub proof fn lemma_first_index_at(s: Seq<char>, c: char, i: int)
    requires
        0 <= i < s.len(),
        s[i] == c,
        forall|j: int| 0 <= j < i ==> s[j] != c,
    ensures
        first_index_of(s, c) == Some(i),
    decreases i,
{
    if i > 0 {
        assert forall|j: int| 0 <= j < i - 1 implies s.drop_first()[j] != c by {
            assert(s.drop_first()[j] == s[j + 1]);
        }
        lemma_first_index_at(s.drop_first(), c, i - 1);
    }
}

/// Position of the first `c` in `s`, as `str::find` with a character.
pub fn find_char(s: &[char], c: char) -> (r: Option<usize>)
    ensures
        r matches Some(i) ==> first_index_of(s@, c) == Some(i as int) && i < s@.len() && s@[i as int] == c,
        r is None ==> first_index_of(s@, c) is None,
{
    proof { lemma_first_index_of(s@, c); }
    let mut i: usize = 0;
    while i < s.len()
        invariant
            i <= s@.len(),
            forall|j: int| 0 <= j < i ==> s@[j] != c,
        decreases s.len() - i,
    {
        if s[i] == c {
            proof { lemma_first_index_at(s@, c, i as int); }
            return Some(i);
        }
        i = i + 1;
    }
    proof {
        if first_index_of(s@, c) is Some {
            let k = first_index_of(s@, c)->0;
            assert(s@[k] == c);
        }
    }
    None
}

pub proof fn lemma_decimal_value_prefix_le(s: Seq<char>, i: int)
    requires
        0 <= i <= s.len(),
    ensures
        decimal_value(s.subrange(0, i)) <= decimal_value(s),
    decreases s.len(),
{
    if i < s.len() {
        assert(s.drop_last() =~= s.subrange(0, s.len() - 1));
        assert(s.subrange(0, i) =~= s.drop_last().subrange(0, i));
        lemma_decimal_value_prefix_le(s.drop_last(), i);
    } else {
        assert(s.subrange(0, i) =~= s);
    }
}

/// Reads a run of digits as a base-ten number, refusing values above `limit`.
pub fn decimal_value_upto(s: &[char], limit: u64) -> (r: Option<u64>)
    requires
        all_digits(s@),
    ensures
        r matches Some(v) ==> v == decimal_value(s@) && v <= limit,
        r is None ==> decimal_value(s@) > limit,
{
    let mut acc: u64 = 0;
    let mut i: usize = 0;
    while i < s.len()
        invariant
            all_digits(s@),
            i <= s@.len(),
            acc == decimal_value(s@.subrange(0, i as int)),
            acc <= limit,
        decreases s.len() - i,
    {
        let d: u32 = s[i] as u32 - '0' as u32;
        assert(is_digit(s@[i as int]));
        assert(s@.subrange(0, i + 1).drop_last() =~= s@.subrange(0, i as int));
        let next: u128 = (acc as u128) * 10 + (d as u128);
        assert(next == decimal_value(s@.subrange(0, i + 1)));
        if next > limit as u128 {
            proof { lemma_decimal_value_prefix_le(s@, i + 1); }
            return None;
        }
        acc = next as u64;
        i = i + 1;
    }
    assert(s@.subrange(0, s@.len() as int) =~= s@);
    Some(acc)
}


/// All characters of `s` are ASCII digits.
pub fn chars_all_digits(s: &[char]) -> (r: bool)
    ensures
        r == all_digits(s@),
{
    let mut i: usize = 0;
    while i < s.len()
        invariant
            i <= s@.len(),
            forall|j: int| 0 <= j < i ==> is_digit(#[trigger] s@[j]),
        decreases s.len() - i,
    {
        if !char_is_digit(s[i]) {
            return false;
        }
        i = i + 1;
    }
    true
}

/// All characters of `s` are ASCII letters.
pub fn chars_all_alpha(s: &[char]) -> (r: bool)
    ensures
        r == all_alpha(s@),
{
    let mut i: usize = 0;
    while i < s.len()
        invariant
            i <= s@.len(),
            forall|j: int| 0 <= j < i ==> is_alpha(#[trigger] s@[j]),
        decreases s.len() - i,
    {
        if !char_is_alpha(s[i]) {
            return false;
        }
        i = i + 1;
    }
    true
}

/// Decimal parsing with the rules of `str::parse::<u32>`.
pub fn parse_u32(s: &[char]) -> (r: Option<u32>)
    ensures
        r == parse_u32_spec(s@),
{
    let start: usize = if s.len() > 0 && s[0] == '+' { 1 } else { 0 };
    let body = slice_chars(s, start, s.len());
    assert(body@ =~= without_plus(s@));
    if body.len() == 0 || !chars_all_digits(&body) {
        return None;
    }
    match decimal_value_upto(&body, 0xFFFF_FFFF) {
        Some(v) => Some(v as u32),
        None => None,
    }
}

/// Decimal parsing with the rules of `str::parse::<i32>`.
pub fn parse_i32(s: &[char]) -> (r: Option<i32>)
    ensures
        r == parse_i32_spec(s@),
{
    if s.len() > 0 && s[0] == '-' {
        let body = slice_chars(s, 1, s.len());
        assert(body@ =~= s@.drop_first());
        if body.len() == 0 || !chars_all_digits(&body) {
            return None;
        }
        match decimal_value_upto(&body, 0x8000_0000) {
            Some(v) => {
                let w: i64 = 0 - (v as i64);
                Some(w as i32)
            }
            None => None,
        }
    } else {
        let start: usize = if s.len() > 0 && s[0] == '+' { 1 } else { 0 };
        let body = slice_chars(s, start, s.len());
        assert(body@ =~= without_plus(s@));
        if body.len() == 0 || !chars_all_digits(&body) {
            return None;
        }
        match decimal_value_upto(&body, 0x7FFF_FFFF) {
            Some(v) => Some(v as i32),
            None => None,
        }
    }
}

/// Character of one decimal digit.
pub fn digit_to_char(d: u64) -> (r: char)
    requires
        d < 10,
    ensures
        r == digit_char(d as nat),
{
    let b: u8 = (d as u8) + 48;
    b as char
}

/// Shortest base-ten rendering of a number.
pub fn decimal_chars(n: u64) -> (r: Vec<char>)
    ensures
        r@ == decimal(n as nat),
    decreases n,
{
    if n < 10 {
        let mut v: Vec<char> = Vec::new();
        v.push(digit_to_char(n));
        assert(v@ =~= seq![digit_char(n as nat)]);
        v
    } else {
        let mut v = decimal_chars(n / 10);
        v.push(digit_to_char(n % 10));
        v
    }
}


/// Appends the characters of `s`.
pub fn push_str(v: &mut Vec<char>, s: &str)
    ensures
        final(v)@ == old(v)@ + s@,
{
    let cs = chars_of(s);
    push_chars(v, &cs);
}

/// Appends the characters of `s`.
pub fn push_chars(v: &mut Vec<char>, s: &[char])
    ensures
        final(v)@ == old(v)@ + s@,
{
    let ghost start = v@;
    let mut i: usize = 0;
    while i < s.len()
        invariant
            i <= s@.len(),
            v@ == start + s@.subrange(0, i as int),
        decreases s.len() - i,
    {
        v.push(s[i]);
        i = i + 1;
    }
    assert(s@.subrange(0, s@.len() as int) =~= s@);
}

/// Appends the characters of a string.
pub fn push_string(v: &mut Vec<char>, s: &String)
    ensures
        final(v)@ == old(v)@ + s@,
{
    push_str(v, s.as_str());
}

/// Appends the decimal rendering of `n`.
pub fn push_decimal(v: &mut Vec<char>, n: u64)
    ensures
        final(v)@ == old(v)@ + decimal(n as nat),
{
    let d = decimal_chars(n);
    push_chars(v, &d);
}

/// The pieces of `parts` with `sep` between consecutive ones.
pub open spec fn join(parts: Seq<Seq<char>>, sep: Seq<char>) -> Seq<char>
    decreases parts.len(),
{
    if parts.len() == 0 {
        seq![]
    } else if parts.len() == 1 {
        parts[0]
    } else {
        join(parts.drop_last(), sep) + sep + parts.last()
    }
}

/// `parts.join(sep)` for character vectors.
pub fn join_char_vecs(parts: &Vec<Vec<char>>, sep: &str) -> (r: Vec<char>)
    ensures
        r@ == join(char_vecs(parts@), sep@),
{
    let mut r: Vec<char> = Vec::new();
    let mut i: usize = 0;
    while i < parts.len()
        invariant
            i <= parts@.len(),
            r@ == join(char_vecs(parts@.subrange(0, i as int)), sep@),
        decreases parts.len() - i,
    {
        let ghost prev = char_vecs(parts@.subrange(0, i as int));
        if i > 0 {
            push_str(&mut r, sep);
        }
        push_chars(&mut r, &parts[i]);
        i = i + 1;
        proof {
            let cur = char_vecs(parts@.subrange(0, i as int));
            assert(cur.drop_last() =~= prev);
            assert(cur.last() == parts@[i - 1]@);
            if i == 1 {
                assert(prev.len() == 0);
                assert(r@ =~= cur[0]);
            }
        }
    }
    assert(parts@.subrange(0, parts@.len() as int) =~= parts@);
    r
}

/// Views of a vector of strings.
pub open spec fn string_views(v: Seq<String>) -> Seq<Seq<char>> {
    v.map_values(|s: String| s@)
}

/// `parts.join(sep)` for strings.
pub fn join_strings(parts: &Vec<String>, sep: &str) -> (r: Vec<char>)
    ensures
        r@ == join(string_views(parts@), sep@),
{
    let mut r: Vec<char> = Vec::new();
    let mut i: usize = 0;
    while i < parts.len()
        invariant
            i <= parts@.len(),
            r@ == join(string_views(parts@.subrange(0, i as int)), sep@),
        decreases parts.len() - i,
    {
        let ghost prev = string_views(parts@.subrange(0, i as int));
        if i > 0 {
            push_str(&mut r, sep);
        }
        push_string(&mut r, &parts[i]);
        i = i + 1;
        proof {
            let cur = string_views(parts@.subrange(0, i as int));
            assert(cur.drop_last() =~= prev);
            assert(cur.last() == parts@[i - 1]@);
            if i == 1 {
                assert(prev.len() == 0);
                assert(r@ =~= cur[0]);
            }
        }
    }
    assert(parts@.subrange(0, parts@.len() as int) =~= parts@);
    r
}


/// The Unicode `White_Space` property, which `char::is_whitespace` tests.
pub open spec fn is_ws(c: char) -> bool {
    let u = c as u32;
    (0x09 <= u && u <= 0x0D) || u == 0x20 || u == 0x85 || u == 0xA0 || u == 0x1680
        || (0x2000 <= u && u <= 0x200A) || u == 0x2028 || u == 0x2029 || u == 0x202F
        || u == 0x205F || u == 0x3000
}

pub fn char_is_ws(c: char) -> (r: bool)
    ensures
        r == is_ws(c),
{
    let u = c as u32;
    (0x09 <= u && u <= 0x0D) || u == 0x20 || u == 0x85 || u == 0xA0 || u == 0x1680
        || (0x2000 <= u && u <= 0x200A) || u == 0x2028 || u == 0x2029 || u == 0x202F
        || u == 0x205F || u == 0x3000
}

/// Number of leading whitespace characters.
pub open spec fn lead_ws(s: Seq<char>) -> nat
    decreases s.len(),
{
    if s.len() > 0 && is_ws(s[0]) {
        1 + lead_ws(s.drop_first())
    } else {
        0
    }
}

/// Number of trailing whitespace characters.
pub open spec fn trail_ws(s: Seq<char>) -> nat
    decreases s.len(),
{
    if s.len() > 0 && is_ws(s.last()) {
        1 + trail_ws(s.drop_last())
    } else {
        0
    }
}

/// `s` without leading whitespace, as `str::trim_start`.
pub open spec fn trim_start(s: Seq<char>) -> Seq<char> {
    s.subrange(lead_ws(s) as int, s.len() as int)
}

/// `s` without trailing whitespace, as `str::trim_end`.
pub open spec fn trim_end(s: Seq<char>) -> Seq<char> {
    s.subrange(0, s.len() - trail_ws(s))
}

/// `s` without surrounding whitespace, as `str::trim`.
pub open spec fn trim(s: Seq<char>) -> Seq<char> {
    trim_end(trim_start(s))
}

pub proof fn lemma_lead_ws(s: Seq<char>, k: int)
    requires
        0 <= k <= s.len(),
        forall|j: int| 0 <= j < k ==> is_ws(#[trigger] s[j]),
        k == s.len() || !is_ws(s[k]),
    ensures
        lead_ws(s) == k,
    decreases k,
{
    if k > 0 {
        assert forall|j: int| 0 <= j < k - 1 implies is_ws(#[trigger] s.drop_first()[j]) by {
            assert(s.drop_first()[j] == s[j + 1]);
        }
        lemma_lead_ws(s.drop_first(), k - 1);
    }
}

pub proof fn lemma_trail_ws(s: Seq<char>, k: int)
    requires
        0 <= k <= s.len(),
        forall|j: int| s.len() - k <= j < s.len() ==> is_ws(#[trigger] s[j]),
        k == s.len() || !is_ws(s[s.len() - k - 1]),
    ensures
        trail_ws(s) == k,
    decreases k,
{
    if k > 0 {
        assert forall|j: int| s.drop_last().len() - (k - 1) <= j < s.drop_last().len() implies is_ws(#[trigger] s.drop_last()[j]) by {
            assert(s.drop_last()[j] == s[j]);
        }
        if k - 1 < s.drop_last().len() {
            assert(s.drop_last()[s.drop_last().len() - (k - 1) - 1] == s[s.len() - k - 1]);
        }
        lemma_trail_ws(s.drop_last(), k - 1);
    }
}

/// Count of leading whitespace characters.
pub fn lead_ws_count(s: &[char]) -> (r: usize)
    ensures
        r == lead_ws(s@),
        r <= s@.len(),
{
    let mut i: usize = 0;
    while i < s.len() && char_is_ws(s[i])
        invariant
            i <= s@.len(),
            forall|j: int| 0 <= j < i ==> is_ws(#[trigger] s@[j]),
        decreases s.len() - i,
    {
        i = i + 1;
    }
    proof { lemma_lead_ws(s@, i as int); }
    i
}

/// Count of trailing whitespace characters.
pub fn trail_ws_count(s: &[char]) -> (r: usize)
    ensures
        r == trail_ws(s@),
        r <= s@.len(),
{
    let mut k: usize = 0;
    while k < s.len() && char_is_ws(s[s.len() - k - 1])
        invariant
            k <= s@.len(),
            forall|j: int| s@.len() - k <= j < s@.len() ==> is_ws(#[trigger] s@[j]),
        decreases s.len() - k,
    {
        k = k + 1;
    }
    proof { lemma_trail_ws(s@, k as int); }
    k
}

/// `s` without surrounding whitespace.
pub fn trim_chars(s: &[char]) -> (r: Vec<char>)
    ensures
        r@ == trim(s@),
{
    let a = lead_ws_count(s);
    let t = slice_chars(s, a, s.len());
    let b = trail_ws_count(&t);
    slice_chars(&t, 0, t.len() - b)
}

/// `s` without leading whitespace.
pub fn trim_start_chars(s: &[char]) -> (r: Vec<char>)
    ensures
        r@ == trim_start(s@),
{
    let a = lead_ws_count(s);
    slice_chars(s, a, s.len())
}

/// `s` without trailing whitespace.
pub fn trim_end_chars(s: &[char]) -> (r: Vec<char>)
    ensures
        r@ == trim_end(s@),
{
    let b = trail_ws_count(s);
    slice_chars(s, 0, s.len() - b)
}


/// `s` with every occurrence of `c` removed.
pub open spec fn remove_char(s: Seq<char>, c: char) -> Seq<char>
    decreases s.len(),
{
    if s.len() == 0 {
        seq![]
    } else if s.last() == c {
        remove_char(s.drop_last(), c)
    } else {
        remove_char(s.drop_last(), c).push(s.last())
    }
}

/// `s` with every occurrence of `c` removed, as `str::replace(c, "")`.
pub fn remove_all(s: &[char], c: char) -> (r: Vec<char>)
    ensures
        r@ == remove_char(s@, c),
{
    let mut r: Vec<char> = Vec::new();
    let mut i: usize = 0;
    while i < s.len()
        invariant
            i <= s@.len(),
            r@ == remove_char(s@.subrange(0, i as int), c),
        decreases s.len() - i,
    {
        assert(s@.subrange(0, i + 1).drop_last() =~= s@.subrange(0, i as int));
        if s[i] != c {
            r.push(s[i]);
        }
        i = i + 1;
    }
    assert(s@.subrange(0, s@.len() as int) =~= s@);
    r
}

/// Views of a sequence of character vectors.
pub open spec fn char_vecs(v: Seq<Vec<char>>) -> Seq<Seq<char>> {
    v.map_values(|x: Vec<char>| x@)
}

/// Whether `s` begins with `c`.
pub open spec fn starts_with_char(s: Seq<char>, c: char) -> bool {
    s.len() > 0 && s[0] == c
}

/// Whether `s` ends with `c`.
pub open spec fn ends_with_char(s: Seq<char>, c: char) -> bool {
    s.len() > 0 && s.last() == c
}


/// A copy of a character slice.
pub fn copy_chars(s: &[char]) -> (r: Vec<char>)
    ensures
        r@ == s@,
{
    let r = slice_chars(s, 0, s.len());
    assert(s@.subrange(0, s@.len() as int) =~= s@);
    r
}

/// The pieces of `s` between occurrences of `d`, as `str::split` with a
/// character gives them.
pub open spec fn split_on(s: Seq<char>, d: char) -> Seq<Seq<char>>
    decreases s.len(),
{
    match first_index_of(s, d) {
        None => seq![s],
        Some(i) => {
            proof { lemma_first_index_of(s, d); }
            seq![s.take(i)] + split_on(s.skip(i + 1), d)
        },
    }
}

/// The pieces of `s` between occurrences of `d`.
pub fn split_on_char(s: &[char], d: char) -> (r: Vec<Vec<char>>)
    ensures
        char_vecs(r@) == split_on(s@, d),
{
    let mut out: Vec<Vec<char>> = Vec::new();
    let mut rest = slice_chars(s, 0, s.len());
    assert(rest@ =~= s@);
    loop
        invariant
            char_vecs(out@) + split_on(rest@, d) == split_on(s@, d),
        decreases rest@.len(),
    {
        match find_char(&rest, d) {
            None => {
                let ghost prev = out@;
                let last = copy_chars(&rest);
                out.push(last);
                assert(char_vecs(out@) =~= char_vecs(prev).push(rest@));
                assert(char_vecs(out@) =~= char_vecs(prev) + seq![rest@]);
                return out;
            },
            Some(i) => {
                let n = rest.len();
                let head = slice_chars(&rest, 0, i);
                let tail = slice_chars(&rest, i + 1, n);
                assert(head@ =~= rest@.take(i as int));
                assert(tail@ =~= rest@.skip(i + 1));
                let ghost prev = out@;
                let ghost r0 = rest@;
                out.push(head);
                assert(char_vecs(out@) =~= char_vecs(prev).push(r0.take(i as int)));
                assert(char_vecs(out@) + split_on(tail@, d) =~= char_vecs(prev) + split_on(r0, d));
                rest = tail;
            },
        }
    }
}

/// Every doubled `q` collapsed to one, scanning left to right, as
/// `str::replace` of the doubled character by the single one.
pub open spec fn collapse_doubled(s: Seq<char>, q: char) -> Seq<char>
    decreases s.len(),
{
    if s.len() >= 2 && s[0] == q && s[1] == q {
        seq![q] + collapse_doubled(s.skip(2), q)
    } else if s.len() == 0 {
        seq![]
    } else {
        seq![s[0]] + collapse_doubled(s.drop_first(), q)
    }
}

pub proof fn lemma_collapse_doubled_step(s: Seq<char>, q: char, i: int)
    requires
        0 <= i < s.len(),
    ensures
        i + 1 < s.len() && s[i] == q && s[i + 1] == q ==> collapse_doubled(s.skip(i), q) == seq![q] + collapse_doubled(s.skip(i + 2), q),
        !(i + 1 < s.len() && s[i] == q && s[i + 1] == q) ==> collapse_doubled(s.skip(i), q) == seq![s[i]] + collapse_doubled(s.skip(i + 1), q),
{
    let t = s.skip(i);
    if i + 1 < s.len() {
        assert(t.skip(2) =~= s.skip(i + 2));
    }
    assert(t.drop_first() =~= s.skip(i + 1));
}

/// Every doubled `q` collapsed to one.
pub fn collapse_doubled_chars(s: &[char], q: char) -> (r: Vec<char>)
    ensures
        r@ == collapse_doubled(s@, q),
{
    let mut r: Vec<char> = Vec::new();
    let mut i: usize = 0;
    assert(s@.skip(0) =~= s@);
    while i < s.len()
        invariant
            i <= s@.len(),
            r@ + collapse_doubled(s@.skip(i as int), q) == collapse_doubled(s@, q),
        decreases s.len() - i,
    {
        proof { lemma_collapse_doubled_step(s@, q, i as int); }
        if i + 1 < s.len() && s[i] == q && s[i + 1] == q {
            let ghost before = r@;
            r.push(q);
            assert(before + (seq![q] + collapse_doubled(s@.skip(i + 2), q)) =~= r@ + collapse_doubled(s@.skip(i + 2), q));
            i = i + 2;
        } else {
            let ghost before = r@;
            r.push(s[i]);
            assert(before + (seq![s@[i as int]] + collapse_doubled(s@.skip(i + 1), q)) =~= r@ + collapse_doubled(s@.skip(i + 1), q));
            i = i + 1;
        }
    }
    assert(s@.skip(s@.len() as int) =~= Seq::<char>::empty());
    assert(r@ + Seq::<char>::empty() =~= r@);
    r
}

pub proof fn lemma_digit_char_value(d: nat)
    requires
        d < 10,
    ensures
        digit_value(digit_char(d)) == d,
        is_digit(digit_char(d)),
{
    if d == 0 { assert(digit_char(0) == '0'); }
    else if d == 1 { assert(digit_char(1) == '1'); }
    else if d == 2 { assert(digit_char(2) == '2'); }
    else if d == 3 { assert(digit_char(3) == '3'); }
    else if d == 4 { assert(digit_char(4) == '4'); }
    else if d == 5 { assert(digit_char(5) == '5'); }
    else if d == 6 { assert(digit_char(6) == '6'); }
    else if d == 7 { assert(digit_char(7) == '7'); }
    else if d == 8 { assert(digit_char(8) == '8'); }
    else { assert(digit_char(9) == '9'); }
}

/// The decimal rendering of `n` is a non-empty run of digits that reads
/// back as `n`.
pub proof fn lemma_decimal_round_trip(n: nat)
    ensures
        decimal(n).len() > 0,
        all_digits(decimal(n)),
        decimal_value(decimal(n)) == n,
        is_digit(decimal(n)[0]),
    decreases n,
{
    if n < 10 {
        assert(decimal(n) == seq![digit_char(n)]);
        assert(seq![digit_char(n)].drop_last() =~= Seq::<char>::empty());
        lemma_digit_char_value(n);
        assert(decimal_value(Seq::<char>::empty()) == 0);
        assert(decimal_value(decimal(n)) == decimal_value(decimal(n).drop_last()) * 10 + digit_value(decimal(n).last()));
    } else {
        lemma_digit_char_value(n % 10);
        lemma_decimal_round_trip(n / 10);
        let s = decimal(n);
        assert(s == decimal(n / 10).push(digit_char(n % 10)));
        assert(s.drop_last() =~= decimal(n / 10));
        assert forall|i: int| 0 <= i < s.len() implies is_digit(#[trigger] s[i]) by {
            if i < s.len() - 1 {
                assert(s[i] == decimal(n / 10)[i]);
            }
        }
        assert(s[0] == decimal(n / 10)[0]);
        assert(decimal_value(s) == decimal_value(s.drop_last()) * 10 + digit_value(s.last()));
        assert(s.last() == digit_char(n % 10));
        assert((n / 10) * 10 + n % 10 == n);
    }
}

} // verus!
