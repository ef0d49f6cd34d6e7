//! The reference grammar: A1 and R1C1 cell, row and column references,
//! sheet and workbook qualifiers, and `sheet!A1:B2` area texts.

use vstd::prelude::*;

use crate::binding::reference::{AddressMode, AreaRef, AreaRefModel, CellCoord, CellRef, CellRefModel};
use crate::source::FormulaChannelKind;
use crate::binding::reference::opt_view;
use crate::text::{
    parse_i32, parse_u32, find_char, slice_chars, all_alpha, all_digits, char_is_alpha, char_is_digit, char_to_upper, first_index_of, is_alpha, is_digit,
    parse_i32_spec, parse_u32_spec, upper_char, collapse_doubled, collapse_doubled_chars,
};

verus! {

/// Length of the run of characters satisfying `p` at the start of `s`.
pub open spec fn run_len(s: Seq<char>, p: spec_fn(char) -> bool) -> nat
    decreases s.len(),
{
    if s.len() > 0 && p(s[0]) {
        1 + run_len(s.drop_first(), p)
    } else {
        0
    }
}

pub proof fn lemma_run_len(s: Seq<char>, p: spec_fn(char) -> bool, k: int)
    requires
        0 <= k <= s.len(),
        forall|j: int| 0 <= j < k ==> p(#[trigger] s[j]),
        k == s.len() || !p(s[k]),
    ensures
        run_len(s, p) == k,
    decreases k,
{
    if k > 0 {
        assert forall|j: int| 0 <= j < k - 1 implies p(#[trigger] s.drop_first()[j]) by {
            assert(s.drop_first()[j] == s[j + 1]);
        }
        lemma_run_len(s.drop_first(), p, k - 1);
    }
}

pub open spec fn is_col_char(c: char) -> bool {
    is_alpha(c) || c == '$'
}

pub open spec fn is_row_char(c: char) -> bool {
    is_digit(c) || c == '$'
}

pub open spec fn col_pred() -> spec_fn(char) -> bool {
    |c: char| is_col_char(c)
}

pub open spec fn row_pred() -> spec_fn(char) -> bool {
    |c: char| is_row_char(c)
}

pub open spec fn digit_pred() -> spec_fn(char) -> bool {
    |c: char| is_digit(c)
}

/// `s` with every `$` removed.
pub open spec fn strip_dollar(s: Seq<char>) -> Seq<char>
    decreases s.len(),
{
    if s.len() == 0 {
        seq![]
    } else if s.last() == '$' {
        strip_dollar(s.drop_last())
    } else {
        strip_dollar(s.drop_last()).push(s.last())
    }
}

/// Position of a letter in the alphabet, counting `A` as one.
pub open spec fn letter_value(c: char) -> nat {
    ((upper_char(c) as u32) - ('A' as u32) + 1) as nat
}

/// Bijective base-26 value of a column label: `A` is 1, `Z` 26, `AA` 27.
pub open spec fn base26(s: Seq<char>) -> nat
    decreases s.len(),
{
    if s.len() == 0 {
        0
    } else {
        base26(s.drop_last()) * 26 + letter_value(s.last())
    }
}

/// Column index of a label of letters (either case), refused when a character
/// is not a letter or the index does not fit in 32 bits.
pub open spec fn column_index_spec(s: Seq<char>) -> Option<u32> {
    if all_alpha(s) && base26(s) <= u32::MAX {
        Some(base26(s) as u32)
    } else {
        None
    }
}

/// Relative address mode (the default).
pub open spec fn default_mode() -> AddressMode {
    AddressMode { row_absolute: false, col_absolute: false }
}

/// An A1 cell text: letters and `$`, then digits and `$`, nothing after.
pub open spec fn a1_cell_spec(s: Seq<char>) -> Option<CellCoord> {
    let i = run_len(s, col_pred());
    let rest = s.skip(i as int);
    let j = run_len(rest, row_pred());
    let col_text = strip_dollar(s.take(i as int));
    let row_text = strip_dollar(rest.take(j as int));
    if col_text.len() == 0 || row_text.len() == 0 || i + j != s.len() {
        None
    } else {
        match (column_index_spec(col_text), parse_u32_spec(row_text)) {
            (Some(col), Some(row)) => Some(CellCoord { row, col }),
            _ => None,
        }
    }
}

/// One R1C1 axis: `axis` followed by either `[delta]` relative to `anchor`
/// or absolute digits; yields the index, whether it is absolute, whether the
/// caller anchor was used, and the remaining text.
pub open spec fn r1c1_axis_spec(s: Seq<char>, axis: char, anchor: u32) -> Option<(u32, bool, bool, Seq<char>)> {
    if s.len() == 0 || s[0] != axis {
        None
    } else {
        let rem = s.drop_first();
        if rem.len() > 0 && rem[0] == '[' {
            let rel = rem.drop_first();
            match first_index_of(rel, ']') {
                None => None,
                Some(k) => match parse_i32_spec(rel.take(k)) {
                    None => None,
                    Some(d) => {
                        let resolved = anchor + d;
                        if resolved < 1 || resolved > u32::MAX {
                            None
                        } else {
                            Some((resolved as u32, false, true, rel.skip(k + 1)))
                        }
                    },
                },
            }
        } else {
            let n = run_len(rem, digit_pred());
            if n == 0 {
                None
            } else {
                match parse_u32_spec(rem.take(n as int)) {
                    None => None,
                    Some(v) => Some((v, true, false, rem.skip(n as int))),
                }
            }
        }
    }
}

/// An R1C1 cell text: a row axis, then a column axis, nothing after.
pub open spec fn r1c1_cell_spec(s: Seq<char>, caller_row: u32, caller_col: u32) -> Option<(CellCoord, AddressMode, bool)> {
    match r1c1_axis_spec(s, 'R', caller_row) {
        None => None,
        Some((row, row_abs, row_anchor, rest)) => match r1c1_axis_spec(rest, 'C', caller_col) {
            None => None,
            Some((col, col_abs, col_anchor, rest2)) => if rest2.len() != 0 {
                None
            } else {
                Some((CellCoord { row, col }, AddressMode { row_absolute: row_abs, col_absolute: col_abs }, row_anchor || col_anchor))
            },
        },
    }
}

/// A cell reference text in the grammar of the channel, bound to `workbook`
/// and `sheet`. A1 cells are marked as using the caller anchor.
pub open spec fn cell_reference_spec(
    s: Seq<char>,
    sheet: Seq<char>,
    workbook: Seq<char>,
    caller_row: u32,
    caller_col: u32,
    channel: FormulaChannelKind,
) -> Option<CellRefModel> {
    if channel == FormulaChannelKind::WorksheetR1C1 {
        match r1c1_cell_spec(s, caller_row, caller_col) {
            None => None,
            Some((coord, mode, anchor)) => Some(CellRefModel {
                workbook_id: workbook,
                sheet_id: sheet,
                coord,
                address_mode: mode,
                caller_anchor_used: anchor,
            }),
        }
    } else {
        match a1_cell_spec(s) {
            None => None,
            Some(coord) => Some(CellRefModel {
                workbook_id: workbook,
                sheet_id: sheet,
                coord,
                address_mode: default_mode(),
                caller_anchor_used: true,
            }),
        }
    }
}

/// A whole-row endpoint: digits in A1, `R<n>` in R1C1.
pub open spec fn row_reference_spec(s: Seq<char>, channel: FormulaChannelKind) -> Option<u32> {
    if channel == FormulaChannelKind::WorksheetR1C1 {
        if s.len() > 0 && s[0] == 'R' && s.len() > 1 && s[1] != '[' {
            parse_u32_spec(s.drop_first())
        } else {
            None
        }
    } else if s.len() > 0 && all_digits(s) {
        parse_u32_spec(s)
    } else {
        None
    }
}

/// A whole-column endpoint: one to three letters in A1, `C<n>` in R1C1.
pub open spec fn column_reference_spec(s: Seq<char>, channel: FormulaChannelKind) -> Option<u32> {
    if channel == FormulaChannelKind::WorksheetR1C1 {
        if s.len() > 0 && s[0] == 'C' && s.len() > 1 && s[1] != '[' {
            parse_u32_spec(s.drop_first())
        } else {
            None
        }
    } else if s.len() > 0 && s.len() <= 3 && all_alpha(s) {
        column_index_spec(s)
    } else {
        None
    }
}

pub proof fn lemma_base26_prefix_le(s: Seq<char>, i: int)
    requires
        0 <= i <= s.len(),
    ensures
        base26(s.subrange(0, i)) <= base26(s),
    decreases s.len(),
{
    if i < s.len() {
        assert(s.drop_last() =~= s.subrange(0, s.len() - 1));
        assert(s.subrange(0, i) =~= s.drop_last().subrange(0, i));
        lemma_base26_prefix_le(s.drop_last(), i);
    } else {
        assert(s.subrange(0, i) =~= s);
    }
}

/// Column index of a letter label, as the bijective base-26 number it spells.
pub fn column_to_index(s: &[char]) -> (r: Option<u32>)
    ensures
        r == column_index_spec(s@),
{
    let mut acc: u32 = 0;
    let mut i: usize = 0;
    while i < s.len()
        invariant
            i <= s@.len(),
            all_alpha(s@.subrange(0, i as int)),
            acc == base26(s@.subrange(0, i as int)),
        decreases s.len() - i,
    {
        let upper = char_to_upper(s[i]);
        if !char_is_alpha(upper) {
            proof {
                assert(!is_alpha(s@[i as int]));
                assert(!all_alpha(s@));
            }
            return None;
        }
        let d: u32 = upper as u32 - 'A' as u32 + 1;
        assert(s@.subrange(0, i + 1).drop_last() =~= s@.subrange(0, i as int));
        let next: u64 = (acc as u64) * 26 + (d as u64);
        assert(next == base26(s@.subrange(0, i + 1)));
        if next > 0xFFFF_FFFF {
            proof { lemma_base26_prefix_le(s@, i + 1); }
            return None;
        }
        acc = next as u32;
        i = i + 1;
        assert(all_alpha(s@.subrange(0, i as int))) by {
            assert forall|j: int| 0 <= j < i implies is_alpha(#[trigger] s@.subrange(0, i as int)[j]) by {
                if j < i - 1 {
                    assert(s@.subrange(0, i as int)[j] == s@.subrange(0, i - 1)[j]);
                }
            }
        }
    }
    assert(s@.subrange(0, s@.len() as int) =~= s@);
    Some(acc)
}


/// Appending a non-`$` character extends the stripped text by it; a `$` leaves it.
pub proof fn lemma_strip_dollar_step(s: Seq<char>, i: int)
    requires
        0 <= i < s.len(),
    ensures
        strip_dollar(s.subrange(0, i + 1)) == if s[i] == '$' {
            strip_dollar(s.subrange(0, i))
        } else {
            strip_dollar(s.subrange(0, i)).push(s[i])
        },
{
    assert(s.subrange(0, i + 1).drop_last() =~= s.subrange(0, i));
}

/// The coordinates of an A1 cell text.
pub fn a1_cell(s: &[char]) -> (r: Option<CellCoord>)
    ensures
        r == a1_cell_spec(s@),
{
    let mut i: usize = 0;
    let mut col_text: Vec<char> = Vec::new();
    while i < s.len() && (char_is_alpha(s[i]) || s[i] == '$')
        invariant
            i <= s@.len(),
            forall|j: int| 0 <= j < i ==> is_col_char(#[trigger] s@[j]),
            col_text@ == strip_dollar(s@.subrange(0, i as int)),
        decreases s.len() - i,
    {
        proof { lemma_strip_dollar_step(s@, i as int); }
        if s[i] != '$' {
            col_text.push(s[i]);
        }
        i = i + 1;
    }
    proof {
        lemma_run_len(s@, col_pred(), i as int);
    }
    let start = i;
    let ghost rest = s@.skip(start as int);
    let mut row_text: Vec<char> = Vec::new();
    while i < s.len() && (char_is_digit(s[i]) || s[i] == '$')
        invariant
            start <= i <= s@.len(),
            rest == s@.skip(start as int),
            forall|j: int| start <= j < i ==> is_row_char(#[trigger] s@[j]),
            row_text@ == strip_dollar(rest.subrange(0, i - start)),
        decreases s.len() - i,
    {
        proof {
            lemma_strip_dollar_step(rest, i - start);
            assert(rest[i - start] == s@[i as int]);
        }
        if s[i] != '$' {
            row_text.push(s[i]);
        }
        i = i + 1;
    }
    proof {
        assert forall|j: int| 0 <= j < i - start implies row_pred()(#[trigger] rest[j]) by {
            assert(rest[j] == s@[start + j]);
        }
        if i < s@.len() {
            assert(rest[i - start] == s@[i as int]);
        }
        lemma_run_len(rest, row_pred(), i - start);
        assert(s@.take(start as int) =~= s@.subrange(0, start as int));
        assert(rest.take(i - start) =~= rest.subrange(0, i - start));
    }
    if col_text.len() == 0 || row_text.len() == 0 || i < s.len() {
        return None;
    }
    let col = match column_to_index(&col_text) {
        Some(c) => c,
        None => return None,
    };
    let row = match parse_u32(&row_text) {
        Some(r) => r,
        None => return None,
    };
    Some(CellCoord { row, col })
}

/// One axis of an R1C1 cell text, with the text that follows it.
pub fn parse_r1c1_axis(s: &[char], axis: char, anchor: u32) -> (r: Option<(u32, bool, bool, Vec<char>)>)
    ensures
        match r {
            Some((v, abs, used, rest)) => r1c1_axis_spec(s@, axis, anchor) == Some((v, abs, used, rest@)),
            None => r1c1_axis_spec(s@, axis, anchor) is None,
        },
{
    if s.len() == 0 || s[0] != axis {
        return None;
    }
    let rem = slice_chars(s, 1, s.len());
    assert(rem@ =~= s@.drop_first());
    if rem.len() > 0 && rem[0] == '[' {
        let rel = slice_chars(&rem, 1, rem.len());
        assert(rel@ =~= rem@.drop_first());
        let k = match find_char(&rel, ']') {
            Some(k) => k,
            None => return None,
        };
        proof { crate::text::lemma_first_index_of(rel@, ']'); }
        let delta_text = slice_chars(&rel, 0, k);
        assert(delta_text@ =~= rel@.take(k as int));
        let d = match parse_i32(&delta_text) {
            Some(d) => d,
            None => return None,
        };
        let resolved: i64 = anchor as i64 + d as i64;
        if resolved < 1 || resolved > 0xFFFF_FFFF {
            return None;
        }
        let tail = slice_chars(&rel, k + 1, rel.len());
        assert(tail@ =~= rel@.skip(k + 1));
        Some((resolved as u32, false, true, tail))
    } else {
        let mut n: usize = 0;
        while n < rem.len() && char_is_digit(rem[n])
            invariant
                n <= rem@.len(),
                forall|j: int| 0 <= j < n ==> is_digit(#[trigger] rem@[j]),
            decreases rem.len() - n,
        {
            n = n + 1;
        }
        proof { lemma_run_len(rem@, digit_pred(), n as int); }
        if n == 0 {
            return None;
        }
        let digits = slice_chars(&rem, 0, n);
        assert(digits@ =~= rem@.take(n as int));
        let v = match parse_u32(&digits) {
            Some(v) => v,
            None => return None,
        };
        let tail = slice_chars(&rem, n, rem.len());
        assert(tail@ =~= rem@.skip(n as int));
        Some((v, true, false, tail))
    }
}

/// Coordinates, address mode and caller-anchor use of an R1C1 cell text.
pub fn r1c1_cell(s: &[char], caller_row: u32, caller_col: u32) -> (r: Option<(CellCoord, AddressMode, bool)>)
    ensures
        r == r1c1_cell_spec(s@, caller_row, caller_col),
{
    let (row, row_abs, row_anchor, rest) = match parse_r1c1_axis(s, 'R', caller_row) {
        Some(x) => x,
        None => return None,
    };
    let (col, col_abs, col_anchor, rest2) = match parse_r1c1_axis(&rest, 'C', caller_col) {
        Some(x) => x,
        None => return None,
    };
    if rest2.len() != 0 {
        return None;
    }
    Some((CellCoord { row, col }, AddressMode { row_absolute: row_abs, col_absolute: col_abs }, row_anchor || col_anchor))
}

/// An R1C1 cell text bound to `workbook_id` and `sheet_id`, relative parts
/// taken from the caller's row and column.
pub fn parse_r1c1_cell_reference(
    s: &[char],
    sheet_id: &String,
    workbook_id: &String,
    caller_row: u32,
    caller_col: u32,
) -> (r: Option<CellRef>)
    ensures
        match r {
            Some(c) => cell_reference_spec(s@, sheet_id@, workbook_id@, caller_row, caller_col, FormulaChannelKind::WorksheetR1C1) == Some(c.model()),
            None => cell_reference_spec(s@, sheet_id@, workbook_id@, caller_row, caller_col, FormulaChannelKind::WorksheetR1C1) is None,
        },
{
    match r1c1_cell(s, caller_row, caller_col) {
        Some((coord, mode, anchor)) => Some(CellRef {
            workbook_id: workbook_id.clone(),
            sheet_id: sheet_id.clone(),
            coord,
            address_mode: mode,
            caller_anchor_used: anchor,
        }),
        None => None,
    }
}

/// An R1C1 whole-row endpoint: `R` and an absolute row number.
pub fn parse_r1c1_row_reference(s: &[char]) -> (r: Option<u32>)
    ensures
        r == row_reference_spec(s@, FormulaChannelKind::WorksheetR1C1),
{
    if s.len() > 1 && s[0] == 'R' && s[1] != '[' {
        let rem = slice_chars(s, 1, s.len());
        assert(rem@ =~= s@.drop_first());
        parse_u32(&rem)
    } else {
        None
    }
}

/// An R1C1 whole-column endpoint: `C` and an absolute column number.
pub fn parse_r1c1_column_reference(s: &[char]) -> (r: Option<u32>)
    ensures
        r == column_reference_spec(s@, FormulaChannelKind::WorksheetR1C1),
{
    if s.len() > 1 && s[0] == 'C' && s[1] != '[' {
        let rem = slice_chars(s, 1, s.len());
        assert(rem@ =~= s@.drop_first());
        parse_u32(&rem)
    } else {
        None
    }
}

/// A cell reference text bound to `workbook_id` and `sheet_id`.
pub fn parse_cell_reference(
    s: &[char],
    sheet_id: &String,
    workbook_id: &String,
    caller_row: u32,
    caller_col: u32,
    channel: FormulaChannelKind,
) -> (r: Option<CellRef>)
    ensures
        match r {
            Some(c) => cell_reference_spec(s@, sheet_id@, workbook_id@, caller_row, caller_col, channel) == Some(c.model()),
            None => cell_reference_spec(s@, sheet_id@, workbook_id@, caller_row, caller_col, channel) is None,
        },
{
    if channel == FormulaChannelKind::WorksheetR1C1 {
        parse_r1c1_cell_reference(s, sheet_id, workbook_id, caller_row, caller_col)
    } else {
        match a1_cell(s) {
            Some(coord) => Some(CellRef {
                workbook_id: workbook_id.clone(),
                sheet_id: sheet_id.clone(),
                coord,
                address_mode: AddressMode { row_absolute: false, col_absolute: false },
                caller_anchor_used: true,
            }),
            None => None,
        }
    }
}

/// A whole-row endpoint in the grammar of the channel.
pub fn parse_row_reference(s: &[char], channel: FormulaChannelKind) -> (r: Option<u32>)
    ensures
        r == row_reference_spec(s@, channel),
{
    if channel == FormulaChannelKind::WorksheetR1C1 {
        parse_r1c1_row_reference(s)
    } else if s.len() > 0 && crate::text::chars_all_digits(s) {
        parse_u32(s)
    } else {
        None
    }
}

/// A whole-column endpoint in the grammar of the channel.
pub fn parse_column_reference(s: &[char], channel: FormulaChannelKind) -> (r: Option<u32>)
    ensures
        r == column_reference_spec(s@, channel),
{
    if channel == FormulaChannelKind::WorksheetR1C1 {
        parse_r1c1_column_reference(s)
    } else if s.len() > 0 && s.len() <= 3 && crate::text::chars_all_alpha(s) {
        column_to_index(s)
    } else {
        None
    }
}


/// `''` collapsed to `'`, scanning left to right.
pub open spec fn collapse_quotes(s: Seq<char>) -> Seq<char> {
    collapse_doubled(s, '\'')
}

/// A sheet or workbook qualifier as written before `!`.
pub struct ParsedQualifier {
    pub raw: String,
    pub sheet_id: String,
    pub external_target_id: Option<String>,
    pub is_external: bool,
    pub explicit: bool,
}

pub struct QualifierModel {
    pub raw: Seq<char>,
    pub sheet_id: Seq<char>,
    pub external_target_id: Option<Seq<char>>,
    pub is_external: bool,
    pub explicit: bool,
}

impl ParsedQualifier {
    pub open spec fn model(&self) -> QualifierModel {
        QualifierModel {
            raw: self.raw@,
            sheet_id: self.sheet_id@,
            external_target_id: opt_view(self.external_target_id),
            is_external: self.is_external,
            explicit: self.explicit,
        }
    }

    pub fn duplicate(&self) -> (r: ParsedQualifier)
        ensures
            r.model() == self.model(),
    {
        ParsedQualifier {
            raw: self.raw.clone(),
            sheet_id: self.sheet_id.clone(),
            external_target_id: crate::binding::profile::copy_opt_string(&self.external_target_id),
            is_external: self.is_external,
            explicit: self.explicit,
        }
    }
}

/// A qualifier text: `[book]sheet` names an external workbook (with sheet
/// `sheet:external` when none follows); `'quoted'` sheets lose their quotes
/// and doubled quotes; anything else is the sheet name itself.
pub open spec fn qualifier_spec(s: Seq<char>) -> QualifierModel {
    let rest = s.drop_first();
    if s.len() > 0 && s[0] == '[' && first_index_of(rest, ']') is Some {
        let k = first_index_of(rest, ']')->0;
        let sheet = rest.skip(k + 1);
        QualifierModel {
            raw: s,
            sheet_id: if sheet.len() == 0 { "sheet:external"@ } else { sheet },
            external_target_id: Some(rest.take(k)),
            is_external: true,
            explicit: true,
        }
    } else {
        QualifierModel {
            raw: s,
            sheet_id: if s.len() >= 2 && s[0] == '\'' && s.last() == '\'' {
                collapse_quotes(s.subrange(1, s.len() - 1))
            } else {
                s
            },
            external_target_id: None,
            is_external: false,
            explicit: true,
        }
    }
}

/// `''` collapsed to `'`.
pub fn collapse_quote_pairs(s: &[char]) -> (r: Vec<char>)
    ensures
        r@ == collapse_quotes(s@),
{
    collapse_doubled_chars(s, '\'')
}

/// Reads a sheet or workbook qualifier.
pub fn parse_reference_qualifier(s: &[char]) -> (r: ParsedQualifier)
    ensures
        r.model() == qualifier_spec(s@),
{
    if s.len() > 0 && s[0] == '[' {
        let rest = slice_chars(s, 1, s.len());
        assert(rest@ =~= s@.drop_first());
        if let Some(k) = find_char(&rest, ']') {
            let ext = slice_chars(&rest, 0, k);
            let sheet = slice_chars(&rest, k + 1, rest.len());
            assert(ext@ =~= rest@.take(k as int));
            assert(sheet@ =~= rest@.skip(k + 1));
            let sheet_id = if sheet.len() == 0 {
                crate::text::string_of(&crate::text::chars_of("sheet:external"))
            } else {
                crate::text::string_of(&sheet)
            };
            return ParsedQualifier {
                raw: crate::text::string_of(s),
                sheet_id,
                external_target_id: Some(crate::text::string_of(&ext)),
                is_external: true,
                explicit: true,
            };
        }
    }
    let sheet_id = if s.len() >= 2 && s[0] == '\'' && s[s.len() - 1] == '\'' {
        let inner = slice_chars(s, 1, s.len() - 1);
        crate::text::string_of(&collapse_quote_pairs(&inner))
    } else {
        crate::text::string_of(s)
    };
    ParsedQualifier {
        raw: crate::text::string_of(s),
        sheet_id,
        external_target_id: None,
        is_external: false,
        explicit: true,
    }
}

/// Index of the last occurrence of `c`, if any.
pub open spec fn last_index_of(s: Seq<char>, c: char) -> Option<int>
    decreases s.len(),
{
    if s.len() == 0 {
        None
    } else if s.last() == c {
        Some(s.len() - 1)
    } else {
        last_index_of(s.drop_last(), c)
    }
}

pub proof fn lemma_last_index_at(s: Seq<char>, c: char, i: int)
    requires
        0 <= i < s.len(),
        s[i] == c,
        forall|j: int| i < j < s.len() ==> s[j] != c,
    ensures
        last_index_of(s, c) == Some(i),
    decreases s.len(),
{
    if i < s.len() - 1 {
        assert forall|j: int| i < j < s.drop_last().len() implies s.drop_last()[j] != c by {
            assert(s.drop_last()[j] == s[j]);
        }
        lemma_last_index_at(s.drop_last(), c, i);
    }
}

pub proof fn lemma_last_index_none(s: Seq<char>, c: char)
    requires
        forall|j: int| 0 <= j < s.len() ==> s[j] != c,
    ensures
        last_index_of(s, c) is None,
    decreases s.len(),
{
    if s.len() > 0 {
        assert forall|j: int| 0 <= j < s.drop_last().len() implies s.drop_last()[j] != c by {
            assert(s.drop_last()[j] == s[j]);
        }
        lemma_last_index_none(s.drop_last(), c);
    }
}

/// Position of the last `c` in `s`.
pub fn rfind_char(s: &[char], c: char) -> (r: Option<usize>)
    ensures
        r matches Some(i) ==> last_index_of(s@, c) == Some(i as int) && i < s.len(),
        r is None ==> last_index_of(s@, c) is None,
{
    let mut k: usize = s.len();
    while k > 0
        invariant
            k <= s@.len(),
            forall|j: int| k <= j < s@.len() ==> s@[j] != c,
        decreases k,
    {
        if s[k - 1] == c {
            proof { lemma_last_index_at(s@, c, k - 1); }
            return Some(k - 1);
        }
        k = k - 1;
    }
    proof { lemma_last_index_none(s@, c); }
    None
}

/// The sheet and target of `sheet!target`, splitting at the last `!`, or the
/// default sheet and the whole text when there is none.
pub open spec fn sheet_qualified_target_spec(s: Seq<char>, default_sheet: Seq<char>) -> (Seq<char>, Seq<char>) {
    match last_index_of(s, '!') {
        Some(k) => (qualifier_spec(s.take(k)).sheet_id, s.skip(k + 1)),
        None => (default_sheet, s),
    }
}

pub fn split_sheet_qualified_target(s: &[char], default_sheet: &String) -> (r: (String, Vec<char>))
    ensures
        (r.0@, r.1@) == sheet_qualified_target_spec(s@, default_sheet@),
{
    match rfind_char(s, '!') {
        Some(k) => {
            let q = slice_chars(s, 0, k);
            assert(q@ =~= s@.take(k as int));
            let t = slice_chars(s, k + 1, s.len());
            assert(t@ =~= s@.skip(k + 1));
            let qualifier = parse_reference_qualifier(&q);
            (qualifier.sheet_id, t)
        },
        None => (default_sheet.clone(), slice_chars(s, 0, s.len())),
    }
}

/// Number of rows or columns from `a` to `b` inclusive, as a 32-bit count.
pub open spec fn span_count(a: u32, b: u32) -> u32 {
    (b - a + 1) as u32
}

pub fn span_count_of(a: u32, b: u32) -> (r: u32)
    requires
        a <= b,
    ensures
        r == span_count(a, b),
{
    ((b - a) as u64 + 1) as u32
}

pub open spec fn min_u32(a: u32, b: u32) -> u32 {
    if a <= b { a } else { b }
}

pub open spec fn max_u32(a: u32, b: u32) -> u32 {
    if a >= b { a } else { b }
}

/// The rectangle spanned by two corner cells.
pub open spec fn area_between(workbook: Seq<char>, sheet: Seq<char>, a: CellCoord, b: CellCoord, anchor: bool) -> AreaRefModel {
    let top = min_u32(a.row, b.row);
    let left = min_u32(a.col, b.col);
    AreaRefModel {
        workbook_id: workbook,
        sheet_id: sheet,
        top_left: CellCoord { row: top, col: left },
        height: span_count(top, max_u32(a.row, b.row)),
        width: span_count(left, max_u32(a.col, b.col)),
        address_mode: default_mode(),
        caller_anchor_used: anchor,
    }
}

pub fn area_between_cells(workbook_id: &String, sheet_id: &String, a: CellCoord, b: CellCoord, anchor: bool) -> (r: AreaRef)
    ensures
        r.model() == area_between(workbook_id@, sheet_id@, a, b, anchor),
{
    let top = if a.row <= b.row { a.row } else { b.row };
    let bottom = if a.row >= b.row { a.row } else { b.row };
    let left = if a.col <= b.col { a.col } else { b.col };
    let right = if a.col >= b.col { a.col } else { b.col };
    AreaRef {
        workbook_id: workbook_id.clone(),
        sheet_id: sheet_id.clone(),
        top_left: CellCoord { row: top, col: left },
        height: span_count_of(top, bottom),
        width: span_count_of(left, right),
        address_mode: AddressMode { row_absolute: false, col_absolute: false },
        caller_anchor_used: anchor,
    }
}

/// An area text `[sheet!]start:end`, split at the first `:` after the
/// qualifier, bound to `workbook`; the sheet defaults to `default_sheet`.
pub open spec fn area_target_spec(
    s: Seq<char>,
    workbook: Seq<char>,
    default_sheet: Seq<char>,
    caller_row: u32,
    caller_col: u32,
    channel: FormulaChannelKind,
) -> Option<AreaRefModel> {
    let (sheet, target) = sheet_qualified_target_spec(s, default_sheet);
    match first_index_of(target, ':') {
        None => None,
        Some(k) => {
            let start = cell_reference_spec(target.take(k), sheet, workbook, caller_row, caller_col, channel);
            let end = cell_reference_spec(target.skip(k + 1), sheet, workbook, caller_row, caller_col, channel);
            match (start, end) {
                (Some(a), Some(b)) => Some(area_between(workbook, sheet, a.coord, b.coord, false)),
                _ => None,
            }
        },
    }
}

pub fn parse_area_target(
    s: &[char],
    workbook_id: &String,
    default_sheet: &String,
    caller_row: u32,
    caller_col: u32,
    channel: FormulaChannelKind,
) -> (r: Option<AreaRef>)
    ensures
        match r {
            Some(a) => area_target_spec(s@, workbook_id@, default_sheet@, caller_row, caller_col, channel) == Some(a.model()),
            None => area_target_spec(s@, workbook_id@, default_sheet@, caller_row, caller_col, channel) is None,
        },
{
    let (sheet_id, target) = split_sheet_qualified_target(s, default_sheet);
    let k = match find_char(&target, ':') {
        Some(k) => k,
        None => return None,
    };
    let start_text = slice_chars(&target, 0, k);
    let end_text = slice_chars(&target, k + 1, target.len());
    assert(start_text@ =~= target@.take(k as int));
    assert(end_text@ =~= target@.skip(k + 1));
    let start = match parse_cell_reference(&start_text, &sheet_id, workbook_id, caller_row, caller_col, channel) {
        Some(c) => c,
        None => return None,
    };
    let end = match parse_cell_reference(&end_text, &sheet_id, workbook_id, caller_row, caller_col, channel) {
        Some(c) => c,
        None => return None,
    };
    Some(area_between_cells(workbook_id, &sheet_id, start.coord, end.coord, false))
}

} // verus!
