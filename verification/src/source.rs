//! Formula source records: the text a host hands in and its identity.

use vstd::prelude::*;

verus! {

/// The channel a formula text was entered through; it selects the reference
/// grammar (A1 or R1C1) and the restriction profile of carriers.
#[derive(Debug, Clone, Copy, PartialEq, Eq, Structural, Hash)]
pub enum FormulaChannelKind {
    WorksheetA1,
    WorksheetR1C1,
    ConditionalFormatting,
    DataValidation,
}

/// A byte span into formula text: `len` bytes starting at `start`.
#[derive(Debug, Clone, Copy, PartialEq, Eq, Structural, Hash)]
pub struct TextSpan {
    pub start: usize,
    pub len: usize,
}

impl TextSpan {
    pub fn new(start: usize, len: usize) -> (r: TextSpan)
        ensures
            r.start == start,
            r.len == len,
    {
        TextSpan { start, len }
    }

    /// One past the last byte of the span.
    pub open spec fn end_spec(self) -> int {
        self.start + self.len
    }

    pub fn end(&self) -> (r: usize)
        requires
            self.start + self.len <= usize::MAX,
        ensures
            r == self.end_spec(),
    {
        self.start + self.len
    }
}

/// Token identifying one formula instance for a host.
#[derive(Debug, Clone, PartialEq, Eq, Hash)]
pub struct FormulaToken(pub String);

/// Version of the workbook structure a bind was made against.
#[derive(Debug, Clone, PartialEq, Eq, Hash)]
pub struct StructureContextVersion(pub String);

/// Stable identity of a formula across edits.
#[derive(Debug, Clone, PartialEq, Eq, Hash)]
pub struct FormulaStableId(pub String);

/// Version number of a formula text.
#[derive(Debug, Clone, Copy, PartialEq, Eq, Structural, Hash)]
pub struct FormulaTextVersion(pub u64);

/// A formula as entered by a host.
#[derive(Debug, Clone, PartialEq, Eq, Hash)]
pub struct FormulaSourceRecord {
    pub formula_stable_id: FormulaStableId,
    pub formula_text_version: FormulaTextVersion,
    pub entered_formula_text: String,
    pub stored_formula_text: Option<String>,
    pub formula_channel_kind: FormulaChannelKind,
}

/// A source record as plain values.
pub struct FormulaSourceModel {
    pub formula_stable_id: Seq<char>,
    pub formula_text_version: u64,
    pub entered_formula_text: Seq<char>,
    pub stored_formula_text: Option<Seq<char>>,
    pub formula_channel_kind: FormulaChannelKind,
}

impl FormulaSourceRecord {
    pub open spec fn model(&self) -> FormulaSourceModel {
        FormulaSourceModel {
            formula_stable_id: self.formula_stable_id.0@,
            formula_text_version: self.formula_text_version.0,
            entered_formula_text: self.entered_formula_text@,
            stored_formula_text: match self.stored_formula_text {
                Some(s) => Some(s@),
                None => None,
            },
            formula_channel_kind: self.formula_channel_kind,
        }
    }

    /// A copy with the same model.
    pub fn duplicate(&self) -> (r: FormulaSourceRecord)
        ensures
            r.model() == self.model(),
    {
        FormulaSourceRecord {
            formula_stable_id: FormulaStableId(self.formula_stable_id.0.clone()),
            formula_text_version: self.formula_text_version,
            entered_formula_text: self.entered_formula_text.clone(),
            stored_formula_text: match &self.stored_formula_text {
                Some(s) => Some(s.clone()),
                None => None,
            },
            formula_channel_kind: self.formula_channel_kind,
        }
    }
}

} // verus!
