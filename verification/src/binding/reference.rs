//! Normalized references: what a reference in formula text denotes once it
//! is bound against a workbook and a caller position.

use vstd::prelude::*;

use crate::binding::profile::{copy_opt_string, ProfileReferenceRecord, ProfileReferenceRecordModel};
use crate::source::TextSpan;
use crate::text::{decimal, join, push_chars, push_decimal, push_str, push_string, string_of, string_views, join_strings};

verus! {

#[derive(Debug, Clone, Copy, PartialEq, Eq, Structural, Hash)]
pub struct CellCoord {
    pub row: u32,
    pub col: u32,
}

#[derive(Debug, Clone, Copy, PartialEq, Eq, Structural, Hash)]
pub struct AddressMode {
    pub row_absolute: bool,
    pub col_absolute: bool,
}

impl Default for AddressMode {
    fn default() -> (r: AddressMode)
        ensures
            !r.row_absolute && !r.col_absolute,
    {
        AddressMode { row_absolute: false, col_absolute: false }
    }
}

/// The relative address mode, neither axis absolute.
pub open spec fn relative_mode() -> AddressMode {
    AddressMode { row_absolute: false, col_absolute: false }
}

#[derive(Debug, Clone, PartialEq, Eq, Hash)]
pub struct CellRef {
    pub workbook_id: String,
    pub sheet_id: String,
    pub coord: CellCoord,
    pub address_mode: AddressMode,
    pub caller_anchor_used: bool,
}

pub struct CellRefModel {
    pub workbook_id: Seq<char>,
    pub sheet_id: Seq<char>,
    pub coord: CellCoord,
    pub address_mode: AddressMode,
    pub caller_anchor_used: bool,
}

impl CellRef {
    pub open spec fn model(&self) -> CellRefModel {
        CellRefModel {
            workbook_id: self.workbook_id@,
            sheet_id: self.sheet_id@,
            coord: self.coord,
            address_mode: self.address_mode,
            caller_anchor_used: self.caller_anchor_used,
        }
    }

    pub fn duplicate(&self) -> (r: CellRef)
        ensures
            r.model() == self.model(),
    {
        CellRef {
            workbook_id: self.workbook_id.clone(),
            sheet_id: self.sheet_id.clone(),
            coord: self.coord,
            address_mode: self.address_mode,
            caller_anchor_used: self.caller_anchor_used,
        }
    }
}

#[derive(Debug, Clone, PartialEq, Eq, Hash)]
pub struct AreaRef {
    pub workbook_id: String,
    pub sheet_id: String,
    pub top_left: CellCoord,
    pub height: u32,
    pub width: u32,
    pub address_mode: AddressMode,
    pub caller_anchor_used: bool,
}

pub struct AreaRefModel {
    pub workbook_id: Seq<char>,
    pub sheet_id: Seq<char>,
    pub top_left: CellCoord,
    pub height: u32,
    pub width: u32,
    pub address_mode: AddressMode,
    pub caller_anchor_used: bool,
}

impl AreaRef {
    pub open spec fn model(&self) -> AreaRefModel {
        AreaRefModel {
            workbook_id: self.workbook_id@,
            sheet_id: self.sheet_id@,
            top_left: self.top_left,
            height: self.height,
            width: self.width,
            address_mode: self.address_mode,
            caller_anchor_used: self.caller_anchor_used,
        }
    }

    pub fn duplicate(&self) -> (r: AreaRef)
        ensures
            r.model() == self.model(),
    {
        AreaRef {
            workbook_id: self.workbook_id.clone(),
            sheet_id: self.sheet_id.clone(),
            top_left: self.top_left,
            height: self.height,
            width: self.width,
            address_mode: self.address_mode,
            caller_anchor_used: self.caller_anchor_used,
        }
    }
}

#[derive(Debug, Clone, PartialEq, Eq, Hash)]
pub struct WholeRowRef {
    pub workbook_id: String,
    pub sheet_id: String,
    pub row_start: u32,
    pub row_count: u32,
    pub address_mode: AddressMode,
}

pub struct WholeRowRefModel {
    pub workbook_id: Seq<char>,
    pub sheet_id: Seq<char>,
    pub row_start: u32,
    pub row_count: u32,
    pub address_mode: AddressMode,
}

impl WholeRowRef {
    pub fn duplicate(&self) -> (r: WholeRowRef)
        ensures
            r.model() == self.model(),
    {
        WholeRowRef {
            workbook_id: self.workbook_id.clone(),
            sheet_id: self.sheet_id.clone(),
            row_start: self.row_start,
            row_count: self.row_count,
            address_mode: self.address_mode,
        }
    }

    pub open spec fn model(&self) -> WholeRowRefModel {
        WholeRowRefModel {
            workbook_id: self.workbook_id@,
            sheet_id: self.sheet_id@,
            row_start: self.row_start,
            row_count: self.row_count,
            address_mode: self.address_mode,
        }
    }
}

#[derive(Debug, Clone, PartialEq, Eq, Hash)]
pub struct WholeColumnRef {
    pub workbook_id: String,
    pub sheet_id: String,
    pub col_start: u32,
    pub col_count: u32,
    pub address_mode: AddressMode,
}

pub struct WholeColumnRefModel {
    pub workbook_id: Seq<char>,
    pub sheet_id: Seq<char>,
    pub col_start: u32,
    pub col_count: u32,
    pub address_mode: AddressMode,
}

impl WholeColumnRef {
    pub fn duplicate(&self) -> (r: WholeColumnRef)
        ensures
            r.model() == self.model(),
    {
        WholeColumnRef {
            workbook_id: self.workbook_id.clone(),
            sheet_id: self.sheet_id.clone(),
            col_start: self.col_start,
            col_count: self.col_count,
            address_mode: self.address_mode,
        }
    }

    pub open spec fn model(&self) -> WholeColumnRefModel {
        WholeColumnRefModel {
            workbook_id: self.workbook_id@,
            sheet_id: self.sheet_id@,
            col_start: self.col_start,
            col_count: self.col_count,
            address_mode: self.address_mode,
        }
    }
}

#[derive(Debug, Clone, Copy, PartialEq, Eq, Structural, Hash)]
pub enum NameKind {
    ReferenceLike,
    ValueLike,
    MixedOrDeferred,
    HelperLocal,
}

#[derive(Debug, Clone, PartialEq, Eq, Hash)]
pub struct NameRef {
    pub name: String,
    pub workbook_id: String,
    pub sheet_id: String,
    pub kind: NameKind,
    pub caller_context_dependent: bool,
}

pub struct NameRefModel {
    pub name: Seq<char>,
    pub workbook_id: Seq<char>,
    pub sheet_id: Seq<char>,
    pub kind: NameKind,
    pub caller_context_dependent: bool,
}

impl NameRef {
    pub fn duplicate(&self) -> (r: NameRef)
        ensures
            r.model() == self.model(),
    {
        NameRef {
            name: self.name.clone(),
            workbook_id: self.workbook_id.clone(),
            sheet_id: self.sheet_id.clone(),
            kind: self.kind,
            caller_context_dependent: self.caller_context_dependent,
        }
    }

    pub open spec fn model(&self) -> NameRefModel {
        NameRefModel {
            name: self.name@,
            workbook_id: self.workbook_id@,
            sheet_id: self.sheet_id@,
            kind: self.kind,
            caller_context_dependent: self.caller_context_dependent,
        }
    }
}

#[derive(Debug, Clone, PartialEq, Eq, Hash)]
pub struct ErrorRef {
    pub error_class: String,
    pub source_text: String,
}

pub struct ErrorRefModel {
    pub error_class: Seq<char>,
    pub source_text: Seq<char>,
}

impl ErrorRef {
    pub fn duplicate(&self) -> (r: ErrorRef)
        ensures
            r.model() == self.model(),
    {
        ErrorRef { error_class: self.error_class.clone(), source_text: self.source_text.clone() }
    }

    pub open spec fn model(&self) -> ErrorRefModel {
        ErrorRefModel { error_class: self.error_class@, source_text: self.source_text@ }
    }
}

#[derive(Debug, Clone, PartialEq, Eq, Hash)]
pub struct ExternalRef {
    pub external_target_id: String,
    pub sheet_selector_summary: String,
    pub capability_requirement: String,
    pub external_reference_class: String,
    pub target_summary: String,
}

pub struct ExternalRefModel {
    pub external_target_id: Seq<char>,
    pub sheet_selector_summary: Seq<char>,
    pub capability_requirement: Seq<char>,
    pub external_reference_class: Seq<char>,
    pub target_summary: Seq<char>,
}

impl ExternalRef {
    pub fn duplicate(&self) -> (r: ExternalRef)
        ensures
            r.model() == self.model(),
    {
        ExternalRef {
            external_target_id: self.external_target_id.clone(),
            sheet_selector_summary: self.sheet_selector_summary.clone(),
            capability_requirement: self.capability_requirement.clone(),
            external_reference_class: self.external_reference_class.clone(),
            target_summary: self.target_summary.clone(),
        }
    }

    pub open spec fn model(&self) -> ExternalRefModel {
        ExternalRefModel {
            external_target_id: self.external_target_id@,
            sheet_selector_summary: self.sheet_selector_summary@,
            capability_requirement: self.capability_requirement@,
            external_reference_class: self.external_reference_class@,
            target_summary: self.target_summary@,
        }
    }
}

#[derive(Debug, Clone, Copy, PartialEq, Eq, Structural, Hash)]
pub enum StructuredSectionKind {
    All,
    Data,
    Headers,
    Totals,
    ThisRow,
}

#[derive(Debug, Clone, Copy, PartialEq, Eq, Structural, Hash)]
pub enum StructuredSelectorKind {
    Section,
    Column,
    ThisRowColumn,
    SectionColumn,
}

#[derive(Debug, Clone, PartialEq, Eq, Hash)]
pub enum StructuredResolvedRef {
    Cell(CellRef),
    Area(AreaRef),
    EmptyArea(StructuredEmptyAreaRef),
}

pub enum StructuredResolvedRefModel {
    Cell(CellRefModel),
    Area(AreaRefModel),
    EmptyArea(StructuredEmptyAreaRefModel),
}

impl StructuredResolvedRef {
    pub fn duplicate(&self) -> (r: StructuredResolvedRef)
        ensures
            r.model() == self.model(),
    {
        match self {
            StructuredResolvedRef::Cell(c) => StructuredResolvedRef::Cell(c.duplicate()),
            StructuredResolvedRef::Area(a) => StructuredResolvedRef::Area(a.duplicate()),
            StructuredResolvedRef::EmptyArea(e) => StructuredResolvedRef::EmptyArea(e.duplicate()),
        }
    }

    pub open spec fn model(&self) -> StructuredResolvedRefModel {
        match self {
            StructuredResolvedRef::Cell(c) => StructuredResolvedRefModel::Cell(c.model()),
            StructuredResolvedRef::Area(a) => StructuredResolvedRefModel::Area(a.model()),
            StructuredResolvedRef::EmptyArea(e) => StructuredResolvedRefModel::EmptyArea(e.model()),
        }
    }
}

#[derive(Debug, Clone, PartialEq, Eq, Hash)]
pub struct StructuredEmptyAreaRef {
    pub workbook_id: String,
    pub sheet_id: String,
    pub section_kind: StructuredSectionKind,
    pub selected_column_ids: Vec<String>,
    pub column_count: u32,
    pub row_membership_identity: Option<String>,
    pub row_order_identity: Option<String>,
}

pub struct StructuredEmptyAreaRefModel {
    pub workbook_id: Seq<char>,
    pub sheet_id: Seq<char>,
    pub section_kind: StructuredSectionKind,
    pub selected_column_ids: Seq<Seq<char>>,
    pub column_count: u32,
    pub row_membership_identity: Option<Seq<char>>,
    pub row_order_identity: Option<Seq<char>>,
}

/// A copy of a vector of strings.
pub fn copy_strings(v: &Vec<String>) -> (r: Vec<String>)
    ensures
        string_views(r@) == string_views(v@),
{
    let mut r: Vec<String> = Vec::new();
    let mut i: usize = 0;
    while i < v.len()
        invariant
            i <= v@.len(),
            string_views(r@) == string_views(v@.take(i as int)),
        decreases v.len() - i,
    {
        r.push(v[i].clone());
        i = i + 1;
        assert(string_views(v@.take(i as int)) =~= string_views(v@.take(i - 1)).push(v@[i - 1]@));
        assert(string_views(r@) =~= string_views(v@.take(i - 1)).push(v@[i - 1]@));
    }
    assert(v@.take(v@.len() as int) =~= v@);
    r
}

/// A copy of a list of sections.
pub fn copy_sections(v: &Vec<StructuredSectionKind>) -> (r: Vec<StructuredSectionKind>)
    ensures
        r@ == v@,
{
    let mut r: Vec<StructuredSectionKind> = Vec::new();
    let mut i: usize = 0;
    while i < v.len()
        invariant
            i <= v@.len(),
            r@ == v@.take(i as int),
        decreases v.len() - i,
    {
        r.push(v[i]);
        i = i + 1;
        assert(r@ =~= v@.take(i as int));
    }
    assert(v@.take(v@.len() as int) =~= v@);
    r
}

/// View of an optional string.
pub open spec fn opt_view(o: Option<String>) -> Option<Seq<char>> {
    match o {
        Some(s) => Some(s@),
        None => None,
    }
}

impl StructuredEmptyAreaRef {
    pub fn duplicate(&self) -> (r: StructuredEmptyAreaRef)
        ensures
            r.model() == self.model(),
    {
        StructuredEmptyAreaRef {
            workbook_id: self.workbook_id.clone(),
            sheet_id: self.sheet_id.clone(),
            section_kind: self.section_kind,
            selected_column_ids: copy_strings(&self.selected_column_ids),
            column_count: self.column_count,
            row_membership_identity: copy_opt_string(&self.row_membership_identity),
            row_order_identity: copy_opt_string(&self.row_order_identity),
        }
    }

    pub open spec fn model(&self) -> StructuredEmptyAreaRefModel {
        StructuredEmptyAreaRefModel {
            workbook_id: self.workbook_id@,
            sheet_id: self.sheet_id@,
            section_kind: self.section_kind,
            selected_column_ids: string_views(self.selected_column_ids@),
            column_count: self.column_count,
            row_membership_identity: opt_view(self.row_membership_identity),
            row_order_identity: opt_view(self.row_order_identity),
        }
    }
}

#[derive(Debug, Clone, PartialEq, Eq, Hash)]
pub struct StructuredRef {
    pub table_id: String,
    pub table_name: String,
    pub selector_kind: StructuredSelectorKind,
    pub section_qualifiers: Vec<StructuredSectionKind>,
    pub selected_column_ids: Vec<String>,
    pub caller_row_sensitive: bool,
    pub workbook_scope_ref: String,
    pub sheet_scope_ref: String,
    pub resolved_reference: StructuredResolvedRef,
}

pub struct StructuredRefModel {
    pub table_id: Seq<char>,
    pub table_name: Seq<char>,
    pub selector_kind: StructuredSelectorKind,
    pub section_qualifiers: Seq<StructuredSectionKind>,
    pub selected_column_ids: Seq<Seq<char>>,
    pub caller_row_sensitive: bool,
    pub workbook_scope_ref: Seq<char>,
    pub sheet_scope_ref: Seq<char>,
    pub resolved_reference: StructuredResolvedRefModel,
}

impl StructuredRef {
    pub fn duplicate(&self) -> (r: StructuredRef)
        ensures
            r.model() == self.model(),
    {
        StructuredRef {
            table_id: self.table_id.clone(),
            table_name: self.table_name.clone(),
            selector_kind: self.selector_kind,
            section_qualifiers: copy_sections(&self.section_qualifiers),
            selected_column_ids: copy_strings(&self.selected_column_ids),
            caller_row_sensitive: self.caller_row_sensitive,
            workbook_scope_ref: self.workbook_scope_ref.clone(),
            sheet_scope_ref: self.sheet_scope_ref.clone(),
            resolved_reference: self.resolved_reference.duplicate(),
        }
    }

    pub open spec fn model(&self) -> StructuredRefModel {
        StructuredRefModel {
            table_id: self.table_id@,
            table_name: self.table_name@,
            selector_kind: self.selector_kind,
            section_qualifiers: self.section_qualifiers@,
            selected_column_ids: string_views(self.selected_column_ids@),
            caller_row_sensitive: self.caller_row_sensitive,
            workbook_scope_ref: self.workbook_scope_ref@,
            sheet_scope_ref: self.sheet_scope_ref@,
            resolved_reference: self.resolved_reference.model(),
        }
    }
}

#[derive(Debug, Clone, PartialEq, Eq, Hash)]
pub struct StructuredReferenceSelectedRegion {
    pub section_kind: StructuredSectionKind,
    pub region_ref: Option<String>,
    pub column_range_refs: Vec<String>,
    pub is_empty: bool,
}

#[derive(Debug, Clone, PartialEq, Eq, Hash)]
pub struct StructuredReferenceBindDiagnosticLink {
    pub diagnostic_code: String,
    pub message: String,
    pub source_span_utf8: TextSpan,
}

#[derive(Debug, Clone, Copy, PartialEq, Eq, Structural, Hash)]
pub enum StructuredReferenceSourceTokenKind {
    StructuredReference,
}

#[derive(Debug, Clone, PartialEq, Eq, Hash)]
pub struct StructuredReferenceBindRecord {
    pub bind_record_handle: String,
    pub source_span_utf8: TextSpan,
    pub source_token_text: String,
    pub source_token_kind: StructuredReferenceSourceTokenKind,
    pub explicit_table_name: Option<String>,
    pub omitted_table_name: bool,
    pub effective_table_id: Option<String>,
    pub effective_table_name: Option<String>,
    pub selected_column_ids: Vec<String>,
    pub selected_sections: Vec<StructuredSectionKind>,
    pub selected_regions: Vec<StructuredReferenceSelectedRegion>,
    pub uses_this_row: bool,
    pub caller_context_dependent: bool,
    pub resolved_reference: Option<StructuredResolvedRef>,
    pub diagnostics: Vec<StructuredReferenceBindDiagnosticLink>,
}

#[derive(Debug, Clone, PartialEq, Eq, Hash)]
pub enum NormalizedReference {
    Cell(CellRef),
    Area(AreaRef),
    WholeRow(WholeRowRef),
    WholeColumn(WholeColumnRef),
    Name(NameRef),
    External(ExternalRef),
    Structured(StructuredRef),
    ProfileSymbolic(ProfileReferenceRecord),
    Error(ErrorRef),
}

pub enum NormalizedReferenceModel {
    Cell(CellRefModel),
    Area(AreaRefModel),
    WholeRow(WholeRowRefModel),
    WholeColumn(WholeColumnRefModel),
    Name(NameRefModel),
    External(ExternalRefModel),
    Structured(StructuredRefModel),
    ProfileSymbolic(ProfileReferenceRecordModel),
    Error(ErrorRefModel),
}

impl NormalizedReference {
    pub fn duplicate(&self) -> (r: NormalizedReference)
        ensures
            r.model() == self.model(),
    {
        match self {
            NormalizedReference::Cell(x) => NormalizedReference::Cell(x.duplicate()),
            NormalizedReference::Area(x) => NormalizedReference::Area(x.duplicate()),
            NormalizedReference::WholeRow(x) => NormalizedReference::WholeRow(x.duplicate()),
            NormalizedReference::WholeColumn(x) => NormalizedReference::WholeColumn(x.duplicate()),
            NormalizedReference::Name(x) => NormalizedReference::Name(x.duplicate()),
            NormalizedReference::External(x) => NormalizedReference::External(x.duplicate()),
            NormalizedReference::Structured(x) => NormalizedReference::Structured(x.duplicate()),
            NormalizedReference::ProfileSymbolic(x) => NormalizedReference::ProfileSymbolic(x.duplicate()),
            NormalizedReference::Error(x) => NormalizedReference::Error(x.duplicate()),
        }
    }

    pub open spec fn model(&self) -> NormalizedReferenceModel {
        match self {
            NormalizedReference::Cell(x) => NormalizedReferenceModel::Cell(x.model()),
            NormalizedReference::Area(x) => NormalizedReferenceModel::Area(x.model()),
            NormalizedReference::WholeRow(x) => NormalizedReferenceModel::WholeRow(x.model()),
            NormalizedReference::WholeColumn(x) => NormalizedReferenceModel::WholeColumn(x.model()),
            NormalizedReference::Name(x) => NormalizedReferenceModel::Name(x.model()),
            NormalizedReference::External(x) => NormalizedReferenceModel::External(x.model()),
            NormalizedReference::Structured(x) => NormalizedReferenceModel::Structured(x.model()),
            NormalizedReference::ProfileSymbolic(x) => NormalizedReferenceModel::ProfileSymbolic(x.model()),
            NormalizedReference::Error(x) => NormalizedReferenceModel::Error(x.model()),
        }
    }

    /// The display text of this reference, as its dependency summary.
    pub fn to_string(&self) -> (r: String)
        ensures
            r@ == render_reference(self.model()),
    {
        let mut v: Vec<char> = Vec::new();
        match self {
            NormalizedReference::Cell(cell) => {
                push_string(&mut v, &cell.sheet_id);
                push_str(&mut v, "!R");
                push_decimal(&mut v, cell.coord.row as u64);
                push_str(&mut v, "C");
                push_decimal(&mut v, cell.coord.col as u64);
            },
            NormalizedReference::Area(area) => {
                push_string(&mut v, &area.sheet_id);
                push_str(&mut v, "!R");
                push_decimal(&mut v, area.top_left.row as u64);
                push_str(&mut v, "C");
                push_decimal(&mut v, area.top_left.col as u64);
                push_str(&mut v, ":");
                push_decimal(&mut v, area.height as u64);
                push_str(&mut v, "x");
                push_decimal(&mut v, area.width as u64);
            },
            NormalizedReference::WholeRow(rows) => {
                push_string(&mut v, &rows.sheet_id);
                push_str(&mut v, "!R");
                push_decimal(&mut v, rows.row_start as u64);
                push_str(&mut v, ":R");
                push_decimal(&mut v, (rows.row_start as i64 + rows.row_count as i64 - 1) as u32 as u64);
            },
            NormalizedReference::WholeColumn(cols) => {
                push_string(&mut v, &cols.sheet_id);
                push_str(&mut v, "!C");
                push_decimal(&mut v, cols.col_start as u64);
                push_str(&mut v, ":C");
                push_decimal(&mut v, (cols.col_start as i64 + cols.col_count as i64 - 1) as u32 as u64);
            },
            NormalizedReference::Name(name) => {
                push_str(&mut v, "name:");
                push_string(&mut v, &name.name);
            },
            NormalizedReference::External(external) => {
                push_str(&mut v, "external:");
                push_string(&mut v, &external.target_summary);
            },
            NormalizedReference::Structured(structured) => {
                push_str(&mut v, "structured:");
                push_string(&mut v, &structured.table_id);
                push_str(&mut v, ":");
                match structured.selector_kind {
                    StructuredSelectorKind::Section => push_str(&mut v, "Section"),
                    StructuredSelectorKind::Column => push_str(&mut v, "Column"),
                    StructuredSelectorKind::ThisRowColumn => push_str(&mut v, "ThisRowColumn"),
                    StructuredSelectorKind::SectionColumn => push_str(&mut v, "SectionColumn"),
                }
                push_str(&mut v, ":");
                let joined = join_strings(&structured.selected_column_ids, "|");
                push_chars(&mut v, &joined);
            },
            NormalizedReference::ProfileSymbolic(record) => {
                push_str(&mut v, "profile-symbolic:");
                push_string(&mut v, &record.profile_id);
                push_str(&mut v, ":");
                push_string(&mut v, &record.normal_form_key.0);
            },
            NormalizedReference::Error(error) => {
                push_str(&mut v, "error:");
                push_string(&mut v, &error.error_class);
            },
        }
        string_of(&v)
    }
}

/// Name of a structured selector kind as it appears in summaries.
pub open spec fn selector_kind_text(k: StructuredSelectorKind) -> Seq<char> {
    match k {
        StructuredSelectorKind::Section => "Section"@,
        StructuredSelectorKind::Column => "Column"@,
        StructuredSelectorKind::ThisRowColumn => "ThisRowColumn"@,
        StructuredSelectorKind::SectionColumn => "SectionColumn"@,
    }
}

/// The display text of a normalized reference: `sheet!R<row>C<col>` for a
/// cell, `sheet!R<row>C<col>:<height>x<width>` for an area, row and column
/// spans as `sheet!R<a>:R<b>` and `sheet!C<a>:C<b>`, and a tagged form for the rest.
pub open spec fn render_reference(r: NormalizedReferenceModel) -> Seq<char> {
    match r {
        NormalizedReferenceModel::Cell(c) => c.sheet_id + "!R"@ + decimal(c.coord.row as nat) + "C"@
            + decimal(c.coord.col as nat),
        NormalizedReferenceModel::Area(a) => a.sheet_id + "!R"@ + decimal(a.top_left.row as nat) + "C"@
            + decimal(a.top_left.col as nat) + ":"@ + decimal(a.height as nat) + "x"@ + decimal(a.width as nat),
        NormalizedReferenceModel::WholeRow(w) => w.sheet_id + "!R"@ + decimal(w.row_start as nat) + ":R"@
            + decimal(((w.row_start + w.row_count - 1) as u32) as nat),
        NormalizedReferenceModel::WholeColumn(w) => w.sheet_id + "!C"@ + decimal(w.col_start as nat) + ":C"@
            + decimal(((w.col_start + w.col_count - 1) as u32) as nat),
        NormalizedReferenceModel::Name(n) => "name:"@ + n.name,
        NormalizedReferenceModel::External(e) => "external:"@ + e.target_summary,
        NormalizedReferenceModel::Structured(s) => "structured:"@ + s.table_id + ":"@
            + selector_kind_text(s.selector_kind) + ":"@ + join(s.selected_column_ids, "|"@),
        NormalizedReferenceModel::ProfileSymbolic(p) => "profile-symbolic:"@ + p.profile_id + ":"@
            + p.normal_form_key,
        NormalizedReferenceModel::Error(e) => "error:"@ + e.error_class,
    }
}

#[derive(Debug, PartialEq, Eq, Hash)]
pub enum ReferenceExpr {
    Atom(NormalizedReference),
    Range { start: Box<ReferenceExpr>, end: Box<ReferenceExpr> },
    Union { left: Box<ReferenceExpr>, right: Box<ReferenceExpr> },
    Intersection { left: Box<ReferenceExpr>, right: Box<ReferenceExpr> },
    Spill { anchor: Box<ReferenceExpr> },
}

pub enum ReferenceExprModel {
    Atom(NormalizedReferenceModel),
    Range { start: Box<ReferenceExprModel>, end: Box<ReferenceExprModel> },
    Union { left: Box<ReferenceExprModel>, right: Box<ReferenceExprModel> },
    Intersection { left: Box<ReferenceExprModel>, right: Box<ReferenceExprModel> },
    Spill { anchor: Box<ReferenceExprModel> },
}

impl ReferenceExpr {
    /// A copy with the same model.
    pub fn duplicate(&self) -> (r: ReferenceExpr)
        ensures
            r.model() == self.model(),
        decreases self,
    {
        match self {
            ReferenceExpr::Atom(a) => ReferenceExpr::Atom(a.duplicate()),
            ReferenceExpr::Range { start, end } => ReferenceExpr::Range {
                start: Box::new(start.duplicate()),
                end: Box::new(end.duplicate()),
            },
            ReferenceExpr::Union { left, right } => ReferenceExpr::Union {
                left: Box::new(left.duplicate()),
                right: Box::new(right.duplicate()),
            },
            ReferenceExpr::Intersection { left, right } => ReferenceExpr::Intersection {
                left: Box::new(left.duplicate()),
                right: Box::new(right.duplicate()),
            },
            ReferenceExpr::Spill { anchor } => ReferenceExpr::Spill { anchor: Box::new(anchor.duplicate()) },
        }
    }

    pub open spec fn model(&self) -> ReferenceExprModel
        decreases self,
    {
        match self {
            ReferenceExpr::Atom(a) => ReferenceExprModel::Atom(a.model()),
            ReferenceExpr::Range { start, end } => ReferenceExprModel::Range {
                start: Box::new(start.model()),
                end: Box::new(end.model()),
            },
            ReferenceExpr::Union { left, right } => ReferenceExprModel::Union {
                left: Box::new(left.model()),
                right: Box::new(right.model()),
            },
            ReferenceExpr::Intersection { left, right } => ReferenceExprModel::Intersection {
                left: Box::new(left.model()),
                right: Box::new(right.model()),
            },
            ReferenceExpr::Spill { anchor } => ReferenceExprModel::Spill { anchor: Box::new(anchor.model()) },
        }
    }
}

} // verus!
