use oxfml_core::binding::parse::{
    a1_cell, column_to_index, parse_r1c1_cell_reference, parse_r1c1_column_reference, parse_r1c1_row_reference,
    parse_reference_qualifier, r1c1_cell,
};
use oxfml_core::binding::reference::{
    AddressMode, AreaRef, CellCoord, CellRef, ErrorRef, NameKind, NameRef, NormalizedReference, StructuredResolvedRef,
    StructuredSectionKind, WholeRowRef,
};
use oxfml_core::binding::structured::{build_structured_reference, parse_structured_reference_text};
use oxfml_core::binding::BindContext;
use oxfml_core::interface::{TableColumnDescriptor, TableDescriptor};
use oxfml_core::source::FormulaChannelKind;

fn chars(s: &str) -> Vec<char> {
    s.chars().collect()
}

fn relative() -> AddressMode {
    AddressMode { row_absolute: false, col_absolute: false }
}

#[test]
fn column_labels_read_in_bijective_base_26() {
    assert_eq!(column_to_index(&chars("A")), Some(1));
    assert_eq!(column_to_index(&chars("z")), Some(26));
    assert_eq!(column_to_index(&chars("AA")), Some(27));
    assert_eq!(column_to_index(&chars("XFD")), Some(16384));
    assert_eq!(column_to_index(&chars("A1")), None);
}

#[test]
fn a1_cells_allow_dollars() {
    assert_eq!(a1_cell(&chars("$B$3")), Some(CellCoord { row: 3, col: 2 }));
    assert_eq!(a1_cell(&chars("c10")), Some(CellCoord { row: 10, col: 3 }));
    assert_eq!(a1_cell(&chars("B")), None);
    assert_eq!(a1_cell(&chars("3")), None);
    assert_eq!(a1_cell(&chars("B3C")), None);
}

#[test]
fn r1c1_cells_resolve_relative_offsets_against_the_caller() {
    let (coord, mode, anchored) = r1c1_cell(&chars("R[1]C[-1]"), 5, 5).unwrap();
    assert_eq!(coord, CellCoord { row: 6, col: 4 });
    assert_eq!(mode, relative());
    assert!(anchored);
    let (coord, mode, anchored) = r1c1_cell(&chars("R2C3"), 5, 5).unwrap();
    assert_eq!(coord, CellCoord { row: 2, col: 3 });
    assert_eq!(mode, AddressMode { row_absolute: true, col_absolute: true });
    assert!(!anchored);
    assert!(r1c1_cell(&chars("R[-5]C1"), 5, 5).is_none());
    assert!(r1c1_cell(&chars("R1C1x"), 5, 5).is_none());
}

#[test]
fn qualifiers_read_quoted_and_external_sheets() {
    let q = parse_reference_qualifier(&chars("'It''s'"));
    assert_eq!(q.sheet_id, "It's");
    assert!(!q.is_external);
    let e = parse_reference_qualifier(&chars("[Book2.xlsx]Sheet1"));
    assert!(e.is_external);
    assert_eq!(e.sheet_id, "Sheet1");
    assert_eq!(e.external_target_id.as_deref(), Some("Book2.xlsx"));
    let bare = parse_reference_qualifier(&chars("[Book2.xlsx]"));
    assert_eq!(bare.sheet_id, "sheet:external");
}

#[test]
fn references_render_as_stable_descriptors() {
    let c = NormalizedReference::Cell(CellRef {
        workbook_id: "book:1".to_string(),
        sheet_id: "Sheet1".to_string(),
        coord: CellCoord { row: 3, col: 2 },
        address_mode: relative(),
        caller_anchor_used: false,
    });
    assert_eq!(c.to_string(), "Sheet1!R3C2");
    let a = NormalizedReference::Area(AreaRef {
        workbook_id: "book:1".to_string(),
        sheet_id: "Sheet1".to_string(),
        top_left: CellCoord { row: 1, col: 1 },
        height: 2,
        width: 3,
        address_mode: relative(),
        caller_anchor_used: false,
    });
    assert_eq!(a.to_string(), "Sheet1!R1C1:2x3");
    let rows = NormalizedReference::WholeRow(WholeRowRef {
        workbook_id: "book:1".to_string(),
        sheet_id: "Sheet1".to_string(),
        row_start: 2,
        row_count: 3,
        address_mode: relative(),
    });
    assert_eq!(rows.to_string(), "Sheet1!R2:R4");
    let n = NormalizedReference::Name(NameRef {
        name: "Rate".to_string(),
        workbook_id: "book:1".to_string(),
        sheet_id: "Sheet1".to_string(),
        kind: NameKind::ValueLike,
        caller_context_dependent: false,
    });
    assert_eq!(n.to_string(), "name:Rate");
    let e = NormalizedReference::Error(ErrorRef { error_class: "#REF!".to_string(), source_text: "x".to_string() });
    assert_eq!(e.to_string(), "error:#REF!");
}

fn table() -> TableDescriptor {
    let column = |id: &str, name: &str, ordinal: u32, range: &str| TableColumnDescriptor {
        column_id: id.to_string(),
        column_name: name.to_string(),
        ordinal,
        column_range_ref: range.to_string(),
    };
    TableDescriptor {
        table_id: "tbl:sales".to_string(),
        table_name: "Sales".to_string(),
        workbook_scope_ref: "book:default".to_string(),
        sheet_scope_ref: "sheet:default".to_string(),
        table_range_ref: "A1:C11".to_string(),
        header_row_present: true,
        totals_row_present: false,
        columns: vec![
            column("col:region", "Region", 1, "A2:A11"),
            column("col:amount", "Amount", 2, "B2:B11"),
            column("col:qty", "Qty", 3, "C2:C11"),
        ],
    }
}

fn context() -> BindContext {
    let mut ctx = BindContext::default();
    ctx.table_catalog = vec![table()];
    ctx
}

#[test]
fn structured_text_is_taken_apart() {
    let p = parse_structured_reference_text(&chars("Sales[[#Headers],[Amount]]")).unwrap();
    assert_eq!(p.table_name, Some(chars("Sales")));
    assert_eq!(p.section_qualifiers, vec![StructuredSectionKind::Headers]);
    assert_eq!(p.column_names, vec![chars("Amount")]);
    assert!(!p.caller_row_sensitive);
    let this_row = parse_structured_reference_text(&chars("[@Qty]")).unwrap();
    assert_eq!(this_row.table_name, None);
    assert_eq!(this_row.section_qualifiers, vec![StructuredSectionKind::ThisRow]);
    assert!(this_row.caller_row_sensitive);
    assert!(parse_structured_reference_text(&chars("Sales[Amount")).is_none());
}

#[test]
fn column_reference_resolves_to_its_data_body() {
    let p = parse_structured_reference_text(&chars("Sales[Amount]")).unwrap();
    let r = build_structured_reference(&p, &table(), &context(), FormulaChannelKind::WorksheetA1).unwrap();
    assert_eq!(r.table_id, "tbl:sales");
    assert_eq!(r.selected_column_ids, vec!["col:amount".to_string()]);
    match r.resolved_reference {
        StructuredResolvedRef::Area(area) => {
            assert_eq!(area.top_left, CellCoord { row: 2, col: 2 });
            assert_eq!((area.height, area.width), (10, 1));
        }
        other => panic!("unexpected target {other:?}"),
    }
}

#[test]
fn headers_of_one_column_are_one_cell() {
    let p = parse_structured_reference_text(&chars("Sales[[#Headers],[Amount]]")).unwrap();
    let r = build_structured_reference(&p, &table(), &context(), FormulaChannelKind::WorksheetA1).unwrap();
    match r.resolved_reference {
        StructuredResolvedRef::Cell(cell) => assert_eq!(cell.coord, CellCoord { row: 1, col: 2 }),
        other => panic!("unexpected target {other:?}"),
    }
}

#[test]
fn all_section_covers_the_whole_table() {
    let p = parse_structured_reference_text(&chars("Sales[#All]")).unwrap();
    let r = build_structured_reference(&p, &table(), &context(), FormulaChannelKind::WorksheetA1).unwrap();
    match r.resolved_reference {
        StructuredResolvedRef::Area(area) => {
            assert_eq!(area.top_left, CellCoord { row: 1, col: 1 });
            assert_eq!((area.height, area.width), (11, 3));
        }
        other => panic!("unexpected target {other:?}"),
    }
}

#[test]
fn totals_of_a_table_without_totals_are_refused() {
    let p = parse_structured_reference_text(&chars("Sales[#Totals]")).unwrap();
    let r = build_structured_reference(&p, &table(), &context(), FormulaChannelKind::WorksheetA1);
    assert_eq!(r.unwrap_err(), "structured reference requested #Total Row for a table without a totals row");
}

#[test]
fn unknown_column_is_refused() {
    let p = parse_structured_reference_text(&chars("Sales[Price]")).unwrap();
    assert!(build_structured_reference(&p, &table(), &context(), FormulaChannelKind::WorksheetA1).is_err());
}

#[test]
fn r1c1_cell_reference_binds_sheet_and_workbook() {
    let cell = parse_r1c1_cell_reference(&chars("R2C[1]"), &"sheet:1".to_string(), &"book:1".to_string(), 4, 6).unwrap();
    assert_eq!(cell.coord, CellCoord { row: 2, col: 7 });
    assert_eq!(cell.address_mode, AddressMode { row_absolute: true, col_absolute: false });
    assert!(cell.caller_anchor_used);
    assert_eq!(cell.sheet_id, "sheet:1");
    assert_eq!(cell.workbook_id, "book:1");
    assert_eq!(parse_r1c1_cell_reference(&chars("R2C3x"), &"s".to_string(), &"b".to_string(), 1, 1), None);
}

#[test]
fn r1c1_whole_row_and_column_endpoints_are_absolute_only() {
    assert_eq!(parse_r1c1_row_reference(&chars("R12")), Some(12));
    assert_eq!(parse_r1c1_row_reference(&chars("R[1]")), None);
    assert_eq!(parse_r1c1_row_reference(&chars("R")), None);
    assert_eq!(parse_r1c1_row_reference(&chars("C3")), None);
    assert_eq!(parse_r1c1_column_reference(&chars("C3")), Some(3));
    assert_eq!(parse_r1c1_column_reference(&chars("C[-1]")), None);
    assert_eq!(parse_r1c1_column_reference(&chars("R3")), None);
}
