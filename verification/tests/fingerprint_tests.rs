use oxfml_core::binding::fingerprint::{context_fingerprint_of, context_text_of, hex16_string};
use oxfml_core::binding::BindContext;
use oxfml_core::consumer::runtime::identity::runtime_table_context_fingerprint;
use oxfml_core::interface::{TableCallerRegion, TableDescriptor, TableRef, TableRegionKind};

fn is_hex16(s: &str) -> bool {
    s.len() == 16 && s.chars().all(|c| c.is_ascii_digit() || ('a'..='f').contains(&c))
}

#[test]
fn hex16_pads_to_sixteen_lowercase_digits() {
    assert_eq!(hex16_string(0), "0000000000000000");
    assert_eq!(hex16_string(255), "00000000000000ff");
    assert_eq!(hex16_string(u64::MAX), "ffffffffffffffff");
    assert_eq!(hex16_string(0x0123_4567_89ab_cdef), "0123456789abcdef");
}

#[test]
fn context_fingerprint_is_stable_and_tracks_the_context() {
    let a = BindContext::default();
    let mut b = BindContext::default();
    b.caller_row = 7;
    let fa = context_fingerprint_of(&a);
    assert!(is_hex16(&fa));
    assert_eq!(fa, context_fingerprint_of(&BindContext::default()));
    assert_ne!(fa, context_fingerprint_of(&b));
    assert_ne!(context_text_of(&a), context_text_of(&b));
}

fn table() -> TableDescriptor {
    TableDescriptor {
        table_id: "tbl:1".to_string(),
        table_name: "T".to_string(),
        workbook_scope_ref: "book:default".to_string(),
        sheet_scope_ref: "sheet:default".to_string(),
        table_range_ref: "A1:B3".to_string(),
        header_row_present: true,
        totals_row_present: false,
        columns: Vec::new(),
    }
}

#[test]
fn empty_table_context_has_no_fingerprint() {
    assert_eq!(runtime_table_context_fingerprint(&Vec::new(), &None, &None), None);
}

#[test]
fn table_context_fingerprint_tracks_catalog_and_region() {
    let catalog = vec![table()];
    let plain = runtime_table_context_fingerprint(&catalog, &None, &None).unwrap();
    assert!(is_hex16(&plain));
    assert_eq!(Some(plain.clone()), runtime_table_context_fingerprint(&catalog, &None, &None));
    let region = Some(TableCallerRegion { table_id: "tbl:1".to_string(), region_kind: TableRegionKind::Data, data_row_offset: Some(2) });
    let with_region = runtime_table_context_fingerprint(&catalog, &None, &region).unwrap();
    assert_ne!(plain, with_region);
    let enclosing_only = runtime_table_context_fingerprint(&Vec::new(), &Some(TableRef { table_id: "tbl:1".to_string() }), &None);
    assert!(enclosing_only.is_some());
}
