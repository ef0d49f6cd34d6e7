use oxfml_core::consumer::runtime::formal::formal_input_binding_name;
use oxfml_core::consumer::runtime::versions::runtime_metadata_version_summary;

fn strings(items: &[&str]) -> Vec<String> {
    items.iter().map(|s| s.to_string()).collect()
}

#[test]
fn no_version_gives_no_summary() {
    assert_eq!(runtime_metadata_version_summary(Vec::new(), "semantic_kernel"), None);
}

#[test]
fn agreeing_versions_summarize_as_themselves() {
    assert_eq!(runtime_metadata_version_summary(strings(&["v2", "v2"]), "semantic_kernel"), Some("v2".to_string()));
}

#[test]
fn distinct_versions_are_listed_in_order() {
    assert_eq!(
        runtime_metadata_version_summary(strings(&["v2", "v1", "v2"]), "semantic_kernel"),
        Some("semantic_kernel.set.v1;v1|v2".to_string())
    );
    assert_eq!(
        runtime_metadata_version_summary(strings(&["é", "z", "Z"]), "arg"),
        Some("arg.set.v1;Z|z|é".to_string())
    );
}

#[test]
fn summary_ignores_order_and_repetition() {
    let a = runtime_metadata_version_summary(strings(&["b", "a", "c", "a"]), "f");
    let b = runtime_metadata_version_summary(strings(&["c", "b", "a"]), "f");
    assert_eq!(a, b);
}

#[test]
fn formal_input_names_drop_the_name_tag() {
    assert_eq!(formal_input_binding_name("name:Rate"), "Rate");
    assert_eq!(formal_input_binding_name("Sheet1!R1C1"), "Sheet1!R1C1");
    assert_eq!(formal_input_binding_name("name"), "name");
}
