use oxfml_core::consumer::editor::compose::{
    compose_host_name, compose_host_reference_text, compose_member_selector_token, compose_owner_relative_selector_token,
    escape_bracketed_host_reference_text, is_formula_literal_identifier, is_plain_host_name_identifier,
    HostCollectionMemberSyntax, HostReferenceSyntaxProfile, HostStructuralSelectorSyntax,
};
use oxfml_core::consumer::editor::types::{EditorHostReferenceInsertionError, EditorHostReferenceTarget};

fn chars(s: &str) -> Vec<char> {
    s.chars().collect()
}

fn text(v: Vec<char>) -> String {
    v.into_iter().collect()
}

fn profile() -> HostReferenceSyntaxProfile {
    HostReferenceSyntaxProfile {
        collection_members: vec![
            HostCollectionMemberSyntax { collection_family: "rows".to_string(), token_text: "Rows".to_string() },
            HostCollectionMemberSyntax { collection_family: "all".to_string(), token_text: "*".to_string() },
            HostCollectionMemberSyntax { collection_family: "rows".to_string(), token_text: "Second".to_string() },
        ],
        structural_selectors: vec![HostStructuralSelectorSyntax {
            selector_family: "header".to_string(),
            token_text: "#Headers".to_string(),
        }],
    }
}

#[test]
fn plain_names_stand_bare() {
    assert!(is_plain_host_name_identifier(&chars("Revenue_2024")));
    assert!(is_plain_host_name_identifier(&chars("$total")));
    assert!(!is_plain_host_name_identifier(&chars("2024Revenue")));
    assert!(!is_plain_host_name_identifier(&chars("net income")));
    assert_eq!(compose_host_name(&chars("Revenue")), Ok("Revenue".to_string()));
}

#[test]
fn literal_looking_names_are_bracketed() {
    assert!(is_formula_literal_identifier(&chars("true")));
    assert!(is_formula_literal_identifier(&chars("#N/A")));
    assert!(!is_formula_literal_identifier(&chars("TRUTH")));
    assert_eq!(compose_host_name(&chars("TRUE")), Ok("[TRUE]".to_string()));
    assert_eq!(compose_host_name(&chars("net income")), Ok("[net income]".to_string()));
}

#[test]
fn brackets_escape_special_characters() {
    assert_eq!(text(escape_bracketed_host_reference_text(&chars("a[1]#b@c'd"))), "a'[1']'#b'@c''d");
    assert_eq!(compose_host_name(&chars("x]y")), Ok("[x']y]".to_string()));
}

#[test]
fn empty_host_name_is_refused() {
    assert_eq!(compose_host_name(&chars("")), Err(EditorHostReferenceInsertionError::EmptyHostName));
}

#[test]
fn member_tokens_get_an_at_sign() {
    assert_eq!(text(compose_member_selector_token(&chars("Rows"))), "@Rows");
    assert_eq!(text(compose_member_selector_token(&chars("@Rows"))), "@Rows");
    assert_eq!(text(compose_member_selector_token(&chars("*"))), "*");
    assert_eq!(text(compose_owner_relative_selector_token(&chars("*"))), ".*");
    assert_eq!(text(compose_owner_relative_selector_token(&chars("Rows"))), "@Rows");
}

#[test]
fn collection_references_use_the_first_matching_member() {
    let target = EditorHostReferenceTarget::HostReferenceCollection {
        base_canonical_name: Some("Orders".to_string()),
        collection_family: "rows".to_string(),
    };
    assert_eq!(compose_host_reference_text(&target, &profile()), Ok("Orders.@Rows".to_string()));
    let relative = EditorHostReferenceTarget::HostReferenceCollection {
        base_canonical_name: None,
        collection_family: "all".to_string(),
    };
    assert_eq!(compose_host_reference_text(&relative, &profile()), Ok(".*".to_string()));
    let unknown = EditorHostReferenceTarget::HostReferenceCollection {
        base_canonical_name: None,
        collection_family: "cols".to_string(),
    };
    assert_eq!(
        compose_host_reference_text(&unknown, &profile()),
        Err(EditorHostReferenceInsertionError::UnknownCollectionFamily("cols".to_string()))
    );
    let empty = EditorHostReferenceTarget::HostReferenceCollection {
        base_canonical_name: None,
        collection_family: String::new(),
    };
    assert_eq!(compose_host_reference_text(&empty, &profile()), Err(EditorHostReferenceInsertionError::EmptySelectorFamily));
}

#[test]
fn structural_selectors_follow_their_base() {
    let target = EditorHostReferenceTarget::HostStructuralSelector {
        base_canonical_name: "net sales".to_string(),
        selector_family: "header".to_string(),
    };
    assert_eq!(compose_host_reference_text(&target, &profile()), Ok("[net sales].@#Headers".to_string()));
    let unknown = EditorHostReferenceTarget::HostStructuralSelector {
        base_canonical_name: "Orders".to_string(),
        selector_family: "footer".to_string(),
    };
    assert_eq!(
        compose_host_reference_text(&unknown, &profile()),
        Err(EditorHostReferenceInsertionError::UnknownStructuralSelectorFamily("footer".to_string()))
    );
}
