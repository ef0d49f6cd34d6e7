use oxfml_core::binding::profile::{
    ReferenceFingerprintPolicy, ReferencePolicy, ReferenceProfileFingerprintContext,
};
use oxfml_core::binding::ReferenceBindProfile;

struct IdOnlyProfile;

impl ReferenceBindProfile for IdOnlyProfile {
    fn profile_id(&self) -> &str {
        "host.grid"
    }
}

#[test]
fn reference_bind_profile_defaults_keep_legacy_behavior() {
    let profile = IdOnlyProfile;
    assert_eq!(profile.profile_version().0, "v1");
    assert_eq!(profile.reference_policy(), ReferencePolicy::LegacyCompatibility);
    assert_eq!(profile.fingerprint_policy(), ReferenceFingerprintPolicy::IncludeCallerAnchor);
    let caps = profile.operator_capabilities();
    assert!(caps.range && caps.union && caps.intersection && caps.spill);
    assert!(profile.selector_syntax().is_empty());
}

#[test]
fn reference_bind_profile_default_fingerprint_joins_id_and_version() {
    let profile = IdOnlyProfile;
    let context = ReferenceProfileFingerprintContext {
        workbook_id: "book".to_string(),
        sheet_id: "sheet:1".to_string(),
        caller_row: 1,
        caller_col: 1,
        structure_context_version: "s1".to_string(),
    };
    assert_eq!(profile.fingerprint(&context).0, "host.grid:v1");
}
