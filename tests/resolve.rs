use node_tool::{resolve_version, UnresolvedSpec, Version};

fn rewrite(alias: &str) -> Option<String> {
    match resolve_version(&UnresolvedSpec::Alias(alias.to_string())).candidate {
        Some(UnresolvedSpec::Alias(a)) => Some(a),
        None => None,
        Some(other) => panic!("unexpected {:?}", other),
    }
}

#[test]
fn runtime_name_is_latest() {
    assert_eq!(rewrite("node"), Some("latest".to_string()));
}

#[test]
fn lts_star_is_stable_not_stripped() {
    assert_eq!(rewrite("lts-*"), Some("stable".to_string()));
    assert_eq!(rewrite("lts/*"), Some("stable".to_string()));
}

#[test]
fn lts_prefix_is_stripped_as_is() {
    assert_eq!(rewrite("lts-hydrogen"), Some("hydrogen".to_string()));
    assert_eq!(rewrite("lts/Iron"), Some("Iron".to_string()));
    assert_eq!(rewrite("lts-"), Some("".to_string()));
}

#[test]
fn other_aliases_pass_through() {
    assert_eq!(rewrite("latest"), None);
    assert_eq!(rewrite("hydrogen"), None);
    assert_eq!(rewrite("lts"), None);
}

#[test]
fn non_alias_gets_no_candidate() {
    let v = Version { major: 18, minor: 0, patch: 0, text: "18.0.0".to_string() };
    assert!(resolve_version(&UnresolvedSpec::Exact(v)).candidate.is_none());
    assert!(resolve_version(&UnresolvedSpec::Canary).candidate.is_none());
    assert!(resolve_version(&UnresolvedSpec::Constraint(">=18".to_string())).candidate.is_none());
}
