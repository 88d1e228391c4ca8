use node_tool::{load_versions, CatalogEntry, LoadVersionsOutput, PluginError};

fn entry(version: &str, lts: Option<&str>) -> CatalogEntry {
    CatalogEntry { version: version.to_string(), lts: lts.map(|s| s.to_string()) }
}

fn alias<'a>(out: &'a LoadVersionsOutput, key: &str) -> Option<&'a str> {
    out.aliases.iter().find(|(k, _)| k == key).map(|(_, v)| v.text.as_str())
}

#[test]
fn latest_is_first_entry_without_channel() {
    let out = load_versions(&vec![
        entry("v21.2.0", None),
        entry("v20.10.0", Some("Iron")),
        entry("v18.19.0", Some("Hydrogen")),
    ])
    .unwrap();
    assert_eq!(alias(&out, "latest"), Some("21.2.0"));
    assert_eq!(out.latest.text, "21.2.0");
    assert_eq!(out.latest.major, 21);
    assert_eq!(out.versions.len(), 3);
    assert_eq!(out.versions[2].text, "18.19.0");
}

#[test]
fn stable_is_first_channelled_entry() {
    let out = load_versions(&vec![
        entry("v21.2.0", None),
        entry("v20.10.0", Some("Iron")),
        entry("v18.19.0", Some("Hydrogen")),
    ])
    .unwrap();
    assert_eq!(alias(&out, "stable"), Some("20.10.0"));
}

#[test]
fn stable_absent_without_channels() {
    let out = load_versions(&vec![entry("v21.2.0", None), entry("v21.1.0", None)]).unwrap();
    assert_eq!(alias(&out, "stable"), None);
    assert_eq!(alias(&out, "latest"), Some("21.2.0"));
    assert_eq!(out.aliases.len(), 1);
}

#[test]
fn empty_channel_marker_is_no_channel() {
    let out = load_versions(&vec![entry("v21.2.0", Some("")), entry("v20.10.0", Some("Iron"))]).unwrap();
    assert_eq!(alias(&out, "stable"), Some("20.10.0"));
    assert_eq!(alias(&out, ""), None);
}

#[test]
fn channel_first_occurrence_wins() {
    let out = load_versions(&vec![
        entry("v20.10.0", Some("Iron")),
        entry("v20.9.0", Some("Iron")),
        entry("v18.19.0", Some("Hydrogen")),
        entry("v18.18.0", Some("Hydrogen")),
    ])
    .unwrap();
    assert_eq!(alias(&out, "iron"), Some("20.10.0"));
    assert_eq!(alias(&out, "hydrogen"), Some("18.19.0"));
    assert_eq!(alias(&out, "Iron"), None);
    assert_eq!(alias(&out, "latest"), Some("20.10.0"));
    assert_eq!(alias(&out, "stable"), Some("20.10.0"));
}

#[test]
fn channel_named_latest_does_not_take_latest() {
    let out = load_versions(&vec![entry("v21.0.0", None), entry("v20.0.0", Some("Latest"))]).unwrap();
    assert_eq!(alias(&out, "latest"), Some("21.0.0"));
    assert_eq!(out.aliases.iter().filter(|(k, _)| k == "latest").count(), 1);
}

#[test]
fn empty_catalog_is_unavailable() {
    assert!(matches!(load_versions(&vec![]), Err(PluginError::CatalogUnavailable)));
}

#[test]
fn malformed_version_names_raw_text() {
    match load_versions(&vec![entry("v21.2.0", None), entry("vbroken", None), entry("vworse", None)]) {
        Err(PluginError::MalformedVersion(t)) => assert_eq!(t, "vbroken"),
        other => panic!("unexpected {:?}", other),
    }
}

#[test]
fn version_without_marker_is_kept() {
    let out = load_versions(&vec![entry("16.3.1", None)]).unwrap();
    assert_eq!(out.latest.text, "16.3.1");
    assert_eq!((out.latest.major, out.latest.minor, out.latest.patch), (16, 3, 1));
}
