use node_tool::{download_prebuilt, is_supported, map_arch, Arch, Os, PluginError, Version, VersionSpec};

fn exact(major: u32, minor: u32, patch: u32) -> VersionSpec {
    VersionSpec::Version(Version { major, minor, patch, text: format!("{major}.{minor}.{patch}") })
}

#[test]
fn linux_x64_round_trip() {
    let out = download_prebuilt(&exact(20, 10, 0), Os::Linux, Arch::X64, None).unwrap();
    assert_eq!(out.archive_prefix.as_deref(), Some("node-v20.10.0-linux-x64"));
    assert_eq!(out.download_name.as_deref(), Some("node-v20.10.0-linux-x64.tar.xz"));
    assert_eq!(
        out.download_url,
        "https://nodejs.org/download/release/v20.10.0/node-v20.10.0-linux-x64.tar.xz"
    );
    assert_eq!(
        out.checksum_url.as_deref(),
        Some("https://nodejs.org/download/release/v20.10.0/SHASUMS256.txt")
    );
}

#[test]
fn macos_arm64_before_16_uses_x64() {
    let old = download_prebuilt(&exact(14, 0, 0), Os::MacOS, Arch::Arm64, None).unwrap();
    assert_eq!(old.archive_prefix.as_deref(), Some("node-v14.0.0-darwin-x64"));
    let new = download_prebuilt(&exact(18, 0, 0), Os::MacOS, Arch::Arm64, None).unwrap();
    assert_eq!(new.archive_prefix.as_deref(), Some("node-v18.0.0-darwin-arm64"));
    let edge = download_prebuilt(&exact(16, 0, 0), Os::MacOS, Arch::Arm64, None).unwrap();
    assert_eq!(edge.archive_prefix.as_deref(), Some("node-v16.0.0-darwin-arm64"));
    let intel = download_prebuilt(&exact(14, 0, 0), Os::MacOS, Arch::X64, None).unwrap();
    assert_eq!(intel.archive_prefix.as_deref(), Some("node-v14.0.0-darwin-x64"));
}

#[test]
fn windows_uses_zip() {
    let out = download_prebuilt(&exact(18, 17, 1), Os::Windows, Arch::X64, None).unwrap();
    assert_eq!(out.archive_prefix.as_deref(), Some("node-v18.17.1-win-x64"));
    assert_eq!(out.download_name.as_deref(), Some("node-v18.17.1-win-x64.zip"));
    assert_eq!(
        out.download_url,
        "https://nodejs.org/download/release/v18.17.1/node-v18.17.1-win-x64.zip"
    );
}

#[test]
fn unsupported_platform_names_both() {
    match download_prebuilt(&exact(20, 0, 0), Os::Linux, Arch::X86, None) {
        Err(PluginError::UnsupportedPlatform { os, arch }) => {
            assert_eq!(os, Os::Linux);
            assert_eq!(arch, Arch::X86);
        }
        other => panic!("unexpected {:?}", other),
    }
    assert!(matches!(
        download_prebuilt(&exact(20, 0, 0), Os::FreeBSD, Arch::X64, None),
        Err(PluginError::UnsupportedPlatform { os: Os::FreeBSD, arch: Arch::X64 })
    ));
}

#[test]
fn canary_uses_nightly_index() {
    let out = download_prebuilt(&VersionSpec::Canary, Os::Linux, Arch::Arm64, Some("v22.0.0-nightly20231201abc")).unwrap();
    assert_eq!(out.archive_prefix.as_deref(), Some("node-v22.0.0-nightly20231201abc-linux-arm64"));
    assert_eq!(
        out.download_url,
        "https://nodejs.org/download/nightly/v22.0.0-nightly20231201abc/node-v22.0.0-nightly20231201abc-linux-arm64.tar.xz"
    );
    assert_eq!(
        out.checksum_url.as_deref(),
        Some("https://nodejs.org/download/nightly/v22.0.0-nightly20231201abc/SHASUMS256.txt")
    );
}

#[test]
fn canary_alias_counts_as_canary() {
    let out = download_prebuilt(&VersionSpec::Alias("canary".to_string()), Os::Windows, Arch::X86, Some("v21.0.0")).unwrap();
    assert_eq!(out.archive_prefix.as_deref(), Some("node-v21.0.0-win-x86"));
}

#[test]
fn canary_without_index_is_unavailable() {
    assert!(matches!(
        download_prebuilt(&VersionSpec::Canary, Os::Linux, Arch::X64, None),
        Err(PluginError::CatalogUnavailable)
    ));
}

#[test]
fn alias_keeps_native_arch_on_macos() {
    let out = download_prebuilt(&VersionSpec::Alias("latest".to_string()), Os::MacOS, Arch::Arm64, None).unwrap();
    assert_eq!(out.archive_prefix.as_deref(), Some("node-vlatest-darwin-arm64"));
}

#[test]
fn arch_names() {
    assert_eq!(map_arch(Os::Linux, Arch::Arm), "armv7l");
    assert_eq!(map_arch(Os::Linux, Arch::Powerpc64), "ppc64le");
    assert_eq!(map_arch(Os::MacOS, Arch::Powerpc64), "ppc64");
    assert_eq!(map_arch(Os::Linux, Arch::S390x), "s390x");
    assert_eq!(map_arch(Os::Windows, Arch::X86), "x86");
    assert_eq!(map_arch(Os::Windows, Arch::Arm64), "arm64");
    let ppc = download_prebuilt(&exact(20, 0, 0), Os::Linux, Arch::Powerpc64, None).unwrap();
    assert_eq!(ppc.archive_prefix.as_deref(), Some("node-v20.0.0-linux-ppc64le"));
}

#[test]
fn support_matrix() {
    assert!(is_supported(Os::Linux, Arch::S390x));
    assert!(!is_supported(Os::MacOS, Arch::X86));
    assert!(is_supported(Os::Windows, Arch::Arm64));
    assert!(!is_supported(Os::Windows, Arch::Arm));
}

#[test]
fn canary_with_bad_index_version_is_malformed() {
    match download_prebuilt(&VersionSpec::Canary, Os::Linux, Arch::X64, Some("%%%")) {
        Err(PluginError::MalformedVersion(t)) => assert_eq!(t, "%%%"),
        other => panic!("unexpected {:?}", other),
    }
}
