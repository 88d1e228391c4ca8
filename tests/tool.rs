use node_tool::{create_shims, locate_bins, post_install, register_tool, Os};

fn strings(v: &[&str]) -> Vec<String> {
    v.iter().map(|s| s.to_string()).collect()
}

#[test]
fn tool_name() {
    assert_eq!(register_tool().name, "Node.js");
}

#[test]
fn bins_per_os() {
    let win = locate_bins(Os::Windows);
    assert_eq!(win.bin_path.as_deref(), Some("node.exe"));
    let linux = locate_bins(Os::Linux);
    assert_eq!(linux.bin_path.as_deref(), Some("bin/node"));
    assert!(linux.fallback_last_globals_dir);
    assert_eq!(linux.globals_lookup_dirs, vec!["$PROTO_HOME/tools/node/globals/bin"]);
}

#[test]
fn npx_shim_per_os() {
    assert_eq!(create_shims(Os::Windows).global_shims, vec![("npx".to_string(), "npx.cmd".to_string())]);
    assert_eq!(create_shims(Os::MacOS).global_shims, vec![("npx".to_string(), "bin/npx".to_string())]);
}

#[test]
fn bundled_npm_arguments() {
    assert_eq!(post_install(false, &vec![]), Some(strings(&["install", "npm", "bundled"])));
    assert_eq!(
        post_install(true, &strings(&["--foo", "bar"])),
        Some(strings(&["install", "npm", "bundled", "--pin", "--", "--foo", "bar"]))
    );
    assert_eq!(post_install(true, &strings(&["--foo", "--no-bundled-npm"])), None);
}
