use vstd::prelude::*;
use vstd::string::*;
use crate::platform::Os;
use crate::version::same_text;

verus! {

/// What the tool says of itself when it is registered.
#[derive(Debug)]
pub struct ToolMetadataOutput {
    pub name: String,
}

/// Registers the tool under its display name.
pub fn register_tool() -> (r: ToolMetadataOutput)
    ensures
        r.name@ == "Node.js"@,
{
    ToolMetadataOutput { name: String::from_str("Node.js") }
}

/// Where the executables of an installation are.
#[derive(Debug)]
pub struct LocateBinsOutput {
    pub bin_path: Option<String>,
    pub fallback_last_globals_dir: bool,
    pub globals_lookup_dirs: Vec<String>,
}

/// The executable's path within an installation on `os`.
pub open spec fn bin_path_for(os: Os) -> Seq<char> {
    if os == Os::Windows {
        "node.exe"@
    } else {
        "bin/node"@
    }
}

/// Locates the executable within an installation, and the directory of
/// globally installed packages.
pub fn locate_bins(os: Os) -> (r: LocateBinsOutput)
    ensures
        r.bin_path matches Some(p) && p@ == bin_path_for(os),
        r.fallback_last_globals_dir,
        r.globals_lookup_dirs@.len() == 1,
        r.globals_lookup_dirs@[0]@ == "$PROTO_HOME/tools/node/globals/bin"@,
{
    let bin = if os == Os::Windows {
        String::from_str("node.exe")
    } else {
        String::from_str("bin/node")
    };
    let mut dirs: Vec<String> = Vec::new();
    dirs.push(String::from_str("$PROTO_HOME/tools/node/globals/bin"));
    LocateBinsOutput { bin_path: Some(bin), fallback_last_globals_dir: true, globals_lookup_dirs: dirs }
}

/// The global shims to create: each a shim name and the executable it runs.
#[derive(Debug)]
pub struct CreateShimsOutput {
    pub global_shims: Vec<(String, String)>,
}

/// The path of the `npx` executable within an installation on `os`.
pub open spec fn npx_path_for(os: Os) -> Seq<char> {
    if os == Os::Windows {
        "npx.cmd"@
    } else {
        "bin/npx"@
    }
}

/// Creates one global shim, `npx`, that runs the bundled `npx`.
pub fn create_shims(os: Os) -> (r: CreateShimsOutput)
    ensures
        r.global_shims@.len() == 1,
        r.global_shims@[0].0@ == "npx"@,
        r.global_shims@[0].1@ == npx_path_for(os),
{
    let alt = if os == Os::Windows {
        String::from_str("npx.cmd")
    } else {
        String::from_str("bin/npx")
    };
    let mut shims: Vec<(String, String)> = Vec::new();
    shims.push((String::from_str("npx"), alt));
    CreateShimsOutput { global_shims: shims }
}

/// A list of texts seen as a sequence of character sequences.
pub open spec fn texts(v: Seq<String>) -> Seq<Seq<char>> {
    v.map_values(|s: String| s@)
}

/// The arguments of the command that installs the bundled npm after an
/// install, or `None` where the install was asked to skip it.
pub open spec fn bundled_npm_args(pinned: bool, args: Seq<Seq<char>>) -> Option<Seq<Seq<char>>> {
    if args.contains("--no-bundled-npm"@) {
        None
    } else {
        let base = seq!["install"@, "npm"@, "bundled"@];
        let with_pin = if pinned {
            base.push("--pin"@)
        } else {
            base
        };
        Some(
            if args.len() > 0 {
                with_pin.push("--"@) + args
            } else {
                with_pin
            },
        )
    }
}

/// The arguments with which to run `proto` so that it installs the npm that
/// comes with the runtime, given whether the install was pinned and the
/// arguments passed through to it.
pub fn post_install(pinned: bool, passthrough_args: &Vec<String>) -> (r: Option<Vec<String>>)
    ensures
        match r {
            Some(v) => bundled_npm_args(pinned, texts(passthrough_args@)) == Some(texts(v@)),
            None => bundled_npm_args(pinned, texts(passthrough_args@)) is None,
        },
{
    let ghost a = texts(passthrough_args@);
    let mut i: usize = 0;
    while i < passthrough_args.len()
        invariant
            0 <= i <= passthrough_args@.len(),
            a == texts(passthrough_args@),
            forall|j: int| 0 <= j < i ==> a[j] != "--no-bundled-npm"@,
        decreases passthrough_args@.len() - i,
    {
        if same_text(passthrough_args[i].as_str(), "--no-bundled-npm") {
            assert(a[i as int] == "--no-bundled-npm"@);
            return None;
        }
        i = i + 1;
    }
    let mut args: Vec<String> = Vec::new();
    args.push(String::from_str("install"));
    args.push(String::from_str("npm"));
    args.push(String::from_str("bundled"));
    if pinned {
        args.push(String::from_str("--pin"));
    }
    let ghost head = texts(args@);
    if passthrough_args.len() > 0 {
        args.push(String::from_str("--"));
        let ghost h2 = args@;
        let mut j: usize = 0;
        while j < passthrough_args.len()
            invariant
                0 <= j <= passthrough_args@.len(),
                a == texts(passthrough_args@),
                texts(args@) =~= texts(h2) + a.take(j as int),
            decreases passthrough_args@.len() - j,
        {
            let ghost before = args@;
            args.push(passthrough_args[j].clone());
            proof {
                assert(texts(args@) =~= texts(before).push(a[j as int]));
                assert(a.take(j as int + 1) =~= a.take(j as int).push(a[j as int]));
            }
            j = j + 1;
        }
        assert(a.take(a.len() as int) =~= a);
    }
    proof {
        assert(!a.contains("--no-bundled-npm"@));
    }
    Some(args)
}

} // verus!
