use vstd::prelude::*;
use vstd::string::*;
use crate::version::{parse_spec, same_text, spec_parse_result, PluginError, UnresolvedSpec};

verus! {

/// The `bin` field of a package manifest: one path, or a map from command to path.
#[derive(Clone, Debug)]
pub enum BinField {
    String(String),
    Object(Vec<(String, String)>),
}

/// The `volta` field of a package manifest: pinned tool versions.
#[derive(Clone, Debug)]
pub struct VoltaField {
    pub node: Option<String>,
    pub npm: Option<String>,
    pub pnpm: Option<String>,
    pub yarn: Option<String>,
}

/// The fields of a package manifest (`package.json`) that tools read.
/// `engines` maps an engine name to its version constraint; its keys are unique.
#[derive(Clone, Debug)]
pub struct PackageJson {
    pub bin: Option<BinField>,
    pub engines: Option<Vec<(String, String)>>,
    pub main: Option<String>,
    pub name: Option<String>,
    pub package_manager: Option<String>,
    pub version: Option<String>,
    pub volta: Option<VoltaField>,
}

/// The value of the first pair of `t` whose key is `k`.
pub open spec fn pair_lookup(t: Seq<(String, String)>, k: Seq<char>) -> Option<Seq<char>>
    decreases t.len(),
{
    if t.len() == 0 {
        None
    } else {
        match pair_lookup(t.drop_last(), k) {
            Some(v) => Some(v),
            None => if t.last().0@ == k {
                Some(t.last().1@)
            } else {
                None
            },
        }
    }
}

impl PackageJson {
    /// The version constraint that the manifest declares for engine `k`.
    pub open spec fn spec_engine(&self, k: Seq<char>) -> Option<Seq<char>> {
        match self.engines {
            Some(t) => pair_lookup(t@, k),
            None => None,
        }
    }

    /// The version constraint that the manifest declares for engine `k`.
    pub fn engine(&self, k: &str) -> (r: Option<&String>)
        ensures
            match r {
                Some(c) => self.spec_engine(k@) == Some(c@),
                None => self.spec_engine(k@) is None,
            },
    {
        match &self.engines {
            None => None,
            Some(t) => {
                let mut i: usize = 0;
                while i < t.len()
                    invariant
                        0 <= i <= t@.len(),
                        self.spec_engine(k@) == pair_lookup(t@, k@),
                        pair_lookup(t@.take(i as int), k@) is None,
                    decreases t@.len() - i,
                {
                    assert(t@.take(i as int + 1).drop_last() =~= t@.take(i as int));
                    if same_text(t[i].0.as_str(), k) {
                        proof {
                            assert(t@.take(i as int + 1).last() == t@[i as int]);
                            assert(pair_lookup(t@.take(i as int + 1), k@) == Some(t@[i as int].1@));
                            lemma_pair_lookup_prefix(t@, i as int + 1, k@);
                        }
                        return Some(&t[i].1);
                    }
                    i = i + 1;
                }
                assert(t@.take(t@.len() as int) =~= t@);
                None
            },
        }
    }
}

proof fn lemma_pair_lookup_prefix(t: Seq<(String, String)>, m: int, k: Seq<char>)
    requires
        0 <= m <= t.len(),
        pair_lookup(t.take(m), k) is Some,
    ensures
        pair_lookup(t, k) == pair_lookup(t.take(m), k),
    decreases t.len() - m,
{
    if m < t.len() {
        assert(t.take(m + 1).drop_last() =~= t.take(m));
        lemma_pair_lookup_prefix(t, m + 1, k);
    } else {
        assert(t.take(m) =~= t);
    }
}

/// A text without its leading and trailing white space, as `str::trim` gives it.
pub uninterp spec fn trimmed(s: Seq<char>) -> Seq<char>;

/// Relies on `str::trim` of std: the result depends on the text alone.
#[verifier::external_body]
fn trim_text(s: &str) -> (r: &str)
    ensures
        r@ == trimmed(s@),
{
    s.trim()
}

/// The version constraint read from a version file, if it declares one.
#[derive(Debug)]
pub struct ParseVersionFileOutput {
    pub version: Option<UnresolvedSpec>,
}

/// The parse of a version file seen as the parse of one specifier: `None`
/// where the file declares none.
pub open spec fn as_parse(r: Result<ParseVersionFileOutput, PluginError>) -> Option<Result<UnresolvedSpec, PluginError>> {
    match r {
        Ok(o) => match o.version {
            Some(s) => Some(Ok(s)),
            None => None,
        },
        Err(e) => Some(Err(e)),
    }
}

/// Reads the version constraint of a version file. For the package manifest,
/// `manifest` is its content as deserialised (`None` where it is not a valid
/// manifest), and the constraint is its `engines.node` entry, if any. Any
/// other file is a version-pin file, whose trimmed content must be a specifier.
pub fn parse_version_file(file: &str, content: &str, manifest: Option<&PackageJson>) -> (r: Result<
    ParseVersionFileOutput,
    PluginError,
>)
    ensures
        file@ == "package.json"@ ==> match manifest {
            Some(p) => match p.spec_engine("node"@) {
                Some(c) => as_parse(r) matches Some(x) && spec_parse_result(c, x),
                None => as_parse(r) is None && r is Ok,
            },
            None => as_parse(r) is None && r is Ok,
        },
        file@ != "package.json"@ ==> (as_parse(r) matches Some(x) && spec_parse_result(trimmed(content@), x)),
{
    if same_text(file, "package.json") {
        match manifest {
            Some(p) => match p.engine("node") {
                Some(c) => match parse_spec(c.as_str()) {
                    Ok(s) => Ok(ParseVersionFileOutput { version: Some(s) }),
                    Err(e) => Err(e),
                },
                None => Ok(ParseVersionFileOutput { version: None }),
            },
            None => Ok(ParseVersionFileOutput { version: None }),
        }
    } else {
        match parse_spec(trim_text(content)) {
            Ok(s) => Ok(ParseVersionFileOutput { version: Some(s) }),
            Err(e) => Err(e),
        }
    }
}

/// The files that can declare a version: two version-pin files and the
/// package manifest.
pub fn detect_version_files() -> (r: Vec<String>)
    ensures
        r@.len() == 3,
        r@[0]@ == ".nvmrc"@,
        r@[1]@ == ".node-version"@,
        r@[2]@ == "package.json"@,
{
    let mut r: Vec<String> = Vec::new();
    r.push(String::from_str(".nvmrc"));
    r.push(String::from_str(".node-version"));
    r.push(String::from_str("package.json"));
    r
}

} // verus!
