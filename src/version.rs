use vstd::prelude::*;
use vstd::string::*;

verus! {

/// A concrete release version: its numeric parts and its canonical text.
#[derive(Clone, Debug)]
pub struct Version {
    pub major: u32,
    pub minor: u32,
    pub patch: u32,
    /// The version as it is printed, without a leading `v`.
    pub text: String,
}

impl View for Version {
    type V = (u32, u32, u32, Seq<char>);

    open spec fn view(&self) -> (u32, u32, u32, Seq<char>) {
        (self.major, self.minor, self.patch, self.text@)
    }
}

impl Version {
    /// A copy of this version with the same parts and text.
    pub fn copy(&self) -> (r: Version)
        ensures
            r@ == self@,
    {
        Version { major: self.major, minor: self.minor, patch: self.patch, text: self.text.clone() }
    }
}

/// What a user asks for, before it is resolved against a catalog.
#[derive(Clone, Debug)]
pub enum UnresolvedSpec {
    /// The nightly channel.
    Canary,
    /// A named alias such as `lts-hydrogen` or `latest`.
    Alias(String),
    /// A semantic range or requirement such as `>=18` or `^20.1`.
    Constraint(String),
    /// A fully qualified version.
    Exact(Version),
}

/// The failures of this library.
#[derive(Clone, Debug)]
pub enum PluginError {
    /// A catalog version string that does not parse as a version.
    MalformedVersion(String),
    /// Text of a version-pin file or manifest field that is no version specifier.
    InvalidVersionSpec(String),
    /// The catalog or nightly index could not be had.
    CatalogUnavailable,
    /// The operating system and architecture pair is not supported.
    UnsupportedPlatform { os: crate::platform::Os, arch: crate::platform::Arch },
}

/// The parts that the version parser reads from a text, with the text it
/// prints for them, or `None` where the text is no version.
pub uninterp spec fn version_parse(s: Seq<char>) -> Option<(u32, u32, u32, Seq<char>)>;

/// How the unresolved-spec parser classifies a text: `SHAPE_CANARY`,
/// `SHAPE_ALIAS`, `SHAPE_CONSTRAINT` or `SHAPE_VERSION`; `None` where it fails.
pub uninterp spec fn spec_shape(s: Seq<char>) -> Option<u8>;

pub const SHAPE_CANARY: u8 = 0;

pub const SHAPE_ALIAS: u8 = 1;

pub const SHAPE_CONSTRAINT: u8 = 2;

pub const SHAPE_VERSION: u8 = 3;

/// The version that `version_parse` gives for `s`, as a value of this library.
pub open spec fn parsed_as(s: Seq<char>, v: Version) -> bool {
    version_parse(s) == Some(v@)
}

/// Relies on `Version::parse` of version_spec (re-exported by proto_pdk) and on
/// its `Display`: the parsed parts and the printed text depend on the input alone.
#[verifier::external_body]
pub(crate) fn parse_version_text(s: &str) -> (r: Option<Version>)
    ensures
        match r {
            None => version_parse(s@) is None,
            Some(v) => parsed_as(s@, v),
        },
{
    proto_pdk::Version::parse(s).ok().map(
        |v| Version { major: v.major, minor: v.minor, patch: v.patch, text: v.to_string() },
    )
}

/// Relies on `UnresolvedVersionSpec::parse` of version_spec (re-exported by
/// proto_pdk): which variant it yields, or whether it fails, depends on the
/// text alone.
#[verifier::external_body]
fn classify_spec(s: &str) -> (r: Option<u8>)
    ensures
        r == spec_shape(s@),
{
    match proto_pdk::UnresolvedVersionSpec::parse(s) {
        Ok(proto_pdk::UnresolvedVersionSpec::Canary) => Some(SHAPE_CANARY),
        Ok(proto_pdk::UnresolvedVersionSpec::Alias(_)) => Some(SHAPE_ALIAS),
        Ok(proto_pdk::UnresolvedVersionSpec::Range(_)) => Some(SHAPE_CONSTRAINT),
        Ok(proto_pdk::UnresolvedVersionSpec::Requirement(_)) => Some(SHAPE_CONSTRAINT),
        Ok(proto_pdk::UnresolvedVersionSpec::Version(_)) => Some(SHAPE_VERSION),
        Err(_) => None,
    }
}

/// The result of parsing `s` as an unresolved version specifier.
pub open spec fn spec_parse_result(s: Seq<char>, r: Result<UnresolvedSpec, PluginError>) -> bool {
    match spec_shape(s) {
        Some(k) if k == SHAPE_CANARY => r == Ok::<UnresolvedSpec, PluginError>(UnresolvedSpec::Canary),
        Some(k) if k == SHAPE_ALIAS => match r {
            Ok(UnresolvedSpec::Alias(a)) => a@ == s,
            _ => false,
        },
        Some(k) if k == SHAPE_CONSTRAINT => match r {
            Ok(UnresolvedSpec::Constraint(c)) => c@ == s,
            _ => false,
        },
        Some(k) if k == SHAPE_VERSION && version_parse(s) is Some => match r {
            Ok(UnresolvedSpec::Exact(v)) => parsed_as(s, v),
            _ => false,
        },
        _ => match r {
            Err(PluginError::InvalidVersionSpec(t)) => t@ == s,
            _ => false,
        },
    }
}

/// Parses `s` as an unresolved version specifier: the canary channel, an
/// alias, a range or requirement, or an exact version.
pub fn parse_spec(s: &str) -> (r: Result<UnresolvedSpec, PluginError>)
    ensures
        spec_parse_result(s@, r),
{
    match classify_spec(s) {
        Some(k) if k == SHAPE_CANARY => Ok(UnresolvedSpec::Canary),
        Some(k) if k == SHAPE_ALIAS => Ok(UnresolvedSpec::Alias(String::from_str(s))),
        Some(k) if k == SHAPE_CONSTRAINT => Ok(UnresolvedSpec::Constraint(String::from_str(s))),
        Some(k) if k == SHAPE_VERSION => match parse_version_text(s) {
            Some(v) => Ok(UnresolvedSpec::Exact(v)),
            None => Err(PluginError::InvalidVersionSpec(String::from_str(s))),
        },
        _ => Err(PluginError::InvalidVersionSpec(String::from_str(s))),
    }
}

/// Whether two texts are equal.
pub(crate) fn same_text(a: &str, b: &str) -> (r: bool)
    ensures
        r == (a@ == b@),
{
    String::from_str(a).eq(&String::from_str(b))
}

/// A version to install: the nightly channel, an alias, or a concrete version.
#[derive(Clone, Debug)]
pub enum VersionSpec {
    Canary,
    Alias(String),
    Version(Version),
}

impl VersionSpec {
    /// The text that this specifier prints as.
    pub open spec fn text(self) -> Seq<char> {
        match self {
            VersionSpec::Canary => "canary"@,
            VersionSpec::Alias(a) => a@,
            VersionSpec::Version(v) => v.text@,
        }
    }

    /// Whether this specifier asks for the nightly channel.
    pub open spec fn spec_is_canary(self) -> bool {
        match self {
            VersionSpec::Canary => true,
            VersionSpec::Alias(a) => a@ == "canary"@,
            VersionSpec::Version(_) => false,
        }
    }

    /// Whether this specifier asks for the nightly channel.
    pub fn is_canary(&self) -> (r: bool)
        ensures
            r == self.spec_is_canary(),
    {
        match self {
            VersionSpec::Canary => true,
            VersionSpec::Alias(a) => same_text(a.as_str(), "canary"),
            VersionSpec::Version(_) => false,
        }
    }
}

} // verus!
