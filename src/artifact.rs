use vstd::prelude::*;
use vstd::string::*;
use crate::platform::{arch_token, is_supported, map_arch, os_token, supported, Arch, Os};
use crate::version::{parse_version_text, version_parse, PluginError, VersionSpec};

verus! {

/// Where release builds are published.
pub open spec fn release_host() -> Seq<char> {
    "https://nodejs.org/download/release"@
}

/// Where nightly builds are published.
pub open spec fn nightly_host() -> Seq<char> {
    "https://nodejs.org/download/nightly"@
}

/// Where a build can be downloaded, and how its archive is laid out.
#[derive(Debug)]
pub struct DownloadPrebuiltOutput {
    /// The directory that the archive nests its files under.
    pub archive_prefix: Option<String>,
    pub download_url: String,
    pub download_name: Option<String>,
    pub checksum_url: Option<String>,
}

/// The architecture token in the archive name: macOS on arm64 takes the x64
/// build for a version older than 16, which the host runs under emulation.
pub open spec fn build_arch(os: Os, arch: Arch, major: Option<u32>) -> Seq<char> {
    if os == Os::MacOS && arch == Arch::Arm64 && major is Some && major->0 < 16 {
        "x64"@
    } else {
        arch_token(os, arch)
    }
}

/// The archive's name prefix, `node-v<version>-<os>-<arch>`.
pub open spec fn build_prefix(text: Seq<char>, os: Os, arch: Arch, major: Option<u32>) -> Seq<char> {
    "node-v"@ + text + "-"@ + os_token(os) + "-"@ + build_arch(os, arch, major)
}

/// The archive's extension.
pub open spec fn archive_ext(os: Os) -> Seq<char> {
    if os == Os::Windows {
        ".zip"@
    } else {
        ".tar.xz"@
    }
}

/// The artifact for version `text` (with major part `major`, where one is
/// known) on the platform, published under `host`.
pub open spec fn artifact(
    out: DownloadPrebuiltOutput,
    host: Seq<char>,
    text: Seq<char>,
    major: Option<u32>,
    os: Os,
    arch: Arch,
) -> bool {
    let prefix = build_prefix(text, os, arch, major);
    let name = prefix + archive_ext(os);
    &&& out.archive_prefix matches Some(p) && p@ == prefix
    &&& out.download_name matches Some(f) && f@ == name
    &&& out.download_url@ == host + "/v"@ + text + "/"@ + name
    &&& out.checksum_url matches Some(c) && c@ == host + "/v"@ + text + "/SHASUMS256.txt"@
}

/// The major part of a specifier, where it is a concrete version.
pub open spec fn spec_major(v: VersionSpec) -> Option<u32> {
    match v {
        VersionSpec::Version(x) => Some(x.major),
        _ => None,
    }
}

/// What `download_prebuilt` returns for `version` on the platform, given the
/// first version of the nightly index where one was fetched.
pub open spec fn download_result(
    version: VersionSpec,
    os: Os,
    arch: Arch,
    nightly_first: Option<Seq<char>>,
    r: Result<DownloadPrebuiltOutput, PluginError>,
) -> bool {
    if !supported(os, arch) {
        r matches Err(PluginError::UnsupportedPlatform { os: o, arch: a }) && o == os && a == arch
    } else if !version.spec_is_canary() {
        r matches Ok(out) && artifact(out, release_host(), version.text(), spec_major(version), os, arch)
    } else {
        match nightly_first {
            None => r matches Err(PluginError::CatalogUnavailable),
            Some(t) => match version_parse(t) {
                None => r matches Err(PluginError::MalformedVersion(m)) && m@ == t,
                Some(p) => r matches Ok(out) && artifact(out, nightly_host(), p.3, Some(p.0), os, arch),
            },
        }
    }
}

fn artifact_for(host: &str, text: &str, major: Option<u32>, os: Os, arch: Arch) -> (out: DownloadPrebuiltOutput)
    requires
        supported(os, arch),
    ensures
        artifact(out, host@, text@, major, os, arch),
{
    let native = map_arch(os, arch);
    let arch_name: &str = match major {
        Some(m) if os == Os::MacOS && arch == Arch::Arm64 && m < 16 => "x64",
        _ => native.as_str(),
    };
    let os_name: &str = match os {
        Os::Linux => "linux",
        Os::MacOS => "darwin",
        _ => "win",
    };
    let ext: &str = if os == Os::Windows {
        ".zip"
    } else {
        ".tar.xz"
    };
    let mut prefix = String::from_str("node-v");
    prefix.append(text);
    prefix.append("-");
    prefix.append(os_name);
    prefix.append("-");
    prefix.append(arch_name);
    let mut name = prefix.clone();
    name.append(ext);
    let mut dir = String::from_str(host);
    dir.append("/v");
    dir.append(text);
    dir.append("/");
    let mut url = dir.clone();
    url.append(name.as_str());
    let mut sums = String::from_str(host);
    sums.append("/v");
    sums.append(text);
    sums.append("/SHASUMS256.txt");
    proof {
        assert(prefix@ =~= build_prefix(text@, os, arch, major));
        assert(url@ =~= host@ + "/v"@ + text@ + "/"@ + (build_prefix(text@, os, arch, major) + archive_ext(os)));
        assert(sums@ =~= host@ + "/v"@ + text@ + "/SHASUMS256.txt"@);
    }
    DownloadPrebuiltOutput {
        archive_prefix: Some(prefix),
        download_url: url,
        download_name: Some(name),
        checksum_url: Some(sums),
    }
}

/// Locates the release archive of `version` for the platform. For the nightly
/// channel the version is the first entry of the nightly index, which the
/// caller fetched and passes as `nightly_first` (`None` where it could not).
pub fn download_prebuilt(version: &VersionSpec, os: Os, arch: Arch, nightly_first: Option<&str>) -> (r: Result<
    DownloadPrebuiltOutput,
    PluginError,
>)
    ensures
        download_result(*version, os, arch, match nightly_first {
            Some(t) => Some(t@),
            None => None,
        }, r),
{
    if !is_supported(os, arch) {
        return Err(PluginError::UnsupportedPlatform { os, arch });
    }
    if version.is_canary() {
        match nightly_first {
            None => Err(PluginError::CatalogUnavailable),
            Some(t) => match parse_version_text(t) {
                None => Err(PluginError::MalformedVersion(String::from_str(t))),
                Some(v) => Ok(artifact_for("https://nodejs.org/download/nightly", v.text.as_str(), Some(v.major), os, arch)),
            },
        }
    } else {
        match version {
            VersionSpec::Version(v) => Ok(artifact_for("https://nodejs.org/download/release", v.text.as_str(), Some(v.major), os, arch)),
            VersionSpec::Alias(a) => Ok(artifact_for("https://nodejs.org/download/release", a.as_str(), None, os, arch)),
            VersionSpec::Canary => Ok(artifact_for("https://nodejs.org/download/release", "canary", None, os, arch)),
        }
    }
}

/// On Windows x64, any version that is not the nightly channel is packaged
/// as `node-v<version>-win-x64.zip`.
pub proof fn lemma_windows_zip(
    version: VersionSpec,
    nightly_first: Option<Seq<char>>,
    r: Result<DownloadPrebuiltOutput, PluginError>,
)
    requires
        download_result(version, Os::Windows, Arch::X64, nightly_first, r),
        !version.spec_is_canary(),
    ensures
        r is Ok,
        r->Ok_0.archive_prefix matches Some(p) && p@ == "node-v"@ + version.text() + "-win-x64"@,
        r->Ok_0.download_name matches Some(f) && f@ == "node-v"@ + version.text() + "-win-x64.zip"@,
{
    reveal_strlit("-win-x64");
    reveal_strlit("-win-x64.zip");
    reveal_strlit(".zip");
    reveal_strlit("-");
    reveal_strlit("win");
    reveal_strlit("x64");
    let out = r->Ok_0;
    assert(build_prefix(version.text(), Os::Windows, Arch::X64, spec_major(version)) =~= "node-v"@ + version.text()
        + "-win-x64"@);
    assert(build_prefix(version.text(), Os::Windows, Arch::X64, spec_major(version)) + ".zip"@ =~= "node-v"@
        + version.text() + "-win-x64.zip"@);
}

/// On Linux, an architecture outside the Linux row of the support matrix is
/// refused, with the error naming both the system and the architecture.
pub proof fn lemma_linux_unsupported(
    version: VersionSpec,
    arch: Arch,
    nightly_first: Option<Seq<char>>,
    r: Result<DownloadPrebuiltOutput, PluginError>,
)
    requires
        download_result(version, Os::Linux, arch, nightly_first, r),
        !(arch == Arch::X64 || arch == Arch::Arm64 || arch == Arch::Arm || arch == Arch::Powerpc64 || arch == Arch::S390x),
    ensures
        r matches Err(PluginError::UnsupportedPlatform { os: o, arch: a }) && o == Os::Linux && a == arch,
{
}

} // verus!
