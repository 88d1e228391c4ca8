use vstd::prelude::*;

verus! {

/// Operating systems that a host can report.
#[derive(Clone, Copy, Debug, PartialEq, Eq, Structural)]
pub enum Os {
    Android,
    Dragonfly,
    FreeBSD,
    IOS,
    Linux,
    MacOS,
    NetBSD,
    OpenBSD,
    Solaris,
    Windows,
}

/// CPU architectures that a host can report.
#[derive(Clone, Copy, Debug, PartialEq, Eq, Structural)]
pub enum Arch {
    X86,
    X64,
    Arm,
    Arm64,
    LongArm64,
    M68k,
    Mips,
    Mips64,
    Powerpc,
    Powerpc64,
    Riscv64,
    S390x,
    Sparc64,
}

/// The pairs of operating system and architecture that have builds.
pub open spec fn supported(os: Os, arch: Arch) -> bool {
    match os {
        Os::Linux => arch == Arch::X64 || arch == Arch::Arm64 || arch == Arch::Arm || arch == Arch::Powerpc64
            || arch == Arch::S390x,
        Os::MacOS => arch == Arch::X64 || arch == Arch::Arm64,
        Os::Windows => arch == Arch::X64 || arch == Arch::X86 || arch == Arch::Arm64,
        _ => false,
    }
}

/// Whether the pair of operating system and architecture has builds.
pub fn is_supported(os: Os, arch: Arch) -> (r: bool)
    ensures
        r == supported(os, arch),
{
    match os {
        Os::Linux => match arch {
            Arch::X64 | Arch::Arm64 | Arch::Arm | Arch::Powerpc64 | Arch::S390x => true,
            _ => false,
        },
        Os::MacOS => match arch {
            Arch::X64 | Arch::Arm64 => true,
            _ => false,
        },
        Os::Windows => match arch {
            Arch::X64 | Arch::X86 | Arch::Arm64 => true,
            _ => false,
        },
        _ => false,
    }
}

/// Whether an architecture is one that some supported platform has.
pub open spec fn named_arch(arch: Arch) -> bool {
    arch == Arch::Arm || arch == Arch::Arm64 || arch == Arch::Powerpc64 || arch == Arch::S390x || arch == Arch::X64
        || arch == Arch::X86
}

/// The architecture's name in the names of release archives.
pub open spec fn arch_token(os: Os, arch: Arch) -> Seq<char> {
    match arch {
        Arch::Arm => "armv7l"@,
        Arch::Arm64 => "arm64"@,
        Arch::Powerpc64 => if os == Os::Linux {
            "ppc64le"@
        } else {
            "ppc64"@
        },
        Arch::S390x => "s390x"@,
        Arch::X64 => "x64"@,
        _ => "x86"@,
    }
}

/// The name of an architecture in the names of release archives.
pub fn map_arch(os: Os, arch: Arch) -> (r: String)
    requires
        named_arch(arch),
    ensures
        r@ == arch_token(os, arch),
{
    match arch {
        Arch::Arm => String::from_str("armv7l"),
        Arch::Arm64 => String::from_str("arm64"),
        Arch::Powerpc64 => if os == Os::Linux {
            String::from_str("ppc64le")
        } else {
            String::from_str("ppc64")
        },
        Arch::S390x => String::from_str("s390x"),
        Arch::X64 => String::from_str("x64"),
        _ => String::from_str("x86"),
    }
}

/// The operating system's name in the names of release archives.
pub open spec fn os_token(os: Os) -> Seq<char> {
    match os {
        Os::Linux => "linux"@,
        Os::MacOS => "darwin"@,
        _ => "win"@,
    }
}

} // verus!
