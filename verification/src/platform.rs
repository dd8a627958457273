//! The target a build runs on, which several decisions depend on.
use vstd::prelude::*;

verus! {

/// Operating system of the running build.
#[derive(PartialEq, Eq, Structural, Clone, Copy, Debug)]
pub enum Os {
    MacOs,
    Windows,
    Linux,
    Other,
}

/// Processor architecture of the running build.
#[derive(PartialEq, Eq, Structural, Clone, Copy, Debug)]
pub enum Arch {
    Aarch64,
    X86_64,
    Other,
}

/// The targets for which a mihomo sidecar is shipped.
pub open spec fn supported_target(os: Os, arch: Arch) -> bool {
    ||| (os == Os::MacOs && arch == Arch::Aarch64)
    ||| (os == Os::MacOs && arch == Arch::X86_64)
    ||| (os == Os::Windows && arch == Arch::X86_64)
    ||| (os == Os::Linux && arch == Arch::X86_64)
}

/// The target triple that names the sidecar binary of a supported target.
pub open spec fn triple_of(os: Os, arch: Arch) -> Seq<char> {
    if os == Os::MacOs && arch == Arch::Aarch64 {
        "aarch64-apple-darwin"@
    } else if os == Os::MacOs {
        "x86_64-apple-darwin"@
    } else if os == Os::Windows {
        "x86_64-pc-windows-msvc"@
    } else {
        "x86_64-unknown-linux-gnu"@
    }
}

/// The target triple of the running build.
pub fn current_triple(os: Os, arch: Arch) -> (t: &'static str)
    requires
        supported_target(os, arch),
    ensures
        t@ == triple_of(os, arch),
{
    if os == Os::MacOs && arch == Arch::Aarch64 {
        "aarch64-apple-darwin"
    } else if os == Os::MacOs {
        "x86_64-apple-darwin"
    } else if os == Os::Windows {
        "x86_64-pc-windows-msvc"
    } else {
        "x86_64-unknown-linux-gnu"
    }
}

} // verus!
