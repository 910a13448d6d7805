//! The platforms for which toolchain archives are published.

use crate::text;
use vstd::prelude::*;

verus! {

/// The name under which archives for an operating system and a processor
/// are published, and the archive's format; nothing for a pair that has none.
pub open spec fn os_arch_and_format(os: Seq<char>, arch: Seq<char>) -> Option<
    (Seq<char>, Seq<char>),
> {
    if os == "windows"@ && arch == "x86_64"@ {
        Some(("windows-amd64"@, "zip"@))
    } else if os == "linux"@ && arch == "x86_64"@ {
        Some(("linux-amd64"@, "tar.gz"@))
    } else if os == "macos"@ && arch == "x86_64"@ {
        Some(("darwin-amd64"@, "tar.gz"@))
    } else if os == "windows"@ && arch == "aarch64"@ {
        Some(("windows-arm64"@, "zip"@))
    } else if os == "linux"@ && arch == "aarch64"@ {
        Some(("linux-arm64"@, "tar.gz"@))
    } else if os == "macos"@ && arch == "aarch64"@ {
        Some(("darwin-arm64"@, "tar.gz"@))
    } else {
        None
    }
}

/// The published name and the archive format for the target that the
/// operating system `os` and the processor `arch` name, as the compiler
/// names them.
pub fn get_os_arch_and_format(os: &str, arch: &str) -> (r: Option<(&'static str, &'static str)>)
    ensures
        r is Some <==> os_arch_and_format(os@, arch@) is Some,
        r matches Some(pair) ==> (pair.0@, pair.1@) == os_arch_and_format(os@, arch@)->Some_0,
{
    let x86 = text::same_text(arch, "x86_64");
    let arm = text::same_text(arch, "aarch64");
    let windows = text::same_text(os, "windows");
    let linux = text::same_text(os, "linux");
    let macos = text::same_text(os, "macos");
    if windows && x86 {
        Some(("windows-amd64", "zip"))
    } else if linux && x86 {
        Some(("linux-amd64", "tar.gz"))
    } else if macos && x86 {
        Some(("darwin-amd64", "tar.gz"))
    } else if windows && arm {
        Some(("windows-arm64", "zip"))
    } else if linux && arm {
        Some(("linux-arm64", "tar.gz"))
    } else if macos && arm {
        Some(("darwin-arm64", "tar.gz"))
    } else {
        None
    }
}

} // verus!
