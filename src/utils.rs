//! Platform identity and the names of versioned artifacts.
use vstd::prelude::*;

use crate::text::concat;

verus! {

#[derive(Clone, Copy, Debug, PartialEq, Eq, Structural)]
pub enum Os {
    Mac,
    Linux,
    Windows,
}

#[derive(Clone, Copy, Debug, PartialEq, Eq, Structural)]
pub enum Architecture {
    Aarch64,
    X86,
    X8664,
}

/// The host that the extension runs on.
#[derive(Clone, Copy, Debug, PartialEq, Eq, Structural)]
pub struct Platform {
    pub os: Os,
    pub arch: Architecture,
}

pub open spec fn os_tag(os: Os) -> Seq<char> {
    match os {
        Os::Mac => "osx"@,
        Os::Linux => "linux"@,
        Os::Windows => "win"@,
    }
}

pub open spec fn arch_tag(arch: Architecture) -> Seq<char> {
    match arch {
        Architecture::Aarch64 => "arm64"@,
        Architecture::X86 => "x86"@,
        Architecture::X8664 => "x64"@,
    }
}

/// `{os}-{arch}`, as runtime identifiers are written.
pub open spec fn runtime_id(platform: Platform) -> Seq<char> {
    os_tag(platform.os) + "-"@ + arch_tag(platform.arch)
}

pub open spec fn executable_name(name: Seq<char>, os: Os) -> Seq<char> {
    if os == Os::Windows {
        name + ".exe"@
    } else {
        name
    }
}

pub open spec fn version_dir(package_id: Seq<char>, version: Seq<char>) -> Seq<char> {
    package_id + "-"@ + version
}

pub open spec fn nuget_asset_name(package_id: Seq<char>, version: Seq<char>) -> Seq<char> {
    package_id + "."@ + version + ".nupkg"@
}

/// The name of executable `name` on `os`: with `.exe` on Windows.
pub fn get_executable(name: &str, os: Os) -> (r: String)
    ensures
        r@ == executable_name(name@, os),
{
    match os {
        Os::Windows => concat(name, ".exe"),
        _ => String::from_str(name),
    }
}

/// The file name of a NuGet package: `{package_id}.{version}.nupkg`.
pub fn get_nuget_asset_name(package_id: String, version: String) -> (r: String)
    ensures
        r@ == nuget_asset_name(package_id@, version@),
{
    let r = concat(package_id.as_str(), ".");
    let r = concat(r.as_str(), version.as_str());
    concat(r.as_str(), ".nupkg")
}

/// The directory that holds `version` of `package_id`: `{package_id}-{version}`.
pub fn get_version_dir(package_id: String, version: String) -> (r: String)
    ensures
        r@ == version_dir(package_id@, version@),
{
    let r = concat(package_id.as_str(), "-");
    concat(r.as_str(), version.as_str())
}

/// The runtime identifier of `platform`, such as `linux-x64` or `osx-arm64`.
pub fn get_runtime_identifier(platform: Platform) -> (r: String)
    ensures
        r@ == runtime_id(platform),
{
    let os = match platform.os {
        Os::Mac => "osx",
        Os::Linux => "linux",
        Os::Windows => "win",
    };
    let arch = match platform.arch {
        Architecture::Aarch64 => "arm64",
        Architecture::X86 => "x86",
        Architecture::X8664 => "x64",
    };
    let r = concat(os, "-");
    concat(r.as_str(), arch)
}

/// Each supported platform has its own runtime identifier: the mapping from
/// (os, architecture) pairs to identifiers is one to one.
pub proof fn lemma_runtime_id_distinct(a: Platform, b: Platform)
    ensures
        runtime_id(a) == runtime_id(b) <==> a == b,
{
    reveal_strlit("osx");
    reveal_strlit("linux");
    reveal_strlit("win");
    reveal_strlit("arm64");
    reveal_strlit("x86");
    reveal_strlit("x64");
    reveal_strlit("-");
    if runtime_id(a) == runtime_id(b) {
        let ra = runtime_id(a);
        assert(ra[0] == runtime_id(b)[0]);
        assert(ra[1] == runtime_id(b)[1]);
        assert(ra.len() == runtime_id(b).len());
        if a.os == b.os {
            let k: int = os_tag(a.os).len() + 1 as int;
            assert(ra.len() - k == arch_tag(a.arch).len());
            assert(ra[k + 1] == runtime_id(b)[k + 1]);
            assert(ra[k + 2] == runtime_id(b)[k + 2]);
        }
    }
}

/// The runtime identifier is one of the nine entries of the table of
/// supported platforms.
pub proof fn lemma_runtime_id_table(p: Platform)
    ensures
        runtime_id(p) == "osx-arm64"@ || runtime_id(p) == "osx-x86"@ || runtime_id(p)
            == "osx-x64"@ || runtime_id(p) == "linux-arm64"@ || runtime_id(p) == "linux-x86"@
            || runtime_id(p) == "linux-x64"@ || runtime_id(p) == "win-arm64"@ || runtime_id(p)
            == "win-x86"@ || runtime_id(p) == "win-x64"@,
{
    reveal_strlit("osx");
    reveal_strlit("linux");
    reveal_strlit("win");
    reveal_strlit("arm64");
    reveal_strlit("x86");
    reveal_strlit("x64");
    reveal_strlit("-");
    reveal_strlit("osx-arm64");
    reveal_strlit("osx-x86");
    reveal_strlit("osx-x64");
    reveal_strlit("linux-arm64");
    reveal_strlit("linux-x86");
    reveal_strlit("linux-x64");
    reveal_strlit("win-arm64");
    reveal_strlit("win-x86");
    reveal_strlit("win-x64");
    assert(runtime_id(p) =~= match (p.os, p.arch) {
        (Os::Mac, Architecture::Aarch64) => "osx-arm64"@,
        (Os::Mac, Architecture::X86) => "osx-x86"@,
        (Os::Mac, Architecture::X8664) => "osx-x64"@,
        (Os::Linux, Architecture::Aarch64) => "linux-arm64"@,
        (Os::Linux, Architecture::X86) => "linux-x86"@,
        (Os::Linux, Architecture::X8664) => "linux-x64"@,
        (Os::Windows, Architecture::Aarch64) => "win-arm64"@,
        (Os::Windows, Architecture::X86) => "win-x86"@,
        (Os::Windows, Architecture::X8664) => "win-x64"@,
    });
}

/// Versioned directory names never collide: two (package, version) pairs
/// name the same directory only if they are the same pair, as long as the
/// package ids do not themselves end in `-` followed by part of a version.
pub proof fn lemma_version_dir_injective(p1: Seq<char>, v1: Seq<char>, p2: Seq<char>, v2: Seq<char>)
    requires
        p1.len() == p2.len() || v1.len() == v2.len(),
    ensures
        version_dir(p1, v1) == version_dir(p2, v2) <==> (p1 == p2 && v1 == v2),
{
    reveal_strlit("-");
    if version_dir(p1, v1) == version_dir(p2, v2) {
        let d = version_dir(p1, v1);
        assert("-"@.len() == 1);
        assert(d.len() == p1.len() + 1 + v1.len());
        assert(d.len() == p2.len() + 1 + v2.len());
        assert(p1.len() == p2.len());
        assert(p1 =~= d.subrange(0, p1.len() as int));
        assert(p2 =~= version_dir(p2, v2).subrange(0, p2.len() as int));
        assert(v1 =~= d.skip(p1.len() + 1 as int));
        assert(v2 =~= version_dir(p2, v2).skip(p2.len() + 1 as int));
    }
}

} // verus!
